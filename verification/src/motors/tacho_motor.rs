//! The TachoMotor trait provides a uniform interface for using motors with positional
//! and directional feedback such as the EV3 and NXT motors.
//! This feedback allows for precise control of the motors.
use vstd::prelude::*;
use super::{has_state, has_state_spec, millis_i32, nanos_to_millis_i32, Motor};
use crate::device::{write_i32, write_str, writes, AttributeWrite, Device};
use crate::error::{self, Ev3Result};
use crate::number;

verus! {

/// Causes the motor to run until another command is sent.
pub const COMMAND_RUN_FOREVER: &'static str = "run-forever";

/// Runs the motor to an absolute position specified by `position_sp`
/// and then stops the motor using the command specified in `stop_action`.
pub const COMMAND_RUN_TO_ABS_POS: &'static str = "run-to-abs-pos";

/// Runs the motor to a position relative to the current position value.
/// The new position will be current `position` + `position_sp`.
/// When the new position is reached, the motor will stop using the command specified by `stop_action`.
pub const COMMAND_RUN_TO_REL_POS: &'static str = "run-to-rel-pos";

/// Run the motor for the amount of time specified in `time_sp`
/// and then stops the motor using the command specified by `stop_action`.
pub const COMMAND_RUN_TIMED: &'static str = "run-timed";

/// Runs the motor using the duty cycle specified by `duty_cycle_sp`.
/// Unlike other run commands, changing `duty_cycle_sp` while running will take effect immediately.
pub const COMMAND_RUN_DIRECT: &'static str = "run-direct";

/// Stop any of the run commands before they are complete using the command specified by `stop_action`.
pub const COMMAND_STOP: &'static str = "stop";

/// Resets all of the motor parameter attributes to their default values.
/// This will also have the effect of stopping the motor.
pub const COMMAND_RESET: &'static str = "reset";

/// A positive duty cycle will cause the motor to rotate clockwise.
pub const POLARITY_NORMAL: &'static str = "normal";

/// A positive duty cycle will cause the motor to rotate counter-clockwise.
pub const POLARITY_INVERSED: &'static str = "inversed";

/// Power is being sent to the motor.
pub const STATE_RUNNING: &'static str = "running";

/// The motor is ramping up or down and has not yet reached a pub constant output level.
pub const STATE_RAMPING: &'static str = "ramping";

/// The motor is not turning, but rather attempting to hold a fixed position.
pub const STATE_HOLDING: &'static str = "holding";

/// The motor is turning as fast as possible, but cannot reach its `speed_sp`.
pub const STATE_OVERLOADED: &'static str = "overloaded";

/// The motor is trying to run but is not turning at all.
pub const STATE_STALLED: &'static str = "stalled";

/// Removes power from the motor. The motor will freely coast to a stop.
pub const STOP_ACTION_COAST: &'static str = "coast";

/// Removes power from the motor and creates a passive electrical load.
/// This load will absorb the energy from the rotation of the motors
/// and cause the motor to stop more quickly than coasting.
pub const STOP_ACTION_BRAKE: &'static str = "brake";

/// Causes the motor to actively try to hold the current position.
/// If an external force tries to turn the motor, the motor will “push back” to maintain its position.
pub const STOP_ACTION_HOLD: &'static str = "hold";

/// The states that a failed read of `state` stands for: none.
pub open spec fn states_or_none(states: Ev3Result<Vec<String>>) -> Seq<Seq<char>> {
    match error::outcome(states) {
        Ok(s) => s,
        Err(_) => seq![],
    }
}

/// The TachoMotor trait provides a uniform interface for using motors with positional
/// and directional feedback such as the EV3 and NXT motors.
/// Its methods give the attribute writes that drive the motor, and the decisions
/// taken on what was read from it.
pub trait TachoMotor: Motor {
    /// Sets the duty cycle setpoint of the motor. Units are in percent.
    /// Valid values are -100 to 100. A negative value causes the motor to rotate in reverse.
    fn set_duty_cycle_sp(&self, value: i32) -> (w: AttributeWrite)
        ensures
            writes(w, self.device_class(), self.device_name(), "duty_cycle_sp"@, number::int_text(value as int)),
    {
        write_i32(self, "duty_cycle_sp", value)
    }

    /// Sets the polarity of the motor.
    fn set_polarity(&self, value: &str) -> (w: AttributeWrite)
        ensures
            writes(w, self.device_class(), self.device_name(), "polarity"@, value@),
    {
        write_str(self, "polarity", value)
    }

    /// Sets the current position of the motor in pulses of the rotary encoder.
    fn set_position(&self, value: i32) -> (w: AttributeWrite)
        ensures
            writes(w, self.device_class(), self.device_name(), "position"@, number::int_text(value as int)),
    {
        write_i32(self, "position", value)
    }

    /// Sets the target position for the `run-to-abs-pos` and `run-to-rel-pos` commands.
    /// Units are in tacho counts.
    fn set_position_sp(&self, value: i32) -> (w: AttributeWrite)
        ensures
            writes(w, self.device_class(), self.device_name(), "position_sp"@, number::int_text(value as int)),
    {
        write_i32(self, "position_sp", value)
    }

    /// Sets the target speed in tacho counts per second used for all run-* commands except run-direct.
    fn set_speed_sp(&self, value: i32) -> (w: AttributeWrite)
        ensures
            writes(w, self.device_class(), self.device_name(), "speed_sp"@, number::int_text(value as int)),
    {
        write_i32(self, "speed_sp", value)
    }

    /// Sets the ramp up setpoint. Units are in milliseconds and must be positive.
    fn set_ramp_up_sp(&self, value: i32) -> (w: AttributeWrite)
        ensures
            writes(w, self.device_class(), self.device_name(), "ramp_up_sp"@, number::int_text(value as int)),
    {
        write_i32(self, "ramp_up_sp", value)
    }

    /// Sets the ramp down setpoint. Units are in milliseconds and must be positive.
    fn set_ramp_down_sp(&self, value: i32) -> (w: AttributeWrite)
        ensures
            writes(w, self.device_class(), self.device_name(), "ramp_down_sp"@, number::int_text(value as int)),
    {
        write_i32(self, "ramp_down_sp", value)
    }

    /// Sets the stop action.
    /// The value determines the motors behavior when command is set to stop.
    fn set_stop_action(&self, value: &str) -> (w: AttributeWrite)
        ensures
            writes(w, self.device_class(), self.device_name(), "stop_action"@, value@),
    {
        write_str(self, "stop_action", value)
    }

    /// Sets the amount of time the motor will run when using the run-timed command.
    /// Units are in milliseconds. Values must not be negative.
    fn set_time_sp(&self, value: i32) -> (w: AttributeWrite)
        ensures
            writes(w, self.device_class(), self.device_name(), "time_sp"@, number::int_text(value as int)),
    {
        write_i32(self, "time_sp", value)
    }

    /// Runs the motor using the duty cycle specified by `duty_cycle_sp`.
    fn run_direct(&self) -> (w: AttributeWrite)
        ensures
            writes(w, self.device_class(), self.device_name(), "command"@, COMMAND_RUN_DIRECT@),
    {
        self.set_command(COMMAND_RUN_DIRECT)
    }

    /// Causes the motor to run until another command is sent.
    fn run_forever(&self) -> (w: AttributeWrite)
        ensures
            writes(w, self.device_class(), self.device_name(), "command"@, COMMAND_RUN_FOREVER@),
    {
        self.set_command(COMMAND_RUN_FOREVER)
    }

    /// Runs the motor to an absolute position specified by `position_sp`
    /// and then stops the motor using the command specified in `stop_action`.
    /// Where `position_sp` is given, it is first written to `position_sp`.
    fn run_to_abs_pos(&self, position_sp: Option<i32>) -> (r: Vec<AttributeWrite>)
        ensures
            match position_sp {
                Some(p) => r@.len() == 2 && writes(
                    r@[0],
                    self.device_class(),
                    self.device_name(),
                    "position_sp"@,
                    number::int_text(p as int),
                ) && writes(r@[1], self.device_class(), self.device_name(), "command"@, COMMAND_RUN_TO_ABS_POS@),
                None => r@.len() == 1 && writes(
                    r@[0],
                    self.device_class(),
                    self.device_name(),
                    "command"@,
                    COMMAND_RUN_TO_ABS_POS@,
                ),
            },
    {
        let mut r: Vec<AttributeWrite> = Vec::new();
        if let Some(p) = position_sp {
            r.push(write_i32(self, "position_sp", p));
        }
        r.push(self.set_command(COMMAND_RUN_TO_ABS_POS));
        r
    }

    /// Runs the motor to a position relative to the current position value.
    /// The new position will be current `position` + `position_sp`.
    /// Where `position_sp` is given, it is first written to `position_sp`.
    fn run_to_rel_pos(&self, position_sp: Option<i32>) -> (r: Vec<AttributeWrite>)
        ensures
            match position_sp {
                Some(p) => r@.len() == 2 && writes(
                    r@[0],
                    self.device_class(),
                    self.device_name(),
                    "position_sp"@,
                    number::int_text(p as int),
                ) && writes(r@[1], self.device_class(), self.device_name(), "command"@, COMMAND_RUN_TO_REL_POS@),
                None => r@.len() == 1 && writes(
                    r@[0],
                    self.device_class(),
                    self.device_name(),
                    "command"@,
                    COMMAND_RUN_TO_REL_POS@,
                ),
            },
    {
        let mut r: Vec<AttributeWrite> = Vec::new();
        if let Some(p) = position_sp {
            r.push(write_i32(self, "position_sp", p));
        }
        r.push(self.set_command(COMMAND_RUN_TO_REL_POS));
        r
    }

    /// Run the motor for the amount of time specified in `time_sp`
    /// and then stops the motor using the command specified by `stop_action`.
    /// Where a duration of `time_sp` nanoseconds is given, it is first written to `time_sp`
    /// in whole milliseconds.
    fn run_timed(&self, time_sp: Option<u128>) -> (r: Vec<AttributeWrite>)
        ensures
            match time_sp {
                Some(nanos) => r@.len() == 2 && writes(
                    r@[0],
                    self.device_class(),
                    self.device_name(),
                    "time_sp"@,
                    number::int_text(millis_i32(nanos) as int),
                ) && writes(r@[1], self.device_class(), self.device_name(), "command"@, COMMAND_RUN_TIMED@),
                None => r@.len() == 1 && writes(
                    r@[0],
                    self.device_class(),
                    self.device_name(),
                    "command"@,
                    COMMAND_RUN_TIMED@,
                ),
            },
    {
        let mut r: Vec<AttributeWrite> = Vec::new();
        if let Some(nanos) = time_sp {
            r.push(write_i32(self, "time_sp", nanos_to_millis_i32(nanos)));
        }
        r.push(self.set_command(COMMAND_RUN_TIMED));
        r
    }

    /// Stop any of the run commands before they are complete using the command specified by `stop_action`.
    fn stop(&self) -> (w: AttributeWrite)
        ensures
            writes(w, self.device_class(), self.device_name(), "command"@, COMMAND_STOP@),
    {
        self.set_command(COMMAND_STOP)
    }

    /// Resets all of the motor parameter attributes to their default values.
    /// This will also have the effect of stopping the motor.
    fn reset(&self) -> (w: AttributeWrite)
        ensures
            writes(w, self.device_class(), self.device_name(), "command"@, COMMAND_RESET@),
    {
        self.set_command(COMMAND_RESET)
    }

    /// Power is being sent to the motor, from the state flags `states` that `get_state` read.
    fn is_running(&self, states: &Vec<String>) -> (r: bool)
        ensures
            r == has_state_spec(states.deep_view(), STATE_RUNNING@),
    {
        has_state(states, STATE_RUNNING)
    }

    /// The motor is ramping up or down and has not yet reached a constant output level, from the state flags `states` that `get_state` read.
    fn is_ramping(&self, states: &Vec<String>) -> (r: bool)
        ensures
            r == has_state_spec(states.deep_view(), STATE_RAMPING@),
    {
        has_state(states, STATE_RAMPING)
    }

    /// The motor is not turning, but rather attempting to hold a fixed position, from the state flags `states` that `get_state` read.
    fn is_holding(&self, states: &Vec<String>) -> (r: bool)
        ensures
            r == has_state_spec(states.deep_view(), STATE_HOLDING@),
    {
        has_state(states, STATE_HOLDING)
    }

    /// The motor is turning as fast as possible, but cannot reach its `speed_sp`, from the state flags `states` that `get_state` read.
    fn is_overloaded(&self, states: &Vec<String>) -> (r: bool)
        ensures
            r == has_state_spec(states.deep_view(), STATE_OVERLOADED@),
    {
        has_state(states, STATE_OVERLOADED)
    }

    /// The motor is trying to run but is not turning at all, from the state flags `states` that `get_state` read.
    fn is_stalled(&self, states: &Vec<String>) -> (r: bool)
        ensures
            r == has_state_spec(states.deep_view(), STATE_STALLED@),
    {
        has_state(states, STATE_STALLED)
    }

    /// The condition that `wait_while(state, ..)` waits for, from what a read of the state flags
    /// gave: `state` is not among them. A failed read counts as no flags.
    fn wait_while_condition(&self, states: &Ev3Result<Vec<String>>, state: &str) -> (r: bool)
        ensures
            r == !has_state_spec(states_or_none(*states), state@),
    {
        match states {
            Ok(s) => !has_state(s, state),
            Err(_) => true,
        }
    }

    /// The condition that `wait_until(state, ..)` waits for, from what a read of the state flags
    /// gave: `state` is among them. A failed read counts as no flags.
    fn wait_until_condition(&self, states: &Ev3Result<Vec<String>>, state: &str) -> (r: bool)
        ensures
            r == has_state_spec(states_or_none(*states), state@),
    {
        match states {
            Ok(s) => has_state(s, state),
            Err(_) => false,
        }
    }

    /// The condition that `wait_until_not_moving` waits for: the motor is not running.
    fn wait_until_not_moving_condition(&self, states: &Ev3Result<Vec<String>>) -> (r: bool)
        ensures
            r == !has_state_spec(states_or_none(*states), STATE_RUNNING@),
    {
        self.wait_while_condition(states, STATE_RUNNING)
    }
}

} // verus!
