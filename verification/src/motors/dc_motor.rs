//! The DcMotor trait provides a uniform interface for using
//! regular DC motors with no fancy controls or feedback.
//! This includes LEGO MINDSTORMS RCX motors and LEGO Power Functions motors.
use vstd::prelude::*;
use super::{has_state, has_state_spec, millis_i32, nanos_to_millis_i32, Motor};
use crate::device::{write_i32, write_str, writes, AttributeWrite, Device};
use crate::number;

verus! {

/// Causes the motor to run until another command is sent.
pub const COMMAND_RUN_FOREVER: &'static str = "run-forever";

/// Run the motor for the amount of time specified in `time_sp`
/// and then stops the motor using the command specified by `stop_action`.
pub const COMMAND_RUN_TIMED: &'static str = "run-timed";

/// Runs the motor using the duty cycle specified by `duty_cycle_sp`.
/// Unlike other run commands, changing `duty_cycle_sp` while running will take effect immediately.
pub const COMMAND_RUN_DIRECT: &'static str = "run-direct";

/// Stop any of the run commands before they are complete using the command specified by `stop_action`.
pub const COMMAND_STOP: &'static str = "stop";

/// A positive duty cycle will cause the motor to rotate clockwise.
pub const POLARITY_NORMAL: &'static str = "normal";

/// A positive duty cycle will cause the motor to rotate counter-clockwise.
pub const POLARITY_INVERSED: &'static str = "inversed";

/// Power is being sent to the motor.
pub const STATE_RUNNING: &'static str = "running";

/// The motor is ramping up or down and has not yet reached a pub constant output level.
pub const STATE_RAMPING: &'static str = "ramping";

/// Removes power from the motor. The motor will freely coast to a stop.
pub const STOP_ACTION_COAST: &'static str = "coast";

/// Removes power from the motor and creates a passive electrical load.
/// This load will absorb the energy from the rotation of the motors
/// and cause the motor to stop more quickly than coasting.
pub const STOP_ACTION_BRAKE: &'static str = "brake";

/// The DcMotor trait provides a uniform interface for using
/// regular DC motors with no fancy controls or feedback.
/// Its methods give the attribute writes that drive the motor, and the decisions
/// taken on what was read from it.
pub trait DcMotor: Motor {
    /// Sets the duty cycle setpoint of the motor. Units are in percent.
    /// Valid values are -100 to 100. A negative value causes the motor to rotate in reverse.
    fn set_duty_cycle_sp(&self, value: i32) -> (w: AttributeWrite)
        ensures
            writes(w, self.device_class(), self.device_name(), "duty_cycle_sp"@, number::int_text(value as int)),
    {
        write_i32(self, "duty_cycle_sp", value)
    }

    /// Sets the polarity of the motor.
    fn set_polarity(&self, value: &str) -> (w: AttributeWrite)
        ensures
            writes(w, self.device_class(), self.device_name(), "polarity"@, value@),
    {
        write_str(self, "polarity", value)
    }

    /// Sets the ramp up setpoint. Units are in milliseconds and must be positive.
    fn set_ramp_up_sp(&self, value: i32) -> (w: AttributeWrite)
        ensures
            writes(w, self.device_class(), self.device_name(), "ramp_up_sp"@, number::int_text(value as int)),
    {
        write_i32(self, "ramp_up_sp", value)
    }

    /// Sets the ramp down setpoint. Units are in milliseconds and must be positive.
    fn set_ramp_down_sp(&self, value: i32) -> (w: AttributeWrite)
        ensures
            writes(w, self.device_class(), self.device_name(), "ramp_down_sp"@, number::int_text(value as int)),
    {
        write_i32(self, "ramp_down_sp", value)
    }

    /// Sets the stop action.
    /// The value determines the motors behavior when command is set to stop.
    fn set_stop_action(&self, value: &str) -> (w: AttributeWrite)
        ensures
            writes(w, self.device_class(), self.device_name(), "stop_action"@, value@),
    {
        write_str(self, "stop_action", value)
    }

    /// Sets the amount of time the motor will run when using the run-timed command.
    /// Units are in milliseconds. Values must not be negative.
    fn set_time_sp(&self, value: i32) -> (w: AttributeWrite)
        ensures
            writes(w, self.device_class(), self.device_name(), "time_sp"@, number::int_text(value as int)),
    {
        write_i32(self, "time_sp", value)
    }

    /// Runs the motor using the duty cycle specified by `duty_cycle_sp`.
    fn run_direct(&self) -> (w: AttributeWrite)
        ensures
            writes(w, self.device_class(), self.device_name(), "command"@, COMMAND_RUN_DIRECT@),
    {
        self.set_command(COMMAND_RUN_DIRECT)
    }

    /// Causes the motor to run until another command is sent.
    fn run_forever(&self) -> (w: AttributeWrite)
        ensures
            writes(w, self.device_class(), self.device_name(), "command"@, COMMAND_RUN_FOREVER@),
    {
        self.set_command(COMMAND_RUN_FOREVER)
    }

    /// Run the motor for the amount of time specified in `time_sp`
    /// and then stops the motor using the command specified by `stop_action`.
    /// Where a duration of `time_sp` nanoseconds is given, it is first written to `time_sp`
    /// in whole milliseconds.
    fn run_timed(&self, time_sp: Option<u128>) -> (r: Vec<AttributeWrite>)
        ensures
            match time_sp {
                Some(nanos) => r@.len() == 2 && writes(
                    r@[0],
                    self.device_class(),
                    self.device_name(),
                    "time_sp"@,
                    number::int_text(millis_i32(nanos) as int),
                ) && writes(r@[1], self.device_class(), self.device_name(), "command"@, COMMAND_RUN_TIMED@),
                None => r@.len() == 1 && writes(
                    r@[0],
                    self.device_class(),
                    self.device_name(),
                    "command"@,
                    COMMAND_RUN_TIMED@,
                ),
            },
    {
        let mut r: Vec<AttributeWrite> = Vec::new();
        if let Some(nanos) = time_sp {
            r.push(write_i32(self, "time_sp", nanos_to_millis_i32(nanos)));
        }
        r.push(self.set_command(COMMAND_RUN_TIMED));
        r
    }

    /// Stop any of the run commands before they are complete using the command specified by `stop_action`.
    fn stop(&self) -> (w: AttributeWrite)
        ensures
            writes(w, self.device_class(), self.device_name(), "command"@, COMMAND_STOP@),
    {
        self.set_command(COMMAND_STOP)
    }

    /// Power is being sent to the motor, from the state flags `states` that `get_state` read.
    fn is_running(&self, states: &Vec<String>) -> (r: bool)
        ensures
            r == has_state_spec(states.deep_view(), STATE_RUNNING@),
    {
        has_state(states, STATE_RUNNING)
    }

    /// The motor is ramping up or down and has not yet reached a constant output level, from the state flags `states` that `get_state` read.
    fn is_ramping(&self, states: &Vec<String>) -> (r: bool)
        ensures
            r == has_state_spec(states.deep_view(), STATE_RAMPING@),
    {
        has_state(states, STATE_RAMPING)
    }
}

} // verus!
