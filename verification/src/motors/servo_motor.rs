//! The ServoMotor trait provides a uniform interface for using hobby type servo motors.
use vstd::prelude::*;
use super::{has_state, has_state_spec, Motor};
use crate::device::{write_i32, write_str, writes, AttributeWrite, Device};
use crate::number;

verus! {

/// Drive servo to the position set in the `position_sp` attribute.
pub const COMMAND_RUN: &'static str = "run";

/// Remove power from the motor.
pub const COMMAND_FLOAT: &'static str = "float";

/// With normal polarity, a positive duty cycle will cause the motor to rotate clockwise.
pub const POLARITY_NORMAL: &'static str = "normal";

/// With inversed polarity, a positive duty cycle will cause the motor to rotate counter-clockwise.
pub const POLARITY_INVERSED: &'static str = "inversed";

/// Power is being sent to the motor.
pub const STATE_RUNNING: &'static str = "running";

/// The ServoMotor trait provides a uniform interface for using hobby type servo motors.
/// Its methods give the attribute writes that drive the motor, and the decisions
/// taken on what was read from it.
pub trait ServoMotor: Motor {
    /// Sets the polarity of the motor.
    fn set_polarity(&self, value: &str) -> (w: AttributeWrite)
        ensures
            writes(w, self.device_class(), self.device_name(), "polarity"@, value@),
    {
        write_str(self, "polarity", value)
    }

    /// Sets the max pulse setpoint: the pulse size in milliseconds for the signal
    /// that tells the servo to drive to the maximum (clockwise) position_sp.
    fn set_max_pulse_sp(&self, value: i32) -> (w: AttributeWrite)
        ensures
            writes(w, self.device_class(), self.device_name(), "max_pulse_sp"@, number::int_text(value as int)),
    {
        write_i32(self, "max_pulse_sp", value)
    }

    /// Sets the mid pulse setpoint: the pulse size in milliseconds for the signal
    /// that tells the servo to drive to the mid position_sp.
    fn set_mid_pulse_sp(&self, value: i32) -> (w: AttributeWrite)
        ensures
            writes(w, self.device_class(), self.device_name(), "mid_pulse_sp"@, number::int_text(value as int)),
    {
        write_i32(self, "mid_pulse_sp", value)
    }

    /// Sets the min pulse setpoint: the pulse size in milliseconds for the signal
    /// that tells the servo to drive to the miniumum (counter-clockwise) position_sp.
    fn set_min_pulse_sp(&self, value: i32) -> (w: AttributeWrite)
        ensures
            writes(w, self.device_class(), self.device_name(), "min_pulse_sp"@, number::int_text(value as int)),
    {
        write_i32(self, "min_pulse_sp", value)
    }

    /// Sets the target position for the servo. Units are in tacho counts.
    fn set_position_sp(&self, value: i32) -> (w: AttributeWrite)
        ensures
            writes(w, self.device_class(), self.device_name(), "position_sp"@, number::int_text(value as int)),
    {
        write_i32(self, "position_sp", value)
    }

    /// Sets the rate_sp at which the servo travels from 0 to 100.0%
    /// (half of the full range of the servo). Units are in milliseconds.
    fn set_rate_sp(&self, value: i32) -> (w: AttributeWrite)
        ensures
            writes(w, self.device_class(), self.device_name(), "rate_sp"@, number::int_text(value as int)),
    {
        write_i32(self, "rate_sp", value)
    }

    /// Power is being sent to the motor, from the state flags `states` that `get_state` read.
    fn is_running(&self, states: &Vec<String>) -> (r: bool)
        ensures
            r == has_state_spec(states.deep_view(), STATE_RUNNING@),
    {
        has_state(states, STATE_RUNNING)
    }

    /// Drive servo to the position set in the `position_sp` attribute.
    fn run(&self) -> (w: AttributeWrite)
        ensures
            writes(w, self.device_class(), self.device_name(), "command"@, COMMAND_RUN@),
    {
        self.set_command(COMMAND_RUN)
    }

    /// Remove power from the motor.
    fn float(&self) -> (w: AttributeWrite)
        ensures
            writes(w, self.device_class(), self.device_name(), "command"@, COMMAND_FLOAT@),
    {
        self.set_command(COMMAND_FLOAT)
    }
}

} // verus!
