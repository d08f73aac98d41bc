//! # Container module for sensor types
use vstd::prelude::*;
use crate::device::{write_i32, write_str, writes, AttributeWrite, Device};
use crate::number;

pub mod color_sensor;
pub mod gyro_sensor;
pub mod infrared_sensor;
pub mod touch_sensor;
pub mod ultrasonic_sensor;

pub use self::color_sensor::ColorSensor;
pub use self::gyro_sensor::GyroSensor;
pub use self::infrared_sensor::InfraredSensor;
pub use self::touch_sensor::TouchSensor;
pub use self::ultrasonic_sensor::UltrasonicSensor;
pub use crate::port::SensorPort;

verus! {

/// Sensor base trait: the attribute writes that configure a sensor.
pub trait Sensor: Device {
    /// Sets the sensor to the given mode.
    fn set_mode(&self, mode: &str) -> (w: AttributeWrite)
        ensures
            writes(w, self.device_class(), self.device_name(), "mode"@, mode@),
    {
        write_str(self, "mode", mode)
    }

    /// Sets the polling period of the sensor in milliseconds.
    /// Writing a value of 0 disables polling.
    fn set_poll_ms(&self, poll_ms: i32) -> (w: AttributeWrite)
        ensures
            writes(w, self.device_class(), self.device_name(), "poll_ms"@, number::int_text(poll_ms as int)),
    {
        write_i32(self, "poll_ms", poll_ms)
    }
}

} // verus!
