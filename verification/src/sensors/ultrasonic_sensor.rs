//! LEGO EV3 ultrasonic sensor
use vstd::prelude::*;
use super::{Sensor, SensorPort};
use crate::device::{writes, AttributeWrite};
use crate::attribute::Attribute;
use crate::device::{named_devices, Device, Findable};
use crate::driver::{DeviceEntry, Driver};
use crate::error::Ev3Result;

verus! {

/// Continuous measurement - sets LEDs on, steady. Units in centimeters. Distance (0-2550)
pub const MODE_US_DIST_CM: &'static str = "US-DIST-CM";

/// Continuous measurement - sets LEDs on, steady. Units in inches. Distance (0-1003)
pub const MODE_US_DIST_IN: &'static str = "US-DIST-IN";

/// Listen - sets LEDs on, blinking. Presence (0-1)
pub const MODE_US_LISTEN: &'static str = "US-LISTEN";

/// Single measurement - LEDs on momentarily when mode is set, then off. Units in centimeters. Distance (0-2550)
pub const MODE_US_SI_CM: &'static str = "US-SI-CM";

/// Single measurement - LEDs on momentarily when mode is set, then off. Units in inches. Distance (0-1003)
pub const MODE_US_SI_IN: &'static str = "US-SI-IN";

/// ??? - sets LEDs on, steady. Units in centimeters. Distance (0-2550)
pub const MODE_US_DC_CM: &'static str = "US-DC-CM";

/// ??? - sets LEDs on, steady. Units in inches. Distance (0-1003)
pub const MODE_US_DC_IN: &'static str = "US-DC-IN";

/// LEGO EV3 ultrasonic sensor
#[derive(Debug, Clone)]
pub struct UltrasonicSensor {
    driver: Driver,
}

impl Device for UltrasonicSensor {
    closed spec fn device_class(&self) -> Seq<char> {
        self.driver.class_name@
    }

    closed spec fn device_name(&self) -> Seq<char> {
        self.driver.name@
    }

    fn get_attribute(&self, name: &str) -> (a: Attribute) {
        self.driver.get_attribute(name)
    }
}

impl Findable<SensorPort> for UltrasonicSensor {
    open spec fn findable_class() -> Seq<char> {
        "lego-sensor"@
    }

    open spec fn findable_driver() -> Seq<char> {
        "lego-ev3-us"@
    }

    fn class_name() -> (r: &'static str) {
        "lego-sensor"
    }

    fn list(entries: &[DeviceEntry]) -> (r: Ev3Result<Vec<Self>>) {
        let names = Driver::find_names_by_driver(entries, "lego-ev3-us")?;
        let mut devices: Vec<UltrasonicSensor> = Vec::new();
        let mut i: usize = 0;
        while i < names.len()
            invariant
                i <= names@.len(),
                named_devices(devices@, "lego-sensor"@, names.deep_view().take(i as int)),
            decreases names.len() - i,
        {
            devices.push(UltrasonicSensor { driver: Driver::new("lego-sensor", names[i].as_str()) });
            i += 1;
            assert(names.deep_view().take(i as int)[i - 1] == names.deep_view()[i - 1]);
        }
        assert(names.deep_view().take(names@.len() as int) == names.deep_view());
        Ok(devices)
    }

    fn get(port: SensorPort, entries: &[DeviceEntry]) -> (r: Ev3Result<Self>) {
        let name = Driver::find_name_by_port_and_driver(entries, &port, "lego-ev3-us")?;
        Ok(UltrasonicSensor { driver: Driver::new("lego-sensor", name.as_str()) })
    }

    fn find(entries: &[DeviceEntry]) -> (r: Ev3Result<Self>) {
        let name = Driver::find_only_name_by_driver(entries, "lego-ev3-us")?;
        Ok(UltrasonicSensor { driver: Driver::new("lego-sensor", name.as_str()) })
    }
}

impl Sensor for UltrasonicSensor {

}

impl UltrasonicSensor {
    /// Sets mode `US-DIST-CM`: Continuous measurement - sets LEDs on, steady. Units in centimeters. Distance (0-2550)
    pub fn set_mode_us_dist_cm(&self) -> (w: AttributeWrite)
        ensures
            writes(w, self.device_class(), self.device_name(), "mode"@, MODE_US_DIST_CM@),
    {
        self.set_mode(MODE_US_DIST_CM)
    }

    /// Sets mode `US-DIST-IN`: Continuous measurement - sets LEDs on, steady. Units in inches. Distance (0-1003)
    pub fn set_mode_us_dist_in(&self) -> (w: AttributeWrite)
        ensures
            writes(w, self.device_class(), self.device_name(), "mode"@, MODE_US_DIST_IN@),
    {
        self.set_mode(MODE_US_DIST_IN)
    }

    /// Sets mode `US-LISTEN`: Listen - sets LEDs on, blinking. Presence (0-1)
    pub fn set_mode_us_listen(&self) -> (w: AttributeWrite)
        ensures
            writes(w, self.device_class(), self.device_name(), "mode"@, MODE_US_LISTEN@),
    {
        self.set_mode(MODE_US_LISTEN)
    }

    /// Sets mode `US-SI-CM`: Single measurement - LEDs on momentarily when mode is set, then off. Units in centimeters. Distance (0-2550)
    pub fn set_mode_us_si_cm(&self) -> (w: AttributeWrite)
        ensures
            writes(w, self.device_class(), self.device_name(), "mode"@, MODE_US_SI_CM@),
    {
        self.set_mode(MODE_US_SI_CM)
    }

    /// Sets mode `US-SI-IN`: Single measurement - LEDs on momentarily when mode is set, then off. Units in inches. Distance (0-1003)
    pub fn set_mode_us_si_in(&self) -> (w: AttributeWrite)
        ensures
            writes(w, self.device_class(), self.device_name(), "mode"@, MODE_US_SI_IN@),
    {
        self.set_mode(MODE_US_SI_IN)
    }

    /// Sets mode `US-DC-CM`: ??? - sets LEDs on, steady. Units in centimeters. Distance (0-2550)
    pub fn set_mode_us_dc_cm(&self) -> (w: AttributeWrite)
        ensures
            writes(w, self.device_class(), self.device_name(), "mode"@, MODE_US_DC_CM@),
    {
        self.set_mode(MODE_US_DC_CM)
    }

    /// Sets mode `US-DC-IN`: ??? - sets LEDs on, steady. Units in inches. Distance (0-1003)
    pub fn set_mode_us_dc_in(&self) -> (w: AttributeWrite)
        ensures
            writes(w, self.device_class(), self.device_name(), "mode"@, MODE_US_DC_IN@),
    {
        self.set_mode(MODE_US_DC_IN)
    }
}

} // verus!
