//! Touch Sensor
use vstd::prelude::*;
use super::{Sensor, SensorPort};
use crate::device::{writes, AttributeWrite};
use crate::error::Ev3Error;
use crate::attribute::Attribute;
use crate::device::{named_devices, Device, Findable};
use crate::driver::{DeviceEntry, Driver};
use crate::error::Ev3Result;

verus! {

/// Button state
pub const MODE_TOUCH: &'static str = "TOUCH";

/// Touch Sensor
#[derive(Debug, Clone)]
pub struct TouchSensor {
    driver: Driver,
}

impl Device for TouchSensor {
    closed spec fn device_class(&self) -> Seq<char> {
        self.driver.class_name@
    }

    closed spec fn device_name(&self) -> Seq<char> {
        self.driver.name@
    }

    fn get_attribute(&self, name: &str) -> (a: Attribute) {
        self.driver.get_attribute(name)
    }
}

impl Findable<SensorPort> for TouchSensor {
    open spec fn findable_class() -> Seq<char> {
        "lego-sensor"@
    }

    open spec fn findable_driver() -> Seq<char> {
        "lego-ev3-touch"@
    }

    fn class_name() -> (r: &'static str) {
        "lego-sensor"
    }

    fn list(entries: &[DeviceEntry]) -> (r: Ev3Result<Vec<Self>>) {
        let names = Driver::find_names_by_driver(entries, "lego-ev3-touch")?;
        let mut devices: Vec<TouchSensor> = Vec::new();
        let mut i: usize = 0;
        while i < names.len()
            invariant
                i <= names@.len(),
                named_devices(devices@, "lego-sensor"@, names.deep_view().take(i as int)),
            decreases names.len() - i,
        {
            devices.push(TouchSensor { driver: Driver::new("lego-sensor", names[i].as_str()) });
            i += 1;
            assert(names.deep_view().take(i as int)[i - 1] == names.deep_view()[i - 1]);
        }
        assert(names.deep_view().take(names@.len() as int) == names.deep_view());
        Ok(devices)
    }

    fn get(port: SensorPort, entries: &[DeviceEntry]) -> (r: Ev3Result<Self>) {
        let name = Driver::find_name_by_port_and_driver(entries, &port, "lego-ev3-touch")?;
        Ok(TouchSensor { driver: Driver::new("lego-sensor", name.as_str()) })
    }

    fn find(entries: &[DeviceEntry]) -> (r: Ev3Result<Self>) {
        let name = Driver::find_only_name_by_driver(entries, "lego-ev3-touch")?;
        Ok(TouchSensor { driver: Driver::new("lego-sensor", name.as_str()) })
    }
}

impl Sensor for TouchSensor {

}

impl TouchSensor {
    /// A boolean indicating whether the current touch sensor is being pressed,
    /// from the read of `value0`.
    pub fn get_pressed_state(&self, value0: Ev3Result<i32>) -> (r: Ev3Result<bool>)
        ensures
            match value0 {
                Ok(v) => r == Ok::<bool, Ev3Error>(v != 0),
                Err(e) => r matches Err(x) && x@ == e@,
            },
    {
        Ok(value0? != 0)
    }
}

} // verus!
