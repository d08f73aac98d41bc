//! EV3 medium servo motor
use vstd::prelude::*;
use super::{Motor, MotorPort, TachoMotor};
use crate::attribute::Attribute;
use crate::device::{named_devices, Device, Findable};
use crate::driver::{DeviceEntry, Driver};
use crate::error::Ev3Result;

verus! {

/// EV3 medium servo motor
#[derive(Debug, Clone)]
pub struct MediumMotor {
    driver: Driver,
}

impl Device for MediumMotor {
    closed spec fn device_class(&self) -> Seq<char> {
        self.driver.class_name@
    }

    closed spec fn device_name(&self) -> Seq<char> {
        self.driver.name@
    }

    fn get_attribute(&self, name: &str) -> (a: Attribute) {
        self.driver.get_attribute(name)
    }
}

impl Findable<MotorPort> for MediumMotor {
    open spec fn findable_class() -> Seq<char> {
        "tacho-motor"@
    }

    open spec fn findable_driver() -> Seq<char> {
        "lego-ev3-m-motor"@
    }

    fn class_name() -> (r: &'static str) {
        "tacho-motor"
    }

    fn list(entries: &[DeviceEntry]) -> (r: Ev3Result<Vec<Self>>) {
        let names = Driver::find_names_by_driver(entries, "lego-ev3-m-motor")?;
        let mut devices: Vec<MediumMotor> = Vec::new();
        let mut i: usize = 0;
        while i < names.len()
            invariant
                i <= names@.len(),
                named_devices(devices@, "tacho-motor"@, names.deep_view().take(i as int)),
            decreases names.len() - i,
        {
            devices.push(MediumMotor { driver: Driver::new("tacho-motor", names[i].as_str()) });
            i += 1;
            assert(names.deep_view().take(i as int)[i - 1] == names.deep_view()[i - 1]);
        }
        assert(names.deep_view().take(names@.len() as int) == names.deep_view());
        Ok(devices)
    }

    fn get(port: MotorPort, entries: &[DeviceEntry]) -> (r: Ev3Result<Self>) {
        let name = Driver::find_name_by_port_and_driver(entries, &port, "lego-ev3-m-motor")?;
        Ok(MediumMotor { driver: Driver::new("tacho-motor", name.as_str()) })
    }

    fn find(entries: &[DeviceEntry]) -> (r: Ev3Result<Self>) {
        let name = Driver::find_only_name_by_driver(entries, "lego-ev3-m-motor")?;
        Ok(MediumMotor { driver: Driver::new("tacho-motor", name.as_str()) })
    }
}

impl Motor for MediumMotor {

}

impl TachoMotor for MediumMotor {

}

} // verus!
