//! LEGO EV3 gyro sensor.
use vstd::prelude::*;
use super::{Sensor, SensorPort};
use crate::device::{writes, AttributeWrite};
use crate::attribute::Attribute;
use crate::device::{named_devices, Device, Findable};
use crate::driver::{DeviceEntry, Driver};
use crate::error::Ev3Result;

verus! {

/// Angle
pub const MODE_GYRO_ANG: &'static str = "GYRO-ANG";

/// Rotational Speed
pub const MODE_GYRO_RATE: &'static str = "GYRO-RATE";

/// Raw sensor value
pub const MODE_GYRO_FAS: &'static str = "GYRO-FAS";

/// Angle and Rotational Speed
pub const MODE_GYRO_G_AND_A: &'static str = "GYRO-G&A";

/// Calibration ???
pub const MODE_GYRO_CAL: &'static str = "GYRO-CAL";

/// LEGO EV3 gyro sensor.
#[derive(Debug, Clone)]
pub struct GyroSensor {
    driver: Driver,
}

impl Device for GyroSensor {
    closed spec fn device_class(&self) -> Seq<char> {
        self.driver.class_name@
    }

    closed spec fn device_name(&self) -> Seq<char> {
        self.driver.name@
    }

    fn get_attribute(&self, name: &str) -> (a: Attribute) {
        self.driver.get_attribute(name)
    }
}

impl Findable<SensorPort> for GyroSensor {
    open spec fn findable_class() -> Seq<char> {
        "lego-sensor"@
    }

    open spec fn findable_driver() -> Seq<char> {
        "lego-ev3-gyro"@
    }

    fn class_name() -> (r: &'static str) {
        "lego-sensor"
    }

    fn list(entries: &[DeviceEntry]) -> (r: Ev3Result<Vec<Self>>) {
        let names = Driver::find_names_by_driver(entries, "lego-ev3-gyro")?;
        let mut devices: Vec<GyroSensor> = Vec::new();
        let mut i: usize = 0;
        while i < names.len()
            invariant
                i <= names@.len(),
                named_devices(devices@, "lego-sensor"@, names.deep_view().take(i as int)),
            decreases names.len() - i,
        {
            devices.push(GyroSensor { driver: Driver::new("lego-sensor", names[i].as_str()) });
            i += 1;
            assert(names.deep_view().take(i as int)[i - 1] == names.deep_view()[i - 1]);
        }
        assert(names.deep_view().take(names@.len() as int) == names.deep_view());
        Ok(devices)
    }

    fn get(port: SensorPort, entries: &[DeviceEntry]) -> (r: Ev3Result<Self>) {
        let name = Driver::find_name_by_port_and_driver(entries, &port, "lego-ev3-gyro")?;
        Ok(GyroSensor { driver: Driver::new("lego-sensor", name.as_str()) })
    }

    fn find(entries: &[DeviceEntry]) -> (r: Ev3Result<Self>) {
        let name = Driver::find_only_name_by_driver(entries, "lego-ev3-gyro")?;
        Ok(GyroSensor { driver: Driver::new("lego-sensor", name.as_str()) })
    }
}

impl Sensor for GyroSensor {

}

impl GyroSensor {
    /// Sets mode `GYRO-ANG`: Angle
    pub fn set_mode_col_ang(&self) -> (w: AttributeWrite)
        ensures
            writes(w, self.device_class(), self.device_name(), "mode"@, MODE_GYRO_ANG@),
    {
        self.set_mode(MODE_GYRO_ANG)
    }

    /// Sets mode `GYRO-RATE`: Rotational Speed
    pub fn set_mode_col_rate(&self) -> (w: AttributeWrite)
        ensures
            writes(w, self.device_class(), self.device_name(), "mode"@, MODE_GYRO_RATE@),
    {
        self.set_mode(MODE_GYRO_RATE)
    }

    /// Sets mode `GYRO-FAS`: Raw sensor value
    pub fn set_mode_col_fas(&self) -> (w: AttributeWrite)
        ensures
            writes(w, self.device_class(), self.device_name(), "mode"@, MODE_GYRO_FAS@),
    {
        self.set_mode(MODE_GYRO_FAS)
    }

    /// Sets mode `GYRO-G&A`: Angle and Rotational Speed
    pub fn set_mode_gyro_g_and_a(&self) -> (w: AttributeWrite)
        ensures
            writes(w, self.device_class(), self.device_name(), "mode"@, MODE_GYRO_G_AND_A@),
    {
        self.set_mode(MODE_GYRO_G_AND_A)
    }

    /// Sets mode `GYRO-CAL`: Calibration ???
    pub fn set_mode_gyro_cal(&self) -> (w: AttributeWrite)
        ensures
            writes(w, self.device_class(), self.device_name(), "mode"@, MODE_GYRO_CAL@),
    {
        self.set_mode(MODE_GYRO_CAL)
    }
}

} // verus!
