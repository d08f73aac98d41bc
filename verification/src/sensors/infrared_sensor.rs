//! LEGO EV3 infrared sensor.
use vstd::prelude::*;
use super::{Sensor, SensorPort};
use crate::device::{writes, AttributeWrite};
use crate::attribute::Attribute;
use crate::device::{named_devices, Device, Findable};
use crate::driver::{DeviceEntry, Driver};
use crate::error::Ev3Result;

verus! {

/// Proximity
pub const MODE_IR_PROX: &'static str = "IR-PROX";

/// IR Seeker
pub const MODE_IR_SEEK: &'static str = "IR-SEEK";

/// IR Remote Control
pub const MODE_IR_REMOTE: &'static str = "IR-REMOTE";

/// IR Remote Control
pub const MODE_IR_REM_A: &'static str = "IR-REM-A";

/// Alternate IR Seeker ???
pub const MODE_IR_S_ALT: &'static str = "IR-S-ALT";

/// Calibration ???
pub const MODE_IR_CAL: &'static str = "IR-CAL";

/// LEGO EV3 infrared sensor.
#[derive(Debug, Clone)]
pub struct InfraredSensor {
    driver: Driver,
}

impl Device for InfraredSensor {
    closed spec fn device_class(&self) -> Seq<char> {
        self.driver.class_name@
    }

    closed spec fn device_name(&self) -> Seq<char> {
        self.driver.name@
    }

    fn get_attribute(&self, name: &str) -> (a: Attribute) {
        self.driver.get_attribute(name)
    }
}

impl Findable<SensorPort> for InfraredSensor {
    open spec fn findable_class() -> Seq<char> {
        "lego-sensor"@
    }

    open spec fn findable_driver() -> Seq<char> {
        "lego-ev3-ir"@
    }

    fn class_name() -> (r: &'static str) {
        "lego-sensor"
    }

    fn list(entries: &[DeviceEntry]) -> (r: Ev3Result<Vec<Self>>) {
        let names = Driver::find_names_by_driver(entries, "lego-ev3-ir")?;
        let mut devices: Vec<InfraredSensor> = Vec::new();
        let mut i: usize = 0;
        while i < names.len()
            invariant
                i <= names@.len(),
                named_devices(devices@, "lego-sensor"@, names.deep_view().take(i as int)),
            decreases names.len() - i,
        {
            devices.push(InfraredSensor { driver: Driver::new("lego-sensor", names[i].as_str()) });
            i += 1;
            assert(names.deep_view().take(i as int)[i - 1] == names.deep_view()[i - 1]);
        }
        assert(names.deep_view().take(names@.len() as int) == names.deep_view());
        Ok(devices)
    }

    fn get(port: SensorPort, entries: &[DeviceEntry]) -> (r: Ev3Result<Self>) {
        let name = Driver::find_name_by_port_and_driver(entries, &port, "lego-ev3-ir")?;
        Ok(InfraredSensor { driver: Driver::new("lego-sensor", name.as_str()) })
    }

    fn find(entries: &[DeviceEntry]) -> (r: Ev3Result<Self>) {
        let name = Driver::find_only_name_by_driver(entries, "lego-ev3-ir")?;
        Ok(InfraredSensor { driver: Driver::new("lego-sensor", name.as_str()) })
    }
}

impl Sensor for InfraredSensor {

}

impl InfraredSensor {
    /// Sets mode `IR-PROX`: Proximity
    pub fn set_mode_ir_prox(&self) -> (w: AttributeWrite)
        ensures
            writes(w, self.device_class(), self.device_name(), "mode"@, MODE_IR_PROX@),
    {
        self.set_mode(MODE_IR_PROX)
    }

    /// Sets mode `IR-SEEK`: IR Seeker
    pub fn set_mode_ir_seek(&self) -> (w: AttributeWrite)
        ensures
            writes(w, self.device_class(), self.device_name(), "mode"@, MODE_IR_SEEK@),
    {
        self.set_mode(MODE_IR_SEEK)
    }

    /// Sets mode `IR-REMOTE`: IR Remote Control
    pub fn set_mode_ir_remote(&self) -> (w: AttributeWrite)
        ensures
            writes(w, self.device_class(), self.device_name(), "mode"@, MODE_IR_REMOTE@),
    {
        self.set_mode(MODE_IR_REMOTE)
    }

    /// Sets mode `IR-REM-A`: IR Remote Control
    pub fn set_mode_ir_rem_a(&self) -> (w: AttributeWrite)
        ensures
            writes(w, self.device_class(), self.device_name(), "mode"@, MODE_IR_REM_A@),
    {
        self.set_mode(MODE_IR_REM_A)
    }

    /// Sets mode `IR-S-ALT`: Alternate IR Seeker ???
    pub fn set_mode_ir_s_alt(&self) -> (w: AttributeWrite)
        ensures
            writes(w, self.device_class(), self.device_name(), "mode"@, MODE_IR_S_ALT@),
    {
        self.set_mode(MODE_IR_S_ALT)
    }

    /// Sets mode `IR-CAL`: Calibration ???
    pub fn set_mode_ir_cal(&self) -> (w: AttributeWrite)
        ensures
            writes(w, self.device_class(), self.device_name(), "mode"@, MODE_IR_CAL@),
    {
        self.set_mode(MODE_IR_CAL)
    }
}

} // verus!
