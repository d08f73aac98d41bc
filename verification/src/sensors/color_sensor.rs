//! LEGO EV3 color sensor.
use vstd::prelude::*;
use super::{Sensor, SensorPort};
use crate::device::{writes, AttributeWrite};
use crate::error::Ev3Error;
use crate::attribute::Attribute;
use crate::device::{named_devices, Device, Findable};
use crate::driver::{DeviceEntry, Driver};
use crate::error::Ev3Result;

verus! {

/// Reflected light. Red LED on.
pub const MODE_COL_REFLECT: &'static str = "COL-REFLECT";

/// Ambient light. Red LED off.
pub const MODE_COL_AMBIENT: &'static str = "COL-AMBIENT";

/// Color. All LEDs rapidly cycling, appears white.
pub const MODE_COL_COLOR: &'static str = "COL-COLOR";

/// Raw reflected. Red LED on
pub const MODE_REF_RAW: &'static str = "REF-RAW";

/// Raw Color Components. All LEDs rapidly cycling, appears white.
pub const MODE_RGB_RAW: &'static str = "RGB-RAW";

/// Calibration ??? mode
pub const MODE_COL_CAL: &'static str = "COL-CAL";

/// LEGO EV3 color sensor.
#[derive(Debug, Clone)]
pub struct ColorSensor {
    driver: Driver,
}

impl Device for ColorSensor {
    closed spec fn device_class(&self) -> Seq<char> {
        self.driver.class_name@
    }

    closed spec fn device_name(&self) -> Seq<char> {
        self.driver.name@
    }

    fn get_attribute(&self, name: &str) -> (a: Attribute) {
        self.driver.get_attribute(name)
    }
}

impl Findable<SensorPort> for ColorSensor {
    open spec fn findable_class() -> Seq<char> {
        "lego-sensor"@
    }

    open spec fn findable_driver() -> Seq<char> {
        "lego-ev3-color"@
    }

    fn class_name() -> (r: &'static str) {
        "lego-sensor"
    }

    fn list(entries: &[DeviceEntry]) -> (r: Ev3Result<Vec<Self>>) {
        let names = Driver::find_names_by_driver(entries, "lego-ev3-color")?;
        let mut devices: Vec<ColorSensor> = Vec::new();
        let mut i: usize = 0;
        while i < names.len()
            invariant
                i <= names@.len(),
                named_devices(devices@, "lego-sensor"@, names.deep_view().take(i as int)),
            decreases names.len() - i,
        {
            devices.push(ColorSensor { driver: Driver::new("lego-sensor", names[i].as_str()) });
            i += 1;
            assert(names.deep_view().take(i as int)[i - 1] == names.deep_view()[i - 1]);
        }
        assert(names.deep_view().take(names@.len() as int) == names.deep_view());
        Ok(devices)
    }

    fn get(port: SensorPort, entries: &[DeviceEntry]) -> (r: Ev3Result<Self>) {
        let name = Driver::find_name_by_port_and_driver(entries, &port, "lego-ev3-color")?;
        Ok(ColorSensor { driver: Driver::new("lego-sensor", name.as_str()) })
    }

    fn find(entries: &[DeviceEntry]) -> (r: Ev3Result<Self>) {
        let name = Driver::find_only_name_by_driver(entries, "lego-ev3-color")?;
        Ok(ColorSensor { driver: Driver::new("lego-sensor", name.as_str()) })
    }
}

impl Sensor for ColorSensor {

}

impl ColorSensor {
    /// Sets mode `COL-REFLECT`: Reflected light. Red LED on.
    pub fn set_mode_col_reflect(&self) -> (w: AttributeWrite)
        ensures
            writes(w, self.device_class(), self.device_name(), "mode"@, MODE_COL_REFLECT@),
    {
        self.set_mode(MODE_COL_REFLECT)
    }

    /// Sets mode `COL-AMBIENT`: Ambient light. Red LED off.
    pub fn set_mode_col_ambient(&self) -> (w: AttributeWrite)
        ensures
            writes(w, self.device_class(), self.device_name(), "mode"@, MODE_COL_AMBIENT@),
    {
        self.set_mode(MODE_COL_AMBIENT)
    }

    /// Sets mode `COL-COLOR`: Color. All LEDs rapidly cycling, appears white.
    pub fn set_mode_col_color(&self) -> (w: AttributeWrite)
        ensures
            writes(w, self.device_class(), self.device_name(), "mode"@, MODE_COL_COLOR@),
    {
        self.set_mode(MODE_COL_COLOR)
    }

    /// Sets mode `REF-RAW`: Raw reflected. Red LED on
    pub fn set_mode_ref_raw(&self) -> (w: AttributeWrite)
        ensures
            writes(w, self.device_class(), self.device_name(), "mode"@, MODE_REF_RAW@),
    {
        self.set_mode(MODE_REF_RAW)
    }

    /// Sets mode `RGB-RAW`: Raw Color Components. All LEDs rapidly cycling, appears white.
    pub fn set_mode_rgb_raw(&self) -> (w: AttributeWrite)
        ensures
            writes(w, self.device_class(), self.device_name(), "mode"@, MODE_RGB_RAW@),
    {
        self.set_mode(MODE_RGB_RAW)
    }

    /// Sets mode `COL-CAL`: Calibration ??? mode
    pub fn set_mode_col_cal(&self) -> (w: AttributeWrite)
        ensures
            writes(w, self.device_class(), self.device_name(), "mode"@, MODE_COL_CAL@),
    {
        self.set_mode(MODE_COL_CAL)
    }

    /// Red, green and blue components of the detected color, in the range 0-1020,
    /// from the reads of `value0`, `value1` and `value2` in mode `RGB-RAW`.
    /// The first read that failed gives the error.
    pub fn get_rgb(&self, red: Ev3Result<i32>, green: Ev3Result<i32>, blue: Ev3Result<i32>) -> (r: Ev3Result<(i32, i32, i32)>)
        ensures
            match (red, green, blue) {
                (Err(e), _, _) => r matches Err(x) && x@ == e@,
                (Ok(_), Err(e), _) => r matches Err(x) && x@ == e@,
                (Ok(_), Ok(_), Err(e)) => r matches Err(x) && x@ == e@,
                (Ok(a), Ok(b), Ok(c)) => r == Ok::<(i32, i32, i32), Ev3Error>((a, b, c)),
            },
    {
        let red = red?;
        let green = green?;
        let blue = blue?;
        Ok((red, green, blue))
    }
}

} // verus!
