//! The device base traits: attributes of a device, writes to them, and finding devices.
use vstd::prelude::*;
use crate::attribute::Attribute;
use crate::driver::{self, DeviceEntry};
use crate::error::{self, Ev3Result};
use crate::motors::{LargeMotor, MediumMotor};
use crate::port::{MotorPort, Port, SensorPort};
use crate::sensors::{ColorSensor, GyroSensor, InfraredSensor, TouchSensor, UltrasonicSensor};

verus! {

/// A write of `value` to the file of `attribute`: what a setter or a command of a device does.
#[derive(Debug, Clone)]
pub struct AttributeWrite {
    /// The attribute written to.
    pub attribute: Attribute,
    /// The text written.
    pub value: String,
}

/// `w` writes `value` to attribute `attribute_name` of device `name` of class `class_name`.
pub open spec fn writes(
    w: AttributeWrite,
    class_name: Seq<char>,
    name: Seq<char>,
    attribute_name: Seq<char>,
    value: Seq<char>,
) -> bool {
    &&& w.attribute.class_name@ == class_name
    &&& w.attribute.name@ == name
    &&& w.attribute.attribute_name@ == attribute_name
    &&& w.value@ == value
}

/// `w` writes `value` to the attribute `a`.
pub open spec fn writes_to(w: AttributeWrite, a: Attribute, value: Seq<char>) -> bool {
    writes(w, a.class_name@, a.name@, a.attribute_name@, value)
}

/// The ev3dev device base trait
pub trait Device {
    /// The class of the device, such as `tacho-motor`.
    spec fn device_class(&self) -> Seq<char>;

    /// The device's directory in its class, such as `motor0`.
    spec fn device_name(&self) -> Seq<char>;

    /// Returns the attribute wrapper for an attribute name.
    fn get_attribute(&self, name: &str) -> (a: Attribute)
        ensures
            a.class_name@ == self.device_class(),
            a.name@ == self.device_name(),
            a.attribute_name@ == name@,
    ;

    /// Sends a command to the device controller: writes `command` to attribute `command`.
    fn set_command(&self, command: &str) -> (w: AttributeWrite)
        ensures
            writes(w, self.device_class(), self.device_name(), "command"@, command@),
    {
        AttributeWrite { attribute: self.get_attribute("command"), value: command.to_owned() }
    }
}

/// Writes `value` to attribute `name` of `device`.
pub fn write_str<D: Device + ?Sized>(device: &D, name: &str, value: &str) -> (w: AttributeWrite)
    ensures
        writes(w, device.device_class(), device.device_name(), name@, value@),
{
    AttributeWrite { attribute: device.get_attribute(name), value: value.to_owned() }
}

/// Writes the `i32` `value` to attribute `name` of `device`.
pub fn write_i32<D: Device + ?Sized>(device: &D, name: &str, value: i32) -> (w: AttributeWrite)
    ensures
        writes(
            w,
            device.device_class(),
            device.device_name(),
            name@,
            crate::number::int_text(value as int),
        ),
{
    AttributeWrite { attribute: device.get_attribute(name), value: Attribute::set_i32(value) }
}

/// `devices` are the devices of class `class_name` named `names`, in order.
pub open spec fn named_devices<D: Device>(devices: Seq<D>, class_name: Seq<char>, names: Seq<Seq<char>>) -> bool {
    &&& devices.len() == names.len()
    &&& forall|i: int|
        0 <= i < devices.len() ==> #[trigger] devices[i].device_class() == class_name
            && devices[i].device_name() == names[i]
}

/// Helper trait to create a new `Device` instance from what was read of its class directory.
pub trait Findable<PortType: Port> where Self: Sized + Device {
    /// The class of the devices of this type.
    spec fn findable_class() -> Seq<char>;

    /// The driver name of the devices of this type.
    spec fn findable_driver() -> Seq<char>;

    /// The class directory of the devices of this type, under `/sys/class/`.
    fn class_name() -> (r: &'static str)
        ensures
            r@ == Self::findable_class(),
    ;

    /// Extract list of connected 'Self'
    fn list(entries: &[DeviceEntry]) -> (r: Ev3Result<Vec<Self>>)
        ensures
            match driver::search_driver(entries@, Self::findable_driver()) {
                Ok(names) => r matches Ok(v) && named_devices(v@, Self::findable_class(), names),
                Err(x) => r matches Err(e) && e@ == x,
            },
    ;

    /// Try to get a `Self` on the given port. Returns `NotFound` if port is not used or another
    /// device is connected.
    fn get(port: PortType, entries: &[DeviceEntry]) -> (r: Ev3Result<Self>)
        ensures
            match driver::search_port_driver(
                entries@,
                port.port_address(),
                Self::findable_driver(),
            ) {
                Ok(name) => r matches Ok(d) && d.device_class() == Self::findable_class()
                    && d.device_name() == name,
                Err(x) => r matches Err(e) && e@ == x,
            },
    ;

    /// Try to find a `Self`. Only returns a device if there is exactly one connected,
    /// `Error::NotFound` otherwise.
    fn find(entries: &[DeviceEntry]) -> (r: Ev3Result<Self>)
        ensures
            match driver::search_only_driver(entries@, Self::findable_driver()) {
                Ok(name) => r matches Ok(d) && d.device_class() == Self::findable_class()
                    && d.device_name() == name,
                Err(x) => r matches Err(e) && e@ == x,
            },
    ;
}

/// Each device type is tied to its ev3dev class and driver: large and medium motors are
/// `tacho-motor` devices with drivers `lego-ev3-l-motor` and `lego-ev3-m-motor`; the color, gyro,
/// infrared, touch and ultrasonic sensors are `lego-sensor` devices with drivers
/// `lego-ev3-color`, `lego-ev3-gyro`, `lego-ev3-ir`, `lego-ev3-touch` and `lego-ev3-us`. No two
/// device types share a driver, so a search by driver never gives a device of another type.
pub proof fn lemma_device_drivers()
    ensures
        <LargeMotor as Findable<MotorPort>>::findable_class() == "tacho-motor"@,
        <LargeMotor as Findable<MotorPort>>::findable_driver() == "lego-ev3-l-motor"@,
        <MediumMotor as Findable<MotorPort>>::findable_class() == "tacho-motor"@,
        <MediumMotor as Findable<MotorPort>>::findable_driver() == "lego-ev3-m-motor"@,
        <ColorSensor as Findable<SensorPort>>::findable_class() == "lego-sensor"@,
        <ColorSensor as Findable<SensorPort>>::findable_driver() == "lego-ev3-color"@,
        <GyroSensor as Findable<SensorPort>>::findable_class() == "lego-sensor"@,
        <GyroSensor as Findable<SensorPort>>::findable_driver() == "lego-ev3-gyro"@,
        <InfraredSensor as Findable<SensorPort>>::findable_class() == "lego-sensor"@,
        <InfraredSensor as Findable<SensorPort>>::findable_driver() == "lego-ev3-ir"@,
        <TouchSensor as Findable<SensorPort>>::findable_class() == "lego-sensor"@,
        <TouchSensor as Findable<SensorPort>>::findable_driver() == "lego-ev3-touch"@,
        <UltrasonicSensor as Findable<SensorPort>>::findable_class() == "lego-sensor"@,
        <UltrasonicSensor as Findable<SensorPort>>::findable_driver() == "lego-ev3-us"@,
        forall|i: int, j: int|
            0 <= i < device_drivers().len() && 0 <= j < device_drivers().len() && i != j
                ==> #[trigger] device_drivers()[i] != #[trigger] device_drivers()[j],
{
    reveal_strlit("lego-ev3-l-motor");
    reveal_strlit("lego-ev3-m-motor");
    reveal_strlit("lego-ev3-color");
    reveal_strlit("lego-ev3-gyro");
    reveal_strlit("lego-ev3-ir");
    reveal_strlit("lego-ev3-touch");
    reveal_strlit("lego-ev3-us");
    assert forall|i: int, j: int|
        0 <= i < device_drivers().len() && 0 <= j < device_drivers().len() && i != j
            implies #[trigger] device_drivers()[i] != #[trigger] device_drivers()[j] by {
        assert(device_drivers()[i][9] != device_drivers()[j][9]);
    }
}

/// The drivers of the device types: large and medium motor, then the color, gyro, infrared,
/// touch and ultrasonic sensors.
pub open spec fn device_drivers() -> Seq<Seq<char>> {
    seq![
        <LargeMotor as Findable<MotorPort>>::findable_driver(),
        <MediumMotor as Findable<MotorPort>>::findable_driver(),
        <ColorSensor as Findable<SensorPort>>::findable_driver(),
        <GyroSensor as Findable<SensorPort>>::findable_driver(),
        <InfraredSensor as Findable<SensorPort>>::findable_driver(),
        <TouchSensor as Findable<SensorPort>>::findable_driver(),
        <UltrasonicSensor as Findable<SensorPort>>::findable_driver(),
    ]
}

} // verus!
