use ev3dev_lang_rust::attribute::Attribute;
use ev3dev_lang_rust::device::{Device, Findable};
use ev3dev_lang_rust::driver::{DeviceEntry, Driver};
use ev3dev_lang_rust::error::{Ev3Error, Ev3Result};
use ev3dev_lang_rust::motors::{LargeMotor, MediumMotor, MotorPort};
use ev3dev_lang_rust::port::Port;
use ev3dev_lang_rust::sensors::{ColorSensor, SensorPort, TouchSensor};

fn entry(name: &str, address: &str, driver: &str) -> DeviceEntry {
    DeviceEntry {
        name: Ok(Some(name.to_owned())),
        address: Ok(address.to_owned()),
        driver_name: Ok(driver.to_owned()),
    }
}

fn io_error(msg: &str) -> Ev3Error {
    Ev3Error::InternalError { msg: msg.to_owned() }
}

#[test]
fn attribute_path_is_under_sys_class() {
    let a = Attribute::new("tacho-motor", "motor0", "duty_cycle_sp");
    assert_eq!(a.path(), "/sys/class/tacho-motor/motor0duty_cycle_sp");
    let d = Driver::new("lego-sensor", "sensor2");
    assert_eq!(d.get_attribute("value0").path(), "/sys/class/lego-sensor/sensor2value0");
}

#[test]
fn attribute_access_follows_owner_bits() {
    assert_eq!(Attribute::access(0o644), (true, true));
    assert_eq!(Attribute::access(0o444), (true, false));
    assert_eq!(Attribute::access(0o200), (false, true));
    assert_eq!(Attribute::access(0o000), (false, false));
}

#[test]
fn attribute_values_are_trimmed_and_parsed() {
    assert_eq!(Attribute::get_str("outA\n"), "outA");
    assert_eq!(Attribute::get_i32("-50\n"), Ok(-50));
    assert_eq!(
        Attribute::get_i32("abc\n"),
        Err(Ev3Error::InternalError { msg: "invalid digit found in string".to_owned() })
    );
    assert_eq!(
        Attribute::get_i32("\n"),
        Err(Ev3Error::InternalError { msg: "cannot parse integer from empty string".to_owned() })
    );
    assert_eq!(
        Attribute::get_u8("300"),
        Err(Ev3Error::InternalError { msg: "number too large to fit in target type".to_owned() })
    );
    assert_eq!(Attribute::get_vec("run-forever run-timed stop\n"), vec!["run-forever", "run-timed", "stop"]);
}

#[test]
fn driver_debug_text() {
    let d = Driver::new("tacho-motor", "motor1");
    assert_eq!(d.debug_text(), "Driver { class_name: tacho-motor, name: motor1 }");
}

#[test]
fn port_addresses() {
    assert_eq!(MotorPort::OutA.address(), "outA");
    assert_eq!(MotorPort::OutD.address(), "outD");
    assert_eq!(SensorPort::In1.address(), "in1");
    assert_eq!(SensorPort::In4.address(), "in4");
}

#[test]
fn find_name_by_port_and_driver_takes_the_first_match() {
    let entries = vec![
        entry("motor0", "ev3-ports:outB\n", "lego-ev3-l-motor\n"),
        entry("motor1", "ev3-ports:outA\n", "lego-ev3-m-motor\n"),
        entry("motor2", "ev3-ports:outA\n", "lego-ev3-l-motor\n"),
        entry("motor3", "ev3-ports:outA\n", "lego-ev3-l-motor\n"),
    ];
    assert_eq!(
        Driver::find_name_by_port_and_driver(&entries, &MotorPort::OutA, "lego-ev3-l-motor"),
        Ok("motor2".to_owned())
    );
    assert_eq!(
        Driver::find_name_by_port_and_driver(&entries, &MotorPort::OutC, "lego-ev3-l-motor"),
        Err(Ev3Error::NotFound)
    );
}

#[test]
fn find_name_by_port_and_driver_reports_read_errors_in_order() {
    let entries = vec![
        entry("motor0", "ev3-ports:outB", "lego-ev3-l-motor"),
        DeviceEntry { name: Ok(None), address: Ok("x".to_owned()), driver_name: Ok("y".to_owned()) },
        entry("motor2", "ev3-ports:outA", "lego-ev3-l-motor"),
    ];
    assert_eq!(
        Driver::find_name_by_port_and_driver(&entries, &MotorPort::OutA, "lego-ev3-l-motor"),
        Err(Ev3Error::InternalError { msg: "Cannot unwrap option".to_owned() })
    );
    let entries = vec![
        DeviceEntry {
            name: Ok(Some("motor0".to_owned())),
            address: Ok("ev3-ports:outB".to_owned()),
            driver_name: Err(io_error("unreadable")),
        },
        entry("motor1", "ev3-ports:outA", "lego-ev3-l-motor"),
    ];
    // the driver name of a device on another port is not looked at
    assert_eq!(
        Driver::find_name_by_port_and_driver(&entries, &MotorPort::OutA, "lego-ev3-l-motor"),
        Ok("motor1".to_owned())
    );
    let entries = vec![DeviceEntry {
        name: Ok(Some("motor0".to_owned())),
        address: Err(io_error("no address")),
        driver_name: Ok("lego-ev3-l-motor".to_owned()),
    }];
    assert_eq!(
        Driver::find_name_by_port_and_driver(&entries, &MotorPort::OutA, "lego-ev3-l-motor"),
        Err(io_error("no address"))
    );
}

#[test]
fn find_name_by_port_finds_the_single_device() {
    let entries = vec![
        entry("sensor0", "ev3-ports:in1", "lego-ev3-touch"),
        entry("sensor1", "ev3-ports:in2", "lego-ev3-color"),
        entry("sensor2", "ev3-ports:in2", "lego-ev3-us"),
    ];
    assert_eq!(Driver::find_name_by_port(&entries, &SensorPort::In1), Ok("sensor0".to_owned()));
    assert_eq!(Driver::find_name_by_port(&entries, &SensorPort::In2), Err(Ev3Error::MultipleMatches));
    assert_eq!(Driver::find_name_by_port(&entries, &SensorPort::In3), Err(Ev3Error::NotFound));
    assert_eq!(
        Driver::find_names_by_port(&entries, &SensorPort::In2),
        Ok(vec!["sensor1".to_owned(), "sensor2".to_owned()])
    );
}

#[test]
fn find_by_driver_counts_matches() {
    let entries = vec![
        entry("motor0", "ev3-ports:outA", "lego-ev3-l-motor"),
        entry("motor1", "ev3-ports:outB", "lego-ev3-m-motor"),
        entry("motor2", "ev3-ports:outC", "lego-ev3-l-motor\n"),
    ];
    assert_eq!(
        Driver::find_names_by_driver(&entries, "lego-ev3-l-motor"),
        Ok(vec!["motor0".to_owned(), "motor2".to_owned()])
    );
    assert_eq!(Driver::find_name_by_driver(&entries, "lego-ev3-l-motor"), Err(Ev3Error::MultipleMatches));
    assert_eq!(Driver::find_name_by_driver(&entries, "lego-ev3-m-motor"), Ok("motor1".to_owned()));
    assert_eq!(Driver::find_name_by_driver(&entries, "lego-ev3-gyro"), Err(Ev3Error::NotFound));
    assert_eq!(Driver::find_name_by_driver(&[], "lego-ev3-gyro"), Err(Ev3Error::NotFound));
    let broken = vec![
        entry("motor0", "ev3-ports:outA", "lego-ev3-m-motor"),
        DeviceEntry { name: Err(io_error("bad entry")), address: Ok(String::new()), driver_name: Ok(String::new()) },
    ];
    assert_eq!(Driver::find_name_by_driver(&broken, "lego-ev3-m-motor"), Err(io_error("bad entry")));
}

#[test]
fn findable_devices() {
    let entries = vec![
        entry("motor0", "ev3-ports:outA", "lego-ev3-l-motor"),
        entry("motor1", "ev3-ports:outB", "lego-ev3-m-motor"),
        entry("motor2", "ev3-ports:outC", "lego-ev3-l-motor"),
    ];
    let m = LargeMotor::get(MotorPort::OutC, &entries).unwrap();
    assert_eq!(m.get_attribute("speed_sp").path(), "/sys/class/tacho-motor/motor2speed_sp");
    let m = MediumMotor::find(&entries).unwrap();
    assert_eq!(m.get_attribute("command").path(), "/sys/class/tacho-motor/motor1command");
    assert_eq!(LargeMotor::find(&entries).unwrap_err(), Ev3Error::NotFound);
    let all = LargeMotor::list(&entries).unwrap();
    let paths: Vec<String> = all.iter().map(|m| m.get_attribute("position").path()).collect();
    assert_eq!(paths, vec!["/sys/class/tacho-motor/motor0position", "/sys/class/tacho-motor/motor2position"]);
    assert_eq!(MediumMotor::get(MotorPort::OutA, &entries).unwrap_err(), Ev3Error::NotFound);

    let sensors = vec![
        entry("sensor0", "ev3-ports:in1", "lego-ev3-touch"),
        entry("sensor1", "ev3-ports:in3", "lego-ev3-color"),
    ];
    let c = ColorSensor::get(SensorPort::In3, &sensors).unwrap();
    assert_eq!(c.get_attribute("mode").path(), "/sys/class/lego-sensor/sensor1mode");
    let t = TouchSensor::find(&sensors).unwrap();
    assert_eq!(t.get_attribute("value0").path(), "/sys/class/lego-sensor/sensor0value0");
    let r: Ev3Result<Vec<ColorSensor>> = ColorSensor::list(&sensors);
    assert_eq!(r.unwrap().len(), 1);
}
