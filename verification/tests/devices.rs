use ev3dev_lang_rust::buttons::{ButtonFileHandler, Ev3Button, BUTTON_FILE, KEY_BUF_LEN};
use ev3dev_lang_rust::device::{AttributeWrite, Device, Findable};
use ev3dev_lang_rust::driver::DeviceEntry;
use ev3dev_lang_rust::error::Ev3Error;
use ev3dev_lang_rust::led::{Led, COLOR_AMBER, COLOR_OFF, COLOR_ORANGE, COLOR_RED};
use ev3dev_lang_rust::motors::tacho_motor::{STATE_HOLDING, STATE_RUNNING};
use ev3dev_lang_rust::motors::{LargeMotor, MotorPort, TachoMotor};
use ev3dev_lang_rust::power_supply::PowerSupply;
use ev3dev_lang_rust::sensors::{ColorSensor, Sensor, SensorPort, TouchSensor, UltrasonicSensor};
use ev3dev_lang_rust::wait::{WaitAction, Waiter};

fn large_motor() -> LargeMotor {
    let entries = vec![DeviceEntry {
        name: Ok(Some("motor3".to_owned())),
        address: Ok("ev3-ports:outD\n".to_owned()),
        driver_name: Ok("lego-ev3-l-motor\n".to_owned()),
    }];
    LargeMotor::get(MotorPort::OutD, &entries).unwrap()
}

fn sensor_entries() -> Vec<DeviceEntry> {
    vec![
        DeviceEntry {
            name: Ok(Some("sensor0".to_owned())),
            address: Ok("ev3-ports:in1\n".to_owned()),
            driver_name: Ok("lego-ev3-color\n".to_owned()),
        },
        DeviceEntry {
            name: Ok(Some("sensor1".to_owned())),
            address: Ok("ev3-ports:in2\n".to_owned()),
            driver_name: Ok("lego-ev3-touch\n".to_owned()),
        },
        DeviceEntry {
            name: Ok(Some("sensor2".to_owned())),
            address: Ok("ev3-ports:in4\n".to_owned()),
            driver_name: Ok("lego-ev3-us\n".to_owned()),
        },
    ]
}

fn show(w: &AttributeWrite) -> (String, String) {
    (w.attribute.path(), w.value.clone())
}

#[test]
fn tacho_motor_setters_and_commands() {
    let m = large_motor();
    assert_eq!(
        show(&m.set_duty_cycle_sp(50)),
        ("/sys/class/tacho-motor/motor3duty_cycle_sp".to_owned(), "50".to_owned())
    );
    assert_eq!(show(&m.set_speed_sp(-300)).1, "-300");
    assert_eq!(show(&m.set_polarity("inversed")).0, "/sys/class/tacho-motor/motor3polarity");
    assert_eq!(
        show(&m.run_direct()),
        ("/sys/class/tacho-motor/motor3command".to_owned(), "run-direct".to_owned())
    );
    assert_eq!(show(&m.reset()).1, "reset");
    assert_eq!(show(&m.stop()).1, "stop");
}

#[test]
fn run_to_positions_write_the_setpoint_first() {
    let m = large_motor();
    let plan: Vec<(String, String)> = m.run_to_abs_pos(Some(360)).iter().map(show).collect();
    assert_eq!(
        plan,
        vec![
            ("/sys/class/tacho-motor/motor3position_sp".to_owned(), "360".to_owned()),
            ("/sys/class/tacho-motor/motor3command".to_owned(), "run-to-abs-pos".to_owned()),
        ]
    );
    let plan: Vec<(String, String)> = m.run_to_rel_pos(None).iter().map(show).collect();
    assert_eq!(plan, vec![("/sys/class/tacho-motor/motor3command".to_owned(), "run-to-rel-pos".to_owned())]);
}

#[test]
fn run_timed_writes_whole_milliseconds() {
    let m = large_motor();
    let plan: Vec<(String, String)> = m.run_timed(Some(1_500_999_999)).iter().map(show).collect();
    assert_eq!(
        plan,
        vec![
            ("/sys/class/tacho-motor/motor3time_sp".to_owned(), "1500".to_owned()),
            ("/sys/class/tacho-motor/motor3command".to_owned(), "run-timed".to_owned()),
        ]
    );
    // the milliseconds are cut to an i32 as `as i32` cuts them
    let huge: u128 = (u32::MAX as u128 + 1 + 7) * 1_000_000;
    let plan = m.run_timed(Some(huge));
    assert_eq!(plan[0].value, "7");
    assert_eq!(m.run_timed(None).len(), 1);
}

#[test]
fn state_flags() {
    let m = large_motor();
    let states = vec!["running".to_owned(), "ramping".to_owned()];
    assert!(m.is_running(&states));
    assert!(m.is_ramping(&states));
    assert!(!m.is_holding(&states));
    assert!(!m.is_stalled(&vec![]));
    assert!(m.is_overloaded(&vec!["overloaded".to_owned()]));
    assert!(!m.wait_while_condition(&Ok(states.clone()), STATE_RUNNING));
    assert!(m.wait_while_condition(&Ok(states.clone()), STATE_HOLDING));
    assert!(m.wait_until_condition(&Ok(states.clone()), STATE_RUNNING));
    assert!(!m.wait_until_not_moving_condition(&Ok(states)));
    assert!(m.wait_while_condition(&Err(Ev3Error::NotFound), STATE_RUNNING));
    assert!(!m.wait_until_condition(&Err(Ev3Error::NotFound), STATE_RUNNING));
}

#[test]
fn sensors_modes_and_values() {
    let entries = sensor_entries();
    let color = ColorSensor::get(SensorPort::In1, &entries).unwrap();
    assert_eq!(
        show(&color.set_mode_rgb_raw()),
        ("/sys/class/lego-sensor/sensor0mode".to_owned(), "RGB-RAW".to_owned())
    );
    assert_eq!(show(&color.set_mode_col_reflect()).1, "COL-REFLECT");
    assert_eq!(show(&color.set_poll_ms(10)).1, "10");
    assert_eq!(color.get_rgb(Ok(1), Ok(2), Ok(3)), Ok((1, 2, 3)));
    assert_eq!(color.get_rgb(Ok(1), Err(Ev3Error::NotFound), Err(Ev3Error::MultipleMatches)), Err(Ev3Error::NotFound));

    let touch = TouchSensor::find(&entries).unwrap();
    assert_eq!(touch.get_pressed_state(Ok(1)), Ok(true));
    assert_eq!(touch.get_pressed_state(Ok(0)), Ok(false));
    assert_eq!(touch.get_pressed_state(Err(Ev3Error::NotFound)), Err(Ev3Error::NotFound));

    let us = UltrasonicSensor::get(SensorPort::In4, &entries).unwrap();
    assert_eq!(show(&us.set_mode_us_dist_cm()).1, "US-DIST-CM");
    assert_eq!(show(&us.set_mode("US-LISTEN")).0, "/sys/class/lego-sensor/sensor2mode");
    assert_eq!(us.get_attribute("value0").path(), "/sys/class/lego-sensor/sensor2value0");
}

fn led_names() -> Vec<Result<Option<String>, Ev3Error>> {
    vec![
        Ok(Some("led0:red:brick-status".to_owned())),
        Ok(Some("mmc0::".to_owned())),
        Ok(Some("led0:green:brick-status".to_owned())),
        Ok(Some("led1:red:brick-status".to_owned())),
        Ok(Some("led1:green:brick-status".to_owned())),
    ]
}

#[test]
fn led_chooses_status_leds() {
    let led = Led::new(&led_names()).unwrap();
    let plan: Vec<(String, String)> = led.set_color(COLOR_ORANGE).iter().map(show).collect();
    assert_eq!(
        plan,
        vec![
            ("/sys/class/leds/led0:red:brick-statusbrightness".to_owned(), "255".to_owned()),
            ("/sys/class/leds/led0:green:brick-statusbrightness".to_owned(), "128".to_owned()),
            ("/sys/class/leds/led1:red:brick-statusbrightness".to_owned(), "255".to_owned()),
            ("/sys/class/leds/led1:green:brick-statusbrightness".to_owned(), "128".to_owned()),
        ]
    );
    let other = Led::new(&[Ok(Some("ev3:left:red:ev3dev".to_owned())), Ok(Some("ev3:right:green:ev3dev".to_owned()))]).unwrap();
    let plan: Vec<(String, String)> = other.set_left_color(COLOR_RED).iter().map(show).collect();
    assert_eq!(plan[0].0, "/sys/class/leds/ev3:left:red:ev3devbrightness");
    assert_eq!(plan[1].0, "/sys/class/leds/brightness");
    assert_eq!(other.set_right_color(COLOR_OFF)[1].attribute.path(), "/sys/class/leds/ev3:right:green:ev3devbrightness");
}

#[test]
fn led_reports_unreadable_names() {
    let mut names = led_names();
    names.insert(1, Ok(None));
    assert_eq!(
        Led::new(&names).unwrap_err(),
        Ev3Error::InternalError { msg: "Cannot unwrap option".to_owned() }
    );
}

#[test]
fn led_colors() {
    let led = Led::new(&led_names()).unwrap();
    let left = led.get_left_color(Ok(255), Ok(255));
    let right = led.get_right_color(Ok(255), Ok(255));
    assert_eq!(led.get_color(left, right), Ok(Some(COLOR_AMBER)));
    let right = led.get_right_color(Ok(255), Ok(0));
    assert_eq!(led.get_color(Ok(COLOR_AMBER), right), Ok(None));
    assert_eq!(led.get_left_color(Err(Ev3Error::NotFound), Ok(1)), Err(Ev3Error::NotFound));
    assert_eq!(led.get_color(Ok(COLOR_OFF), Err(Ev3Error::MultipleMatches)), Err(Ev3Error::MultipleMatches));
}

#[test]
fn power_supply_finds_the_battery() {
    let names = vec![Ok(Some("lego-ev3-usb".to_owned())), Ok(Some("lego-ev3-battery".to_owned()))];
    let p = PowerSupply::new(&names).unwrap();
    assert_eq!(p.get_attribute("voltage_now").path(), "/sys/class/power_supply/lego-ev3-batteryvoltage_now");
    assert_eq!(PowerSupply::new(&[Ok(Some("usb".to_owned()))]).unwrap_err(), Ev3Error::NotFound);
    assert_eq!(PowerSupply::new(&[Ok(None)]).unwrap_err(), Ev3Error::InternalError { msg: "Cannot unwrap option".to_owned() });
}

fn buffer_with(keys: &[u32]) -> Vec<u8> {
    let mut b = vec![0u8; KEY_BUF_LEN];
    for k in keys {
        b[(k / 8) as usize] |= 1 << (k % 8);
    }
    b
}

#[test]
fn buttons_follow_the_key_bits() {
    let mut buttons = Ev3Button::new();
    assert_eq!(buttons.file_names(), vec![BUTTON_FILE.to_owned()]);
    assert!(!buttons.is_up());
    buttons.process(&[Some(buffer_with(&[103, 28]))]);
    assert!(buttons.is_up());
    assert!(buttons.is_enter());
    assert!(!buttons.is_down());
    assert!(!buttons.is_backspace());
    assert_eq!(buttons.get_pressed_buttons(), vec!["up".to_owned(), "enter".to_owned()]);
    // a failed poll keeps the last buffer
    buttons.process(&[None]);
    assert!(buttons.is_up());
    buttons.process(&[Some(buffer_with(&[14, 105, 106, 108]))]);
    assert_eq!(buttons.get_pressed_buttons(), vec!["down".to_owned(), "left".to_owned(), "right".to_owned(), "backspace".to_owned()]);
    assert!(buttons.is_left() && buttons.is_right());
}

#[test]
fn button_handler_replaces_buttons_and_shares_files() {
    let mut h = ButtonFileHandler::new();
    h.add_button("a", "/dev/x", 1);
    h.add_button("b", "/dev/x", 2);
    h.add_button("c", "/dev/y", 3);
    assert!(h.has_file("/dev/x") && h.has_file("/dev/y") && !h.has_file("/dev/z"));
    assert_eq!(h.file_names(), vec!["/dev/x".to_owned(), "/dev/y".to_owned()]);
    h.add_button("a", "/dev/y", 4);
    h.process(&[Some(buffer_with(&[1, 2])), Some(buffer_with(&[4]))]);
    assert_eq!(h.get_pressed_buttons(), vec!["a".to_owned(), "b".to_owned()]);
    assert!(h.get_button_state("a") && !h.get_button_state("c"));
    // any key code can be added; only polling needs its bit in the buffer
    h.add_button("far", "/dev/z", 5000);
    assert!(h.has_file("/dev/z"));
    assert_eq!(h.file_names(), vec!["/dev/x".to_owned(), "/dev/y".to_owned(), "/dev/z".to_owned()]);
    assert_eq!(h.get_pressed_buttons(), vec!["a".to_owned(), "b".to_owned()]);
}

#[test]
fn waiter_decisions() {
    let mut w = Waiter::new(Some(2_000_000_000));
    assert_eq!(w.on_condition(false), WaitAction::WaitForChange(2000));
    assert_eq!(w.on_change(500_000_000), WaitAction::CheckCondition);
    assert_eq!(w.on_condition(false), WaitAction::WaitForChange(1500));
    assert_eq!(w.on_change(2_000_000_000), WaitAction::Finish(false));
    let mut forever = Waiter::new(None);
    assert_eq!(forever.on_condition(false), WaitAction::WaitForChange(-1));
    assert_eq!(forever.on_change(u128::MAX), WaitAction::CheckCondition);
    assert_eq!(forever.on_condition(true), WaitAction::Finish(true));
}

#[test]
fn led_ignores_directories_that_are_not_status_leds() {
    let plain: Vec<(String, String)> = Led::new(&led_names()).unwrap().set_color(COLOR_AMBER).iter().map(show).collect();
    let mut names = led_names();
    names.insert(0, Ok(Some("input2::capslock".to_owned())));
    names.insert(3, Ok(Some("led0:red:other".to_owned())));
    names.push(Ok(Some("led1:green:disk".to_owned())));
    let extra: Vec<(String, String)> = Led::new(&names).unwrap().set_color(COLOR_AMBER).iter().map(show).collect();
    assert_eq!(plain, extra);
}

#[test]
fn button_handler_lists_each_pressed_button_once() {
    let mut h = ButtonFileHandler::new();
    h.add_button("a", "/dev/x", 1);
    h.add_button("b", "/dev/x", 2);
    h.add_button("a", "/dev/x", 2);
    h.process(&[Some(buffer_with(&[1, 2]))]);
    assert_eq!(h.get_pressed_buttons(), vec!["a".to_owned(), "b".to_owned()]);
    assert_eq!(h.file_names(), vec!["/dev/x".to_owned()]);
}
