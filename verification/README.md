# ev3dev_lang_rust

Rust language bindings for ev3dev, the Debian-based operating system of LEGO MINDSTORMS EV3
bricks, in two parts.

- `src/` is the library, verified with Verus. It holds every decision the bindings make:
  where an attribute lives and how its text is read and written, the search for a device by
  port and driver, the attribute writes of each motor and sensor command, the leds, the brick
  buttons and their key bits, the battery search, the `beep` and `amixer` arguments and the
  reading of their output, and the steps of a wait for a condition with a timeout.
  Each public function states what it returns in its `ensures`; the proof functions
  (`lemma_*`) state the laws that hold across functions, such as that a value written to an
  attribute reads back as the same value, or that the color set on the leds is the color read
  from them.
- `app/` is the file and process side: it reads the class directories and attribute files under
  `/sys/class/`, polls the input devices, runs `beep`, `aplay`, `espeak` and `amixer`, waits on
  `epoll`, and hands what it read to the library.

```text
src/
  text.rs, number.rs      text and integer parsing and formatting
  error.rs                Ev3Error, Ev3Result, OrErr
  attribute.rs            attribute paths, access bits, reading and writing values
  port.rs                 motor and sensor ports
  driver.rs               searching a class directory by port and driver
  device.rs               Device and Findable, attribute writes
  motors.rs, motors/      DC, servo and tacho motors; LargeMotor, MediumMotor
  sensors.rs, sensors/    color, gyro, infrared, touch and ultrasonic sensors
  led.rs                  the brick's leds
  sound.rs                beep and amixer arguments, mixer channels, volume
  buttons.rs              the brick's buttons
  power_supply.rs         the battery
  wait.rs                 waiting for a condition, one event at a time
tests/                    tests of the library
app/                      the I/O around it
```
