//! # Container module for motor types
use vstd::prelude::*;
use crate::device::Device;

pub mod dc_motor;
pub mod servo_motor;
pub mod tacho_motor;
mod large_motor;
mod medium_motor;

pub use self::dc_motor::DcMotor;
pub use self::large_motor::LargeMotor;
pub use self::medium_motor::MediumMotor;
pub use self::servo_motor::ServoMotor;
pub use self::tacho_motor::TachoMotor;
pub use crate::port::MotorPort;

verus! {

/// Motor trait
pub trait Motor: Device {

}

/// The list of state flags `states` holds `flag`.
pub open spec fn has_state_spec(states: Seq<Seq<char>>, flag: Seq<char>) -> bool {
    exists|i: int| 0 <= i < states.len() && states[i] == flag
}

/// Whether the state flags `states` hold `flag`.
pub fn has_state(states: &Vec<String>, flag: &str) -> (r: bool)
    ensures
        r == has_state_spec(states.deep_view(), flag@),
{
    let f = crate::text::to_chars(flag);
    let mut i: usize = 0;
    while i < states.len()
        invariant
            i <= states@.len(),
            f@ == flag@,
            forall|k: int| 0 <= k < i ==> states.deep_view()[k] != flag@,
        decreases states.len() - i,
    {
        let s = crate::text::to_chars(states[i].as_str());
        if crate::text::chars_equal(&s, &f) {
            assert(states.deep_view()[i as int] == flag@);
            return true;
        }
        i += 1;
    }
    false
}

/// The whole milliseconds of a duration of `nanos` nanoseconds, cut to an `i32`
/// as `as i32` cuts an integer.
pub open spec fn millis_i32(nanos: u128) -> i32 {
    ((nanos / 1_000_000) as u128) as i32
}

/// `millis_i32` of `nanos`.
pub fn nanos_to_millis_i32(nanos: u128) -> (r: i32)
    ensures
        r == millis_i32(nanos),
{
    #[verifier::truncate]
    ((nanos / 1_000_000) as i32)
}

} // verus!
