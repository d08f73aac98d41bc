//! Verified core of a driver library for ev3dev-based LEGO MINDSTORMS EV3 bricks.
use vstd::prelude::*;

pub mod text;
pub mod number;
pub mod error;
pub mod attribute;
pub mod port;
pub mod driver;
pub mod device;
pub mod motors;
pub mod sensors;
pub mod led;
pub mod sound;
pub mod buttons;
pub mod power_supply;
pub mod wait;

verus! {

} // verus!
