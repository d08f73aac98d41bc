//! Waiting until a condition holds or a timeout passes, the condition being checked each time a
//! file changes: the decisions of the wait, one event at a time.
use vstd::prelude::*;
use crate::motors::{millis_i32, nanos_to_millis_i32};

verus! {

/// What the waiting side does next.
#[derive(Debug, Clone, Copy, PartialEq, Eq)]
pub enum WaitAction {
    /// Wait for a change of the file, for at most this many milliseconds (`-1`: no limit),
    /// then report how long the wait has lasted since it started.
    WaitForChange(i32),
    /// Check the condition again and report it.
    CheckCondition,
    /// The wait is over: `true` if the condition became true, `false` if the timeout passed.
    Finish(bool),
}

/// The state of a wait with an optional timeout, in nanoseconds.
#[derive(Debug, Clone, Copy)]
pub struct Waiter {
    /// The timeout of the whole wait, if any.
    pub timeout: Option<u128>,
    /// The part of the timeout that is left, if there is a timeout.
    pub remaining: Option<u128>,
}

/// The limit of the next wait for a change: the whole milliseconds left, or `-1` for none.
pub open spec fn poll_limit(remaining: Option<u128>) -> i32 {
    match remaining {
        Some(nanos) => millis_i32(nanos),
        None => -1i32,
    }
}

impl Waiter {
    /// A wait with the given timeout, in nanoseconds; without one, it waits for ever.
    pub fn new(timeout: Option<u128>) -> (w: Waiter)
        ensures
            w.timeout == timeout,
            w.remaining == timeout,
    {
        Waiter { timeout, remaining: timeout }
    }

    /// The condition was checked: the wait is over if it holds, else the file is watched until it
    /// changes or the time left passes.
    pub fn on_condition(&mut self, holds: bool) -> (a: WaitAction)
        ensures
            *final(self) == *old(self),
            holds ==> a == WaitAction::Finish(true),
            !holds ==> a == WaitAction::WaitForChange(poll_limit(old(self).remaining)),
    {
        if holds {
            WaitAction::Finish(true)
        } else {
            match self.remaining {
                Some(nanos) => WaitAction::WaitForChange(nanos_to_millis_i32(nanos)),
                None => WaitAction::WaitForChange(-1),
            }
        }
    }

    /// The file changed or the wait for it ended, `elapsed` nanoseconds after the wait started:
    /// the wait fails if the timeout has passed, else the condition is checked again with the time
    /// left updated.
    pub fn on_change(&mut self, elapsed: u128) -> (a: WaitAction)
        ensures
            final(self).timeout == old(self).timeout,
            match old(self).timeout {
                Some(d) => if elapsed >= d {
                    a == WaitAction::Finish(false) && final(self).remaining == old(self).remaining
                } else {
                    a == WaitAction::CheckCondition && final(self).remaining == Some((d - elapsed) as u128)
                },
                None => a == WaitAction::CheckCondition && final(self).remaining == old(self).remaining,
            },
    {
        match self.timeout {
            Some(d) => {
                if elapsed >= d {
                    WaitAction::Finish(false)
                } else {
                    self.remaining = Some(d - elapsed);
                    WaitAction::CheckCondition
                }
            },
            None => WaitAction::CheckCondition,
        }
    }
}

} // verus!
