//! The periodic tick source's configuration.
//!
//! The presentation layer subscribes to a stream that fires every
//! `MILLIS_PER_SECOND / FRAMES_PER_SECOND` milliseconds; the subscription is
//! identified by its interval alone.

use vstd::prelude::*;

verus! {

/// Ticks per second of the periodic source.
pub const FRAMES_PER_SECOND: u64 = 30;

/// Milliseconds in one second.
pub const MILLIS_PER_SECOND: u64 = 1000;

/// A periodic tick source firing once per `duration_millis` milliseconds.
#[derive(Debug, Clone, Copy, PartialEq, Eq, Structural)]
pub struct Timer {
    /// The interval between ticks, in milliseconds.
    pub duration_millis: u64,
}

impl Timer {
    /// A tick source with the given interval.
    pub fn new(duration_millis: u64) -> (t: Timer)
        ensures
            t.duration_millis == duration_millis,
    {
        Timer { duration_millis }
    }
}

/// The interval, in milliseconds, at which the stopwatch display refreshes.
pub fn tick_interval_millis() -> (r: u64)
    ensures
        r == MILLIS_PER_SECOND / FRAMES_PER_SECOND,
{
    MILLIS_PER_SECOND / FRAMES_PER_SECOND
}

} // verus!
