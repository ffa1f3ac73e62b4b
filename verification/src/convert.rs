//! Conversion of durations into the native timer's time representation.
//!
//! The native facility counts time in ticks of 100 nanoseconds. A due time
//! handed to the arm primitive is a signed tick count whose sign selects the
//! convention: negative means relative to now, positive would mean an
//! absolute point in time. Repeat periods are given in whole milliseconds.

use vstd::prelude::*;

verus! {

/// Number of 100-nanosecond ticks in one second.
pub const TICKS_PER_SECOND: u64 = 10_000_000;

/// Number of 100-nanosecond ticks in one millisecond.
pub const TICKS_PER_MILLISECOND: u64 = 10_000;

/// Number of nanoseconds in one second.
pub const NANOS_PER_SECOND: u32 = 1_000_000_000;

/// Number of nanoseconds in one tick.
pub const NANOS_PER_TICK: u32 = 100;

/// A span of time, held as whole seconds plus a sub-second remainder in
/// nanoseconds. The remainder is always below one second.
#[derive(Clone, Copy, PartialEq, Eq, Structural, Debug)]
pub struct Duration {
    secs: u64,
    nanos: u32,
}

impl Duration {
    /// The whole-second part of the duration.
    pub closed spec fn secs(self) -> u64 {
        self.secs
    }

    /// The sub-second remainder of the duration, in nanoseconds.
    pub closed spec fn subsec_nanos(self) -> u32 {
        self.nanos
    }

    /// The sub-second remainder stays below one second.
    pub open spec fn wf(self) -> bool {
        self.subsec_nanos() < NANOS_PER_SECOND
    }

    /// The duration measured in whole native ticks. Precision below one tick
    /// (100 nanoseconds) truncates; it does not round.
    pub open spec fn ticks(self) -> int {
        self.secs() * TICKS_PER_SECOND + self.subsec_nanos() / NANOS_PER_TICK
    }

    /// Builds a duration from whole seconds and a sub-second remainder.
    pub fn new(secs: u64, nanos: u32) -> (d: Duration)
        requires
            nanos < NANOS_PER_SECOND,
        ensures
            d.secs() == secs,
            d.subsec_nanos() == nanos,
            d.wf(),
    {
        Duration { secs, nanos }
    }

    /// Builds a duration from a whole number of milliseconds.
    pub fn from_millis(millis: u64) -> (d: Duration)
        ensures
            d.wf(),
            d.ticks() == millis * TICKS_PER_MILLISECOND,
    {
        let secs: u64 = millis / 1000;
        let nanos: u32 = ((millis % 1000) as u32) * 1_000_000;
        Duration { secs, nanos }
    }
}

/// Converts a duration into the signed tick count that arms the native timer
/// relative to now: the tick count of the duration, negated. A zero duration
/// yields zero, a due time that has already passed, so the timer fires at the
/// next opportunity.
pub fn to_relative_ticks(d: &Duration) -> (t: i64)
    requires
        d.wf(),
        d.ticks() <= i64::MAX,
    ensures
        t == -d.ticks(),
{
    let sub_ticks: u64 = (d.nanos / NANOS_PER_TICK) as u64;
    let whole_ticks: u64 = d.secs * TICKS_PER_SECOND;
    let total: i64 = (whole_ticks + sub_ticks) as i64;
    -total
}

/// Converts a duration into the repeat period, in whole milliseconds, that
/// the native timer takes for a periodic arm: the tick count divided by the
/// ticks in one millisecond.
pub fn to_repeat_period_millis(d: &Duration) -> (m: u32)
    requires
        d.wf(),
        d.ticks() / (TICKS_PER_MILLISECOND as int) <= u32::MAX,
    ensures
        m == d.ticks() / (TICKS_PER_MILLISECOND as int),
{
    let sub_ticks: u64 = (d.nanos / NANOS_PER_TICK) as u64;
    let whole_ticks: u64 = d.secs * TICKS_PER_SECOND;
    let millis: u64 = (whole_ticks + sub_ticks) / TICKS_PER_MILLISECOND;
    millis as u32
}

/// Nominal number of fire events a periodic timer delivers over an
/// observation window: the window divided by the repeat period, truncated.
pub fn expected_fire_count(window_millis: u64, period_millis: u32) -> (n: u64)
    requires
        period_millis > 0,
    ensures
        n == window_millis as int / period_millis as int,
{
    window_millis / (period_millis as u64)
}

} // verus!
