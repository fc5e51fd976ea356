//! Instants, durations and one-shot timers as plain integers.

use vstd::prelude::*;

verus! {

/// Nanoseconds in one millisecond.
pub const NANOS_PER_MILLI: u64 = 1_000_000;

/// Nanoseconds in one second.
pub const NANOS_PER_SEC: u64 = 1_000_000_000;

/// The time from `earlier` to `later`, zero where `later` is not after `earlier`.
pub open spec fn elapsed_between(earlier: u64, later: u64) -> int {
    if later >= earlier {
        later - earlier
    } else {
        0
    }
}

/// The time that has passed at `now` since `since`, zero if `now` lies before it.
pub fn elapsed_since(since: u64, now: u64) -> (elapsed: u64)
    ensures
        elapsed == elapsed_between(since, now),
{
    if now >= since {
        now - since
    } else {
        0
    }
}

/// `value` limited to the range from `low` to `high`.
pub open spec fn clamp_between(value: int, low: int, high: int) -> int {
    if value < low {
        low
    } else if value > high {
        high
    } else {
        value
    }
}

/// The smaller of two durations.
pub open spec fn min_of(a: int, b: int) -> int {
    if a <= b {
        a
    } else {
        b
    }
}

/// A one-shot timer: it fires once the clock reaches its deadline.
#[derive(Debug, Clone, Copy, PartialEq, Eq, Structural)]
pub struct Timer {
    /// The instant at which the timer fires, in nanoseconds.
    pub deadline: u128,
}

impl Timer {
    /// Whether the timer has fired at `now`.
    pub open spec fn fired_at(self, now: u64) -> bool {
        now >= self.deadline
    }

    /// A timer armed at `now` that fires `nanos` nanoseconds later.
    pub fn after_nanos(now: u64, nanos: u64) -> (timer: Timer)
        ensures
            timer.deadline == now + nanos,
    {
        Timer { deadline: now as u128 + nanos as u128 }
    }

    /// A timer armed at `now` that fires `millis` milliseconds later.
    pub fn after_millis(now: u64, millis: u64) -> (timer: Timer)
        ensures
            timer.deadline == now + millis * NANOS_PER_MILLI,
    {
        assert(millis * NANOS_PER_MILLI <= u64::MAX * NANOS_PER_MILLI) by (nonlinear_arith)
            requires
                millis <= u64::MAX,
        ;
        Timer { deadline: now as u128 + millis as u128 * (NANOS_PER_MILLI as u128) }
    }

    /// Polls the timer without waiting.
    pub fn is_expired(&self, now: u64) -> (expired: bool)
        ensures
            expired == self.fired_at(now),
    {
        now as u128 >= self.deadline
    }
}

} // verus!
