//! Durations and clock readings, in whole nanoseconds.

use vstd::prelude::*;

verus! {

/// The longest span that a system duration can hold, in nanoseconds:
/// `u64::MAX` seconds and `999_999_999` nanoseconds.
pub const MAX_NANOS: u128 = 18_446_744_073_709_551_615_999_999_999;

/// A span of time.
#[derive(Debug, Clone, Copy, PartialEq, Eq, Structural)]
pub struct Duration {
    pub nanos: u128,
}

/// A reading of a monotonic clock, counted from an arbitrary start.
#[derive(Debug, Clone, Copy, PartialEq, Eq, Structural)]
pub struct Instant {
    pub nanos: u128,
}

impl Duration {
    /// A span that a system duration can hold.
    pub open spec fn wf(self) -> bool {
        self.nanos <= MAX_NANOS
    }

    /// `ms` milliseconds.
    pub open spec fn millis(ms: int) -> Duration {
        Duration { nanos: (ms * 1_000_000) as u128 }
    }

    /// A span of `ms` milliseconds.
    pub fn from_millis(ms: u64) -> (r: Self)
        ensures
            r == Self::millis(ms as int),
            r.wf(),
            r.nanos == ms * 1_000_000,
    {
        Duration { nanos: ms as u128 * 1_000_000 }
    }

    /// Whether the span is empty.
    pub fn is_zero(self) -> (r: bool)
        ensures
            r == (self.nanos == 0),
    {
        self.nanos == 0
    }

    /// The whole milliseconds of the span.
    pub fn as_millis(self) -> (r: u128)
        ensures
            r == self.nanos as int / 1_000_000,
    {
        self.nanos / 1_000_000
    }
}

impl Instant {
    /// The time from `earlier` to `self`; empty if `earlier` is the later one.
    pub open spec fn since(self, earlier: Instant) -> Duration {
        if self.nanos >= earlier.nanos {
            Duration { nanos: (self.nanos - earlier.nanos) as u128 }
        } else {
            Duration { nanos: 0 }
        }
    }

    /// The time from `earlier` to `self`; empty if `earlier` is the later one.
    pub fn saturating_duration_since(self, earlier: Instant) -> (r: Duration)
        ensures
            r == self.since(earlier),
    {
        if self.nanos >= earlier.nanos {
            Duration { nanos: self.nanos - earlier.nanos }
        } else {
            Duration { nanos: 0 }
        }
    }
}

/// The time since an earlier reading, added to that reading, gives the later
/// one; since a later reading there is none.
pub proof fn time_since_adds_up(now: Instant, earlier: Instant, ms: u64)
    ensures
        earlier.nanos <= now.nanos ==> earlier.nanos + now.since(earlier).nanos == now.nanos,
        now.nanos <= earlier.nanos ==> now.since(earlier).nanos == 0,
        Duration::millis(ms as int).nanos == 1_000_000 * ms,
{
}

} // verus!
