//! Whole-nanosecond time values.
use vstd::prelude::*;

verus! {

/// The longest representable [`Duration`], in nanoseconds: `u64::MAX` seconds
/// and 999,999,999 nanoseconds.
pub const MAX_NANOS: u128 = 18446744073709551615999999999;

/// A span of time.
#[derive(Clone, Copy, PartialEq, Eq, Structural, Debug)]
pub struct Duration {
    pub nanos: u128,
}

/// A point on the clock of the running program.
#[derive(Clone, Copy, PartialEq, Eq, Structural, Debug)]
pub struct Instant {
    pub nanos: u128,
}

pub open spec fn longer(a: Duration, b: Duration) -> Duration {
    if a.nanos >= b.nanos {
        a
    } else {
        b
    }
}

impl Duration {
    pub fn zero() -> (d: Duration)
        ensures
            d.nanos == 0,
    {
        Duration { nanos: 0 }
    }

    pub fn from_secs(secs: u64) -> (d: Duration)
        ensures
            d.nanos == secs * 1_000_000_000,
            d.nanos <= MAX_NANOS,
    {
        Duration { nanos: secs as u128 * 1_000_000_000 }
    }

    pub fn from_millis(millis: u64) -> (d: Duration)
        ensures
            d.nanos == millis * 1_000_000,
            d.nanos <= MAX_NANOS,
    {
        Duration { nanos: millis as u128 * 1_000_000 }
    }

    /// The longer of two spans.
    pub fn max(self, other: Duration) -> (d: Duration)
        ensures
            d == longer(self, other),
    {
        if self.nanos >= other.nanos {
            self
        } else {
            other
        }
    }

    /// The sum of two spans.
    pub fn plus(self, other: Duration) -> (d: Duration)
        requires
            self.nanos + other.nanos <= MAX_NANOS,
        ensures
            d.nanos == self.nanos + other.nanos,
    {
        Duration { nanos: self.nanos + other.nanos }
    }
}

/// How far `now` lies past `earlier`, zero if it does not.
pub open spec fn elapsed(now: Instant, earlier: Instant) -> Duration {
    Duration {
        nanos: if now.nanos >= earlier.nanos {
            (now.nanos - earlier.nanos) as u128
        } else {
            0
        },
    }
}

/// The instant `by` after `at`, stopping at the end of the clock.
pub open spec fn later(at: Instant, by: Duration) -> Instant {
    Instant {
        nanos: if at.nanos + by.nanos <= u128::MAX {
            (at.nanos + by.nanos) as u128
        } else {
            u128::MAX
        },
    }
}

impl Instant {
    pub fn since(self, earlier: Instant) -> (d: Duration)
        ensures
            d == elapsed(self, earlier),
    {
        if self.nanos >= earlier.nanos {
            Duration { nanos: self.nanos - earlier.nanos }
        } else {
            Duration { nanos: 0 }
        }
    }

    pub fn after(self, by: Duration) -> (at: Instant)
        ensures
            at == later(self, by),
    {
        if by.nanos <= u128::MAX - self.nanos {
            Instant { nanos: self.nanos + by.nanos }
        } else {
            Instant { nanos: u128::MAX }
        }
    }
}

} // verus!
