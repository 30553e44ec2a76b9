//! Loop time with millisecond precision.
use vstd::prelude::*;

verus! {

/// The largest representable time value.
pub const MAX_MILLIS: u64 = 0xffff_ffff_ffff_ffff;

/// `a + b`, clamped to the largest representable time.
pub open spec fn sat_add(a: nat, b: nat) -> nat {
    if a + b > MAX_MILLIS as nat {
        MAX_MILLIS as nat
    } else {
        a + b
    }
}

/// A point in the loop's monotonic time, counted in milliseconds.
///
/// The loop's clock starts at one, so `Time::zero()` is one millisecond.
#[derive(Clone, Copy, Debug, PartialEq, Eq, Structural)]
pub struct Time {
    pub ms: u64,
}

impl Time {
    /// The starting point of the loop's clock.
    pub fn zero() -> (r: Time)
        ensures
            r.ms == 1,
    {
        Time { ms: 1 }
    }

    pub fn from_millis(ms: u64) -> (r: Time)
        ensures
            r.ms == ms,
    {
        Time { ms }
    }

    /// This time moved forward by `ms` milliseconds; saturates at the
    /// largest representable time rather than wrapping.
    pub fn add_millis(self, ms: u64) -> (r: Time)
        ensures
            r.ms == sat_add(self.ms as nat, ms as nat),
    {
        Time { ms: self.ms.saturating_add(ms) }
    }

    /// Whether `self` is at or past `other`.
    pub fn reached(&self, other: &Time) -> (r: bool)
        ensures
            r == (self.ms >= other.ms),
    {
        self.ms >= other.ms
    }
}

} // verus!
