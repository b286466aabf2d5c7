//! Time source for the flush policy. The engine only ever compares two
//! readings of the same clock, so any monotone-enough millisecond counter
//! will do; callers that need determinism drive a `ManualClock`.

use vstd::prelude::*;

verus! {

/// A source of millisecond timestamps.
pub trait Clock {
    /// The current time in milliseconds. Nothing is assumed of the value:
    /// the flush policy is stated over whatever readings come back.
    fn now_ms(&mut self) -> u64;
}

/// A clock that only moves when told to; used by tests and simulations.
pub struct ManualClock {
    /// The reading the next `now_ms` call returns.
    pub ms: u64,
}

impl ManualClock {
    /// A clock stopped at the given reading.
    pub fn at(ms: u64) -> (r: ManualClock)
        ensures
            r.ms == ms,
    {
        ManualClock { ms }
    }

    /// Moves the clock forward by `delta` milliseconds, saturating at the
    /// largest representable reading.
    pub fn advance(&mut self, delta: u64)
        ensures
            final(self).ms == if old(self).ms + delta <= u64::MAX {
                (old(self).ms + delta) as u64
            } else {
                u64::MAX
            },
    {
        self.ms = if self.ms <= u64::MAX - delta {
            self.ms + delta
        } else {
            u64::MAX
        };
    }
}

impl Clock for ManualClock {
    fn now_ms(&mut self) -> u64 {
        self.ms
    }
}

} // verus!
