//! Block timestamps as nanoseconds since the Unix epoch. The core never reads
//! a wall clock: every timestamp is supplied by the host as part of a block or
//! header, so determinism across validating nodes is preserved.

use vstd::prelude::*;

verus! {

/// A point in time, in nanoseconds since the Unix epoch.
#[derive(Clone, Copy, Debug, PartialEq, Eq, Structural, Hash)]
pub struct Timestamp {
    pub nanoseconds: u64,
}

impl Timestamp {
    pub fn from_nanoseconds(nanoseconds: u64) -> (r: Timestamp)
        ensures
            r.nanoseconds == nanoseconds,
    {
        Timestamp { nanoseconds }
    }

    pub fn nanoseconds(&self) -> (r: u64)
        ensures
            r == self.nanoseconds,
    {
        self.nanoseconds
    }

    /// True when `self` is strictly later than `other`.
    pub fn after(&self, other: &Timestamp) -> (r: bool)
        ensures
            r == (self.nanoseconds > other.nanoseconds),
    {
        self.nanoseconds > other.nanoseconds
    }

    /// Advances the timestamp by a duration in nanoseconds; `None` on
    /// overflow of the underlying counter.
    pub fn plus_nanoseconds(&self, delta: u64) -> (r: Option<Timestamp>)
        ensures
            self.nanoseconds + delta <= u64::MAX ==> r == Some(Timestamp {
                nanoseconds: (self.nanoseconds + delta) as u64,
            }),
            self.nanoseconds + delta > u64::MAX ==> r is None,
    {
        match self.nanoseconds.checked_add(delta) {
            Some(n) => Some(Timestamp { nanoseconds: n }),
            None => None,
        }
    }
}

} // verus!
