//! A two-part chain height: a revision number and a height within that
//! revision, ordered lexicographically. A real height always has
//! `revision_height >= 1`; zero is reserved as the "no height" sentinel on the
//! wire and is rejected by the constructor.

use vstd::prelude::*;

verus! {

/// Error returned when a height fails its invariant.
#[derive(Clone, Copy, Debug, PartialEq, Eq, Structural)]
pub enum HeightError {
    /// The revision height was zero.
    ZeroHeight,
}

/// A (revision_number, revision_height) pair, totally ordered
/// lexicographically. Arithmetic acts on `revision_height` only.
#[derive(Clone, Copy, Debug, PartialEq, Eq, Structural, Hash)]
pub struct Height {
    pub revision_number: u64,
    pub revision_height: u64,
}

impl Height {
    /// True of every height built by the public constructors.
    pub open spec fn well_formed(self) -> bool {
        self.revision_height >= 1
    }

    /// Strict lexicographic order on (revision_number, revision_height).
    pub open spec fn spec_lt(self, other: Height) -> bool {
        self.revision_number < other.revision_number
            || (self.revision_number == other.revision_number
                && self.revision_height < other.revision_height)
    }

    /// Non-strict lexicographic order.
    pub open spec fn spec_le(self, other: Height) -> bool {
        self.spec_lt(other) || self == other
    }

    /// Builds a height; rejects a zero revision height.
    pub fn new(revision_number: u64, revision_height: u64) -> (r: Result<Height, HeightError>)
        ensures
            revision_height >= 1 ==> r == Ok::<Height, HeightError>(Height {
                revision_number,
                revision_height,
            }),
            revision_height == 0 ==> r == Err::<Height, HeightError>(HeightError::ZeroHeight),
    {
        if revision_height == 0 {
            Err(HeightError::ZeroHeight)
        } else {
            Ok(Height { revision_number, revision_height })
        }
    }

    /// The least well-formed height of a revision.
    pub fn min(revision_number: u64) -> (r: Height)
        ensures
            r == (Height { revision_number, revision_height: 1 }),
    {
        Height { revision_number, revision_height: 1 }
    }

    pub fn revision_number(&self) -> (r: u64)
        ensures
            r == self.revision_number,
    {
        self.revision_number
    }

    pub fn revision_height(&self) -> (r: u64)
        ensures
            r == self.revision_height,
    {
        self.revision_height
    }

    /// The next height in the same revision.
    pub fn increment(&self) -> (r: Height)
        requires
            self.revision_height < u64::MAX,
        ensures
            r.revision_number == self.revision_number,
            r.revision_height == self.revision_height + 1,
            self.spec_lt(r),
    {
        Height {
            revision_number: self.revision_number,
            revision_height: self.revision_height + 1,
        }
    }

    /// Subtracts `delta` from the revision height; `None` when the result
    /// would leave the well-formed range.
    pub fn sub(&self, delta: u64) -> (r: Option<Height>)
        ensures
            self.revision_height > delta ==> r == Some(Height {
                revision_number: self.revision_number,
                revision_height: (self.revision_height - delta) as u64,
            }),
            self.revision_height <= delta ==> r is None,
    {
        if self.revision_height > delta {
            Some(Height {
                revision_number: self.revision_number,
                revision_height: self.revision_height - delta,
            })
        } else {
            None
        }
    }

    /// Strict lexicographic comparison.
    pub fn lt(&self, other: &Height) -> (r: bool)
        ensures
            r == self.spec_lt(*other),
    {
        self.revision_number < other.revision_number
            || (self.revision_number == other.revision_number
                && self.revision_height < other.revision_height)
    }

    /// Non-strict lexicographic comparison.
    pub fn le(&self, other: &Height) -> (r: bool)
        ensures
            r == self.spec_le(*other),
    {
        self.lt(other) || (self.revision_number == other.revision_number
            && self.revision_height == other.revision_height)
    }

    /// Structural equality as an explicit method.
    pub fn eq_height(&self, other: &Height) -> (r: bool)
        ensures
            r == (*self == *other),
    {
        self.revision_number == other.revision_number
            && self.revision_height == other.revision_height
    }
}

/// The lexicographic order is total: of two heights, one is `<=` the other.
pub proof fn lemma_height_order_total(a: Height, b: Height)
    ensures
        a.spec_le(b) || b.spec_le(a),
        a.spec_le(b) && b.spec_le(a) ==> a == b,
{
}

} // verus!
