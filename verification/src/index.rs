//! The indexing engine: one value standing for any of the standard range
//! shapes, resolved against a container's current length into a concrete
//! window, with a checked entry point that rejects invalid ranges.

use vstd::prelude::*;

use crate::slice::PointSlice;
use crate::vec::PointVec;
use crate::SoaError;

verus! {

/// One of the standard range shapes over positions: closed-open, open at
/// the low end, open at the high end, full, and the two inclusive-high
/// forms.
#[derive(Clone, Copy, PartialEq, Eq, Structural, Debug)]
pub enum SoaRange {
    /// `lo..hi`
    Span { lo: usize, hi: usize },
    /// `..hi`
    UpTo { hi: usize },
    /// `lo..`
    From { lo: usize },
    /// `..`
    Full,
    /// `lo..=hi`
    SpanInclusive { lo: usize, hi: usize },
    /// `..=hi`
    UpToInclusive { hi: usize },
}

impl SoaRange {
    /// The window `[lo, hi)` this shape denotes against length `n`, or
    /// nothing when the shape is invalid there: a start after its end, or an
    /// end beyond `n`.
    pub open spec fn resolved(self, n: int) -> Option<(int, int)> {
        match self {
            SoaRange::Span { lo, hi } => if lo <= hi <= n {
                Some((lo as int, hi as int))
            } else {
                None
            },
            SoaRange::UpTo { hi } => if hi <= n {
                Some((0int, hi as int))
            } else {
                None
            },
            SoaRange::From { lo } => if lo <= n {
                Some((lo as int, n))
            } else {
                None
            },
            SoaRange::Full => Some((0int, n)),
            SoaRange::SpanInclusive { lo, hi } => if lo <= hi + 1 <= n {
                Some((lo as int, hi + 1))
            } else {
                None
            },
            SoaRange::UpToInclusive { hi } => if hi + 1 <= n {
                Some((0int, hi + 1))
            } else {
                None
            },
        }
    }

    /// Resolves the shape against length `n`, reporting an invalid shape as
    /// absent.
    pub fn resolve(self, n: usize) -> (r: Option<(usize, usize)>)
        ensures
            r is Some <==> self.resolved(n as int) is Some,
            r matches Some(w) ==> self.resolved(n as int) == Some((w.0 as int, w.1 as int)),
    {
        match self {
            SoaRange::Span { lo, hi } => if lo <= hi && hi <= n {
                Some((lo, hi))
            } else {
                None
            },
            SoaRange::UpTo { hi } => if hi <= n {
                Some((0, hi))
            } else {
                None
            },
            SoaRange::From { lo } => if lo <= n {
                Some((lo, n))
            } else {
                None
            },
            SoaRange::Full => Some((0, n)),
            SoaRange::SpanInclusive { lo, hi } => if hi < n && lo <= hi + 1 {
                Some((lo, hi + 1))
            } else {
                None
            },
            SoaRange::UpToInclusive { hi } => if hi < n {
                Some((0, hi + 1))
            } else {
                None
            },
        }
    }
}

impl PointVec {
    /// Borrows the window a range shape denotes as an immutable view,
    /// failing with an out-of-range condition on a shape that is invalid
    /// against the current length.
    pub fn slice_range(&self, range: SoaRange) -> (r: Result<PointSlice<'_>, SoaError>)
        requires
            self.wf(),
        ensures
            range.resolved(self@.len() as int) matches Some(w) ==> (r matches Ok(s) && s.wf() && s@
                == self@.subrange(w.0, w.1)),
            range.resolved(self@.len() as int) is None ==> (r matches Err(e) && e
                == SoaError::OutOfRange),
    {
        match range.resolve(self.len()) {
            Some((lo, hi)) => self.slice(lo, hi),
            None => Err(SoaError::OutOfRange),
        }
    }
}

} // verus!
