//! The view types of the base family: bounded, borrowed windows over a
//! contiguous index range of the container's field columns, immutable and
//! mutable, exposing the container operations that do not resize.

use vstd::prelude::*;

use crate::perm::{is_perm, reorder};
use crate::refs::{Point, PointRef, PointRefMut};
use crate::vec::PointVec;
use crate::SoaError;

verus! {

/// Immutable view: one borrowed slice per field column, all over the same
/// index range of the owning container.
#[derive(Clone, Copy, Debug)]
pub struct PointSlice<'a> {
    pub x: &'a [u64],
    pub y: &'a [u64],
}

impl<'a> View for PointSlice<'a> {
    type V = Seq<Point>;

    /// The view abstracts to the sequence of records in its window.
    open spec fn view(&self) -> Seq<Point> {
        Seq::new(self.x@.len(), |i: int| Point { x: self.x@[i], y: self.y@[i] })
    }
}

impl<'a> PointSlice<'a> {
    /// The parallel-array invariant, one window down: both borrowed columns
    /// cover ranges of the same length.
    pub open spec fn wf(&self) -> bool {
        self.x@.len() == self.y@.len()
    }

    /// The number of records in the window.
    pub fn len(&self) -> (n: usize)
        ensures
            n == self@.len(),
    {
        self.x.len()
    }

    /// Whether the window holds no record.
    pub fn is_empty(&self) -> (b: bool)
        ensures
            b == (self@.len() == 0),
    {
        self.x.len() == 0
    }

    /// Borrows the record at position `i` of the window as a proxy, or
    /// reports it absent when `i` is out of range.
    pub fn get(&self, i: usize) -> (r: Option<PointRef<'a>>)
        requires
            self.wf(),
        ensures
            r is Some <==> i < self@.len(),
            r is Some ==> r->0.spec_read() == self@[i as int],
    {
        if i < self.x.len() {
            Some(PointRef { x: &self.x[i], y: &self.y[i] })
        } else {
            None
        }
    }

    /// Borrows the record at position `i` of the window without a bounds
    /// check: the caller guarantees `i` is in range.
    pub fn index(&self, i: usize) -> (r: PointRef<'a>)
        requires
            self.wf(),
            i < self@.len(),
        ensures
            r.spec_read() == self@[i as int],
    {
        PointRef { x: &self.x[i], y: &self.y[i] }
    }

    /// Borrows the first record of the window, or reports the window empty.
    pub fn first(&self) -> (r: Option<PointRef<'a>>)
        requires
            self.wf(),
        ensures
            r is Some <==> self@.len() > 0,
            r is Some ==> r->0.spec_read() == self@.first(),
    {
        self.get(0)
    }

    /// Borrows the last record of the window, or reports the window empty.
    pub fn last(&self) -> (r: Option<PointRef<'a>>)
        requires
            self.wf(),
        ensures
            r is Some <==> self@.len() > 0,
            r is Some ==> r->0.spec_read() == self@.last(),
    {
        if self.x.len() == 0 {
            None
        } else {
            self.get(self.x.len() - 1)
        }
    }

    /// Re-slices the window to `[lo, hi)` of its own range, rejecting bounds
    /// that do not lie within it.
    pub fn slice(&self, lo: usize, hi: usize) -> (r: Result<PointSlice<'a>, SoaError>)
        requires
            self.wf(),
        ensures
            lo <= hi <= self@.len() ==> (r matches Ok(s) && s.wf() && s@ == self@.subrange(
                lo as int,
                hi as int,
            )),
            !(lo <= hi <= self@.len()) ==> (r matches Err(e) && e == SoaError::OutOfRange),
    {
        if lo > hi || hi > self.x.len() {
            return Err(SoaError::OutOfRange);
        }
        let s = PointSlice { x: &self.x[lo..hi], y: &self.y[lo..hi] };
        proof {
            assert(s@ =~= self@.subrange(lo as int, hi as int));
        }
        Ok(s)
    }

    /// Copies the window out into a new owning container.
    pub fn to_vec(&self) -> (r: PointVec)
        requires
            self.wf(),
        ensures
            r.wf(),
            r@ == self@,
    {
        let mut xs: Vec<u64> = Vec::new();
        let mut ys: Vec<u64> = Vec::new();
        let mut i: usize = 0;
        while i < self.x.len()
            invariant
                i <= self.x@.len(),
                self.wf(),
                xs@ == self.x@.take(i as int),
                ys@ == self.y@.take(i as int),
            decreases self.x@.len() - i,
        {
            xs.push(self.x[i]);
            ys.push(self.y[i]);
            proof {
                assert(xs@ =~= self.x@.take(i + 1));
                assert(ys@ =~= self.y@.take(i + 1));
            }
            i = i + 1;
        }
        let r = PointVec { x: xs, y: ys };
        proof {
            assert(xs@ =~= self.x@);
            assert(ys@ =~= self.y@);
            assert(r@ =~= self@);
        }
        r
    }
}

/// Mutable view: a bounded window `[lo, hi)` over mutably borrowed field
/// columns. Reads and writes go through the window's bounds; positions
/// outside it are never touched.
pub struct PointSliceMut<'a> {
    pub x: &'a mut Vec<u64>,
    pub y: &'a mut Vec<u64>,
    pub lo: usize,
    pub hi: usize,
}

impl<'a> PointSliceMut<'a> {
    /// The window is within both columns and the columns run in parallel.
    pub open spec fn wf(&self) -> bool {
        self.lo <= self.hi <= self.x@.len() && self.x@.len() == self.y@.len()
    }

    /// The records visible through the window.
    pub open spec fn rows(&self) -> Seq<Point> {
        Seq::new(
            (self.hi - self.lo) as nat,
            |i: int| Point { x: self.x@[self.lo + i], y: self.y@[self.lo + i] },
        )
    }

    /// The number of records in the window.
    pub fn len(&self) -> (n: usize)
        requires
            self.lo <= self.hi,
        ensures
            n == self.hi - self.lo,
    {
        self.hi - self.lo
    }

    /// Reads the record at position `i` of the window, or reports it absent
    /// when `i` is out of range.
    pub fn get(&self, i: usize) -> (r: Option<Point>)
        requires
            old(self.x)@.len() == old(self.y)@.len(),
            self.lo <= self.hi <= old(self.x)@.len(),
        ensures
            r is Some <==> i < self.hi - self.lo,
            r is Some ==> r->0 == (Point {
                x: old(self.x)@[self.lo + i],
                y: old(self.y)@[self.lo + i],
            }),
    {
        if i < self.hi - self.lo {
            let j = self.lo + i;
            Some(Point { x: self.x[j], y: self.y[j] })
        } else {
            None
        }
    }

    /// Overwrites the record at position `i` of the window, consuming the
    /// view; nothing outside the window changes.
    pub fn set(self, i: usize, p: Point)
        requires
            old(self.x)@.len() == old(self.y)@.len(),
            self.lo <= self.hi <= old(self.x)@.len(),
            i < self.hi - self.lo,
        ensures
            final(self.x)@ == old(self.x)@.update(self.lo + i, p.x),
            final(self.y)@ == old(self.y)@.update(self.lo + i, p.y),
    {
        let PointSliceMut { x, y, lo, hi } = self;
        let j = lo + i;
        x.set(j, p.x);
        y.set(j, p.y);
    }

    /// Borrows the record at position `i` of the window as a mutable proxy,
    /// consuming the view; writing the proxy writes the columns at that
    /// position and nothing else.
    pub fn get_mut(self, i: usize) -> (r: PointRefMut<'a>)
        requires
            old(self.x)@.len() == old(self.y)@.len(),
            self.lo <= self.hi <= old(self.x)@.len(),
            i < self.hi - self.lo,
        ensures
            *r.x == old(self.x)@[self.lo + i],
            *r.y == old(self.y)@[self.lo + i],
            final(self.x)@ == old(self.x)@.update(self.lo + i, *final(r.x)),
            final(self.y)@ == old(self.y)@.update(self.lo + i, *final(r.y)),
    {
        let PointSliceMut { x, y, lo, hi } = self;
        let j = lo + i;
        PointRefMut { x: &mut x[j], y: &mut y[j] }
    }

    /// Sorts the records inside the window so that the given keys, parallel
    /// to the window, come out in non-decreasing order, consuming the view.
    /// Every position outside the window is left unchanged; the window
    /// afterwards holds the same records reordered by the returned
    /// permutation of the window's positions.
    pub fn sort_by_keys(self, keys: &Vec<u64>) -> (ix: Vec<usize>)
        requires
            old(self.x)@.len() == old(self.y)@.len(),
            self.lo <= self.hi <= old(self.x)@.len(),
            keys@.len() == self.hi - self.lo,
        ensures
            is_perm(ix@, self.hi - self.lo),
            final(self.x)@.len() == old(self.x)@.len(),
            final(self.y)@.len() == old(self.y)@.len(),
            forall|j: int|
                0 <= j < old(self.x)@.len() && !(self.lo <= j < self.hi) ==> final(self.x)@[j]
                    == old(self.x)@[j] && final(self.y)@[j] == old(self.y)@[j],
            forall|d: int|
                0 <= d < self.hi - self.lo ==> final(self.x)@[self.lo + d] == old(
                    self.x,
                )@[self.lo + ix@[d]] && final(self.y)@[self.lo + d] == old(self.y)@[self.lo + ix@[d]],
            forall|d1: int, d2: int|
                0 <= d1 < d2 < keys@.len() ==> keys@[ix@[d1] as int] <= keys@[ix@[d2] as int],
    {
        let PointSliceMut { x, y, lo, hi } = self;
        let ghost old_x = x@;
        let ghost old_y = y@;
        let mut window = PointVec { x: Vec::new(), y: Vec::new() };
        let mut i: usize = lo;
        while i < hi
            invariant
                lo <= i <= hi <= x@.len(),
                x@.len() == y@.len(),
                x@ == old_x,
                y@ == old_y,
                window.x@ == x@.subrange(lo as int, i as int),
                window.y@ == y@.subrange(lo as int, i as int),
            decreases hi - i,
        {
            window.x.push(x[i]);
            window.y.push(y[i]);
            proof {
                assert(window.x@ =~= x@.subrange(lo as int, i + 1));
                assert(window.y@ =~= y@.subrange(lo as int, i + 1));
            }
            i = i + 1;
        }
        let ix = window.sort_by_keys(keys);
        let mut d: usize = 0;
        while d < hi - lo
            invariant
                d <= hi - lo,
                lo <= hi <= x@.len(),
                x@.len() == y@.len(),
                x@.len() == old_x.len(),
                y@.len() == old_y.len(),
                window@.len() == hi - lo,
                window.wf(),
                forall|j: int|
                    0 <= j < old_x.len() && !(lo <= j < lo + d) ==> x@[j] == old_x[j] && y@[j]
                        == old_y[j],
                forall|k: int|
                    0 <= k < d ==> x@[lo + k] == window@[k].x && y@[lo + k] == window@[k].y,
            decreases hi - lo - d,
        {
            let j = lo + d;
            x.set(j, window.x[d]);
            y.set(j, window.y[d]);
            d = d + 1;
        }
        proof {
            assert(window@.len() == hi - lo);
            assert forall|dd: int| 0 <= dd < hi - lo implies x@[lo + dd] == old_x[lo + ix@[dd]]
                && y@[lo + dd] == old_y[lo + ix@[dd]] by {
                assert(window@[dd] == reorder(
                    Seq::new((hi - lo) as nat, |k: int| Point { x: old_x[lo + k], y: old_y[lo + k] }),
                    ix@,
                )[dd]);
            }
        }
        ix
    }
}

impl PointVec {
    /// Borrows the whole container as an immutable view.
    pub fn as_slice(&self) -> (r: PointSlice<'_>)
        requires
            self.wf(),
        ensures
            r.wf(),
            r@ == self@,
    {
        let r = PointSlice { x: self.x.as_slice(), y: self.y.as_slice() };
        proof {
            assert(r@ =~= self@);
        }
        r
    }

    /// Borrows the records in `[lo, hi)` as an immutable view, rejecting
    /// bounds that do not lie within the container.
    pub fn slice(&self, lo: usize, hi: usize) -> (r: Result<PointSlice<'_>, SoaError>)
        requires
            self.wf(),
        ensures
            lo <= hi <= self@.len() ==> (r matches Ok(s) && s.wf() && s@ == self@.subrange(
                lo as int,
                hi as int,
            )),
            !(lo <= hi <= self@.len()) ==> (r matches Err(e) && e == SoaError::OutOfRange),
    {
        let whole = self.as_slice();
        whole.slice(lo, hi)
    }

    /// Copies every record of a view to the end of `self`, column by
    /// column; the view is unchanged.
    pub fn extend_from_slice(&mut self, s: &PointSlice<'_>) -> (n: usize)
        requires
            old(self).wf(),
            s.wf(),
            old(self)@.len() + s@.len() <= usize::MAX,
        ensures
            final(self).wf(),
            final(self)@ == old(self)@ + s@,
            n == s@.len(),
    {
        let n = s.len();
        let mut i: usize = 0;
        while i < n
            invariant
                i <= n,
                n == s@.len(),
                s.wf(),
                self.wf(),
                self@ == old(self)@ + s@.take(i as int),
            decreases n - i,
        {
            let p = s.index(i);
            self.push(p.to_owned());
            proof {
                assert(self@ =~= old(self)@ + s@.take(i + 1));
            }
            i = i + 1;
        }
        proof {
            assert(self@ =~= old(self)@ + s@);
        }
        n
    }

    /// Borrows the records in `[lo, hi)` as a mutable view: the caller
    /// guarantees the bounds lie within the container.
    pub fn slice_mut(&mut self, lo: usize, hi: usize) -> (r: PointSliceMut<'_>)
        requires
            old(self).wf(),
            lo <= hi <= old(self)@.len(),
        ensures
            r.lo == lo,
            r.hi == hi,
            *r.x == old(self).x,
            *r.y == old(self).y,
            final(self).x == *final(r.x),
            final(self).y == *final(r.y),
    {
        PointSliceMut { x: &mut self.x, y: &mut self.y, lo, hi }
    }
}

} // verus!
