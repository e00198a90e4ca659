//! The handle types of the base family: lightweight multi-field cursors,
//! one element position per field, advanced in lockstep and dereferenced
//! into a proxy without a runtime bounds check — the caller guarantees the
//! position is in range.

use vstd::prelude::*;

use crate::refs::{PointRef, PointRefMut};
use crate::vec::PointVec;

verus! {

/// Immutable handle: one per-field element position. All positions name the
/// same logical index; `wf` is that lockstep invariant.
#[derive(Clone, Copy, PartialEq, Eq, Structural, Debug)]
pub struct PointPtr {
    pub x_at: usize,
    pub y_at: usize,
}

impl PointPtr {
    /// Every per-field position names the same logical index.
    pub open spec fn wf(&self) -> bool {
        self.x_at == self.y_at
    }

    /// A handle at logical index `i`.
    pub fn new_at(i: usize) -> (r: Self)
        ensures
            r.wf(),
            r.x_at == i,
    {
        PointPtr { x_at: i, y_at: i }
    }

    /// Advances every per-field position by `k`, in lockstep.
    pub fn advance(self, k: usize) -> (r: Self)
        requires
            self.wf(),
            self.x_at + k <= usize::MAX,
        ensures
            r.wf(),
            r.x_at == self.x_at + k,
    {
        PointPtr { x_at: self.x_at + k, y_at: self.y_at + k }
    }

    /// Dereferences the handle into a proxy without a bounds check: the
    /// caller guarantees the position is in range of `v`.
    pub fn deref<'a>(&self, v: &'a PointVec) -> (r: PointRef<'a>)
        requires
            self.wf(),
            v.wf(),
            self.x_at < v@.len(),
        ensures
            r.spec_read() == v@[self.x_at as int],
    {
        v.index(self.x_at)
    }

    /// Whether this handle points strictly before `other`; meaningful for
    /// handles of the same container.
    pub fn precedes(&self, other: &PointPtr) -> (b: bool)
        requires
            self.wf(),
            other.wf(),
        ensures
            b == (self.x_at < other.x_at),
    {
        self.x_at < other.x_at
    }
}

/// Mutable handle: the same lockstep cursor, dereferenced into a mutable
/// proxy.
#[derive(Clone, Copy, PartialEq, Eq, Structural, Debug)]
pub struct PointPtrMut {
    pub x_at: usize,
    pub y_at: usize,
}

impl PointPtrMut {
    /// Every per-field position names the same logical index.
    pub open spec fn wf(&self) -> bool {
        self.x_at == self.y_at
    }

    /// A mutable handle at logical index `i`.
    pub fn new_at(i: usize) -> (r: Self)
        ensures
            r.wf(),
            r.x_at == i,
    {
        PointPtrMut { x_at: i, y_at: i }
    }

    /// Advances every per-field position by `k`, in lockstep.
    pub fn advance(self, k: usize) -> (r: Self)
        requires
            self.wf(),
            self.x_at + k <= usize::MAX,
        ensures
            r.wf(),
            r.x_at == self.x_at + k,
    {
        PointPtrMut { x_at: self.x_at + k, y_at: self.y_at + k }
    }

    /// Dereferences the handle into a mutable proxy without a bounds check:
    /// the caller guarantees the position is in range of `v`.
    pub fn deref_mut<'a>(&self, v: &'a mut PointVec) -> (r: PointRefMut<'a>)
        requires
            self.wf(),
            old(v).wf(),
            self.x_at < old(v)@.len(),
        ensures
            *r.x == old(v)@[self.x_at as int].x,
            *r.y == old(v)@[self.x_at as int].y,
            final(v).wf(),
            final(v)@ == old(v)@.update(
                self.x_at as int,
                crate::refs::Point { x: *final(r.x), y: *final(r.y) },
            ),
    {
        v.index_mut(self.x_at)
    }
}

impl PointVec {
    /// A handle at the container's first position.
    pub fn as_ptr(&self) -> (r: PointPtr)
        ensures
            r.wf(),
            r.x_at == 0,
    {
        PointPtr::new_at(0)
    }

    /// A mutable handle at the container's first position.
    pub fn as_mut_ptr(&mut self) -> (r: PointPtrMut)
        ensures
            r.wf(),
            r.x_at == 0,
            final(self)@ == old(self)@,
            final(self).wf() == old(self).wf(),
    {
        PointPtrMut::new_at(0)
    }
}

impl<'a> crate::slice::PointSlice<'a> {
    /// A handle at the view's first position.
    pub fn as_ptr(&self) -> (r: PointPtr)
        ensures
            r.wf(),
            r.x_at == 0,
    {
        PointPtr::new_at(0)
    }
}

} // verus!
