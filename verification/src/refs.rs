//! The record type of the base family and its structural proxies: a record
//! made of borrowed references into the parallel columns at one index, in
//! schema field order, immutable and mutable.

use vstd::prelude::*;

verus! {

/// The base record: two scalar fields, stored column-major by `PointVec`.
#[derive(Clone, Copy, PartialEq, Eq, Structural, Debug)]
pub struct Point {
    pub x: u64,
    pub y: u64,
}

/// Immutable proxy: a record-shaped value whose fields borrow the columns of
/// a container or view at one index. Built on demand, never stored.
#[derive(Clone, Copy)]
pub struct PointRef<'a> {
    pub x: &'a u64,
    pub y: &'a u64,
}

impl<'a> PointRef<'a> {
    /// The record value this proxy denotes.
    pub open spec fn spec_read(&self) -> Point {
        Point { x: *self.x, y: *self.y }
    }

    /// Copies the proxied fields back out into an owned record.
    pub fn to_owned(&self) -> (p: Point)
        ensures
            p == self.spec_read(),
    {
        Point { x: *self.x, y: *self.y }
    }
}

/// Mutable proxy: a record-shaped value whose fields borrow the columns
/// mutably at one index. Writing through its fields writes the container's
/// columns; exclusivity is enforced by the borrow it holds.
pub struct PointRefMut<'a> {
    pub x: &'a mut u64,
    pub y: &'a mut u64,
}

impl<'a> PointRefMut<'a> {
    /// Overwrites the record behind the proxy with `p`, consuming the proxy.
    pub fn write(self, p: Point)
        ensures
            *final(self.x) == p.x,
            *final(self.y) == p.y,
    {
        let PointRefMut { x, y } = self;
        *x = p.x;
        *y = p.y;
    }

    /// Reads the record currently behind the proxy without writing anything.
    pub fn read(&self) -> (p: Point)
        ensures
            p.x == *old(self.x) && p.y == *old(self.y),
    {
        Point { x: *self.x, y: *self.y }
    }
}

} // verus!
