//! The owning container of the base family: one growable array per field of
//! the record, every operation applied in lockstep across all field columns
//! so that their lengths always agree.

use vstd::prelude::*;

use crate::perm::{
    check_perm, gather_u64, is_perm, perm_to_indices, reorder, sort_perm_asc, sort_perm_desc,
};
use crate::refs::{Point, PointRef, PointRefMut};
use crate::SoaError;

verus! {

/// Relies on `Vec::capacity`: the number of elements the vector can hold
/// without reallocating, never below its current length.
#[verifier::external_body]
pub(crate) fn vec_capacity<T>(v: &Vec<T>) -> (c: usize)
    ensures
        c >= v@.len(),
{
    v.capacity()
}

/// Relies on `Vec::reserve_exact`: grows capacity, leaving the contents
/// unchanged.
#[verifier::external_body]
fn vec_reserve_exact<T>(v: &mut Vec<T>, additional: usize)
    ensures
        final(v)@ == old(v)@,
{
    v.reserve_exact(additional)
}

/// Relies on `Vec::shrink_to_fit`: may drop excess capacity, leaving the
/// contents unchanged.
#[verifier::external_body]
fn vec_shrink_to_fit<T>(v: &mut Vec<T>)
    ensures
        final(v)@ == old(v)@,
{
    v.shrink_to_fit()
}

/// Copies a column of scalars.
pub(crate) fn copy_u64_col(v: &Vec<u64>) -> (r: Vec<u64>)
    ensures
        r@ == v@,
{
    let mut r: Vec<u64> = Vec::new();
    let mut i: usize = 0;
    while i < v.len()
        invariant
            i <= v@.len(),
            r@ == v@.take(i as int),
        decreases v@.len() - i,
    {
        r.push(v[i]);
        proof {
            assert(r@ =~= v@.take(i + 1));
        }
        i = i + 1;
    }
    proof {
        assert(r@ =~= v@);
    }
    r
}

/// The owning, resizable struct-of-arrays container for `Point` records:
/// one column per field, in schema field order. A record at index `i` is
/// spread over `x[i]` and `y[i]`.
#[derive(Debug)]
pub struct PointVec {
    pub x: Vec<u64>,
    pub y: Vec<u64>,
}

impl View for PointVec {
    type V = Seq<Point>;

    /// The container abstracts to the sequence of records it stores.
    open spec fn view(&self) -> Seq<Point> {
        Seq::new(self.x@.len(), |i: int| Point { x: self.x@[i], y: self.y@[i] })
    }
}

impl PointVec {
    /// The parallel-array invariant: every field column has the same length.
    pub open spec fn wf(&self) -> bool {
        self.x@.len() == self.y@.len()
    }

    /// Creates an empty container.
    pub fn new() -> (r: Self)
        ensures
            r.wf(),
            r@ == Seq::<Point>::empty(),
    {
        let r = PointVec { x: Vec::new(), y: Vec::new() };
        proof {
            assert(r@ =~= Seq::<Point>::empty());
        }
        r
    }

    /// Creates an empty container whose columns can each hold `capacity`
    /// elements before reallocating.
    pub fn with_capacity(capacity: usize) -> (r: Self)
        ensures
            r.wf(),
            r@ == Seq::<Point>::empty(),
    {
        let r = PointVec { x: Vec::with_capacity(capacity), y: Vec::with_capacity(capacity) };
        proof {
            assert(r@ =~= Seq::<Point>::empty());
        }
        r
    }

    /// The number of records stored.
    pub fn len(&self) -> (n: usize)
        ensures
            n == self@.len(),
    {
        self.x.len()
    }

    /// Whether the container stores no record.
    pub fn is_empty(&self) -> (b: bool)
        ensures
            b == (self@.len() == 0),
    {
        self.x.is_empty()
    }

    /// The number of records the container can hold without any column
    /// reallocating: the smallest capacity over all columns.
    pub fn capacity(&self) -> (c: usize)
        requires
            self.wf(),
        ensures
            c >= self@.len(),
    {
        let cx = vec_capacity(&self.x);
        let cy = vec_capacity(&self.y);
        if cx <= cy {
            cx
        } else {
            cy
        }
    }

    /// Reserves room for at least `additional` more records in every column.
    pub fn reserve(&mut self, additional: usize)
        ensures
            final(self)@ == old(self)@,
            final(self).wf() == old(self).wf(),
    {
        self.x.reserve(additional);
        self.y.reserve(additional);
        proof {
            assert(final(self)@ =~= old(self)@);
        }
    }

    /// Reserves room for exactly `additional` more records in every column.
    pub fn reserve_exact(&mut self, additional: usize)
        ensures
            final(self)@ == old(self)@,
            final(self).wf() == old(self).wf(),
    {
        vec_reserve_exact(&mut self.x, additional);
        vec_reserve_exact(&mut self.y, additional);
        proof {
            assert(final(self)@ =~= old(self)@);
        }
    }

    /// Drops excess capacity in every column.
    pub fn shrink_to_fit(&mut self)
        ensures
            final(self)@ == old(self)@,
            final(self).wf() == old(self).wf(),
    {
        vec_shrink_to_fit(&mut self.x);
        vec_shrink_to_fit(&mut self.y);
        proof {
            assert(final(self)@ =~= old(self)@);
        }
    }

    /// Appends one record: every column grows by exactly one, together.
    pub fn push(&mut self, p: Point)
        requires
            old(self).wf(),
        ensures
            final(self).wf(),
            final(self)@ == old(self)@.push(p),
    {
        self.x.push(p.x);
        self.y.push(p.y);
        proof {
            assert(final(self)@ =~= old(self)@.push(p));
        }
    }

    /// Removes and returns the last record, or reports the container empty;
    /// every column shrinks by one, together.
    pub fn pop(&mut self) -> (r: Option<Point>)
        requires
            old(self).wf(),
        ensures
            final(self).wf(),
            old(self)@.len() > 0 ==> r == Some(old(self)@.last()) && final(self)@ == old(self)@.drop_last(),
            old(self)@.len() == 0 ==> r is None && final(self)@ == old(self)@,
    {
        let rx = self.x.pop();
        match rx {
            Some(x) => {
                let y = self.y.pop().unwrap();
                proof {
                    assert(final(self)@ =~= old(self)@.drop_last());
                }
                Some(Point { x, y })
            },
            None => {
                proof {
                    assert(final(self)@ =~= old(self)@);
                }
                None
            },
        }
    }

    /// Inserts a record at position `i`, shifting what follows in every
    /// column identically; rejects `i` beyond the current length before
    /// touching any column.
    pub fn insert(&mut self, i: usize, p: Point) -> (r: Result<(), SoaError>)
        requires
            old(self).wf(),
        ensures
            final(self).wf(),
            i <= old(self)@.len() ==> r == Ok::<(), SoaError>(()) && final(self)@ == old(self)@.insert(i as int, p),
            i > old(self)@.len() ==> r == Err::<(), SoaError>(SoaError::OutOfRange) && final(self)@
                == old(self)@,
    {
        if i > self.x.len() {
            return Err(SoaError::OutOfRange);
        }
        self.x.insert(i, p.x);
        self.y.insert(i, p.y);
        proof {
            assert(final(self)@ =~= old(self)@.insert(i as int, p));
        }
        Ok(())
    }

    /// Removes and returns the record at position `i`, shifting what follows
    /// in every column identically; rejects `i` out of range before touching
    /// any column.
    pub fn remove(&mut self, i: usize) -> (r: Result<Point, SoaError>)
        requires
            old(self).wf(),
        ensures
            final(self).wf(),
            i < old(self)@.len() ==> r == Ok::<Point, SoaError>(old(self)@[i as int]) && final(self)@ == old(self)@.remove(i as int),
            i >= old(self)@.len() ==> r == Err::<Point, SoaError>(SoaError::OutOfRange) && final(self)@ == old(self)@,
    {
        if i >= self.x.len() {
            return Err(SoaError::OutOfRange);
        }
        let x = self.x.remove(i);
        let y = self.y.remove(i);
        proof {
            assert(final(self)@ =~= old(self)@.remove(i as int));
        }
        Ok(Point { x, y })
    }

    /// Removes and returns the record at position `i`, moving the last
    /// record into its place in every column; rejects `i` out of range
    /// before touching any column.
    pub fn swap_remove(&mut self, i: usize) -> (r: Result<Point, SoaError>)
        requires
            old(self).wf(),
        ensures
            final(self).wf(),
            i < old(self)@.len() ==> r == Ok::<Point, SoaError>(old(self)@[i as int]) && final(self)@ == old(self)@.update(i as int, old(self)@.last()).drop_last(),
            i >= old(self)@.len() ==> r == Err::<Point, SoaError>(SoaError::OutOfRange) && final(self)@ == old(self)@,
    {
        if i >= self.x.len() {
            return Err(SoaError::OutOfRange);
        }
        let x = self.x.swap_remove(i);
        let y = self.y.swap_remove(i);
        proof {
            assert(final(self)@ =~= old(self)@.update(i as int, old(self)@.last()).drop_last());
        }
        Ok(Point { x, y })
    }

    /// Overwrites the record at position `i` and returns the previous one;
    /// rejects `i` out of range before touching any column.
    pub fn replace(&mut self, i: usize, p: Point) -> (r: Result<Point, SoaError>)
        requires
            old(self).wf(),
        ensures
            final(self).wf(),
            i < old(self)@.len() ==> r == Ok::<Point, SoaError>(old(self)@[i as int]) && final(self)@ == old(self)@.update(i as int, p),
            i >= old(self)@.len() ==> r == Err::<Point, SoaError>(SoaError::OutOfRange) && final(self)@ == old(self)@,
    {
        if i >= self.x.len() {
            return Err(SoaError::OutOfRange);
        }
        let x = self.x[i];
        let y = self.y[i];
        self.x.set(i, p.x);
        self.y.set(i, p.y);
        proof {
            assert(final(self)@ =~= old(self)@.update(i as int, p));
        }
        Ok(Point { x, y })
    }

    /// Overwrites the record at position `i`; rejects `i` out of range
    /// before touching any column.
    pub fn set(&mut self, i: usize, p: Point) -> (r: Result<(), SoaError>)
        requires
            old(self).wf(),
        ensures
            final(self).wf(),
            i < old(self)@.len() ==> r == Ok::<(), SoaError>(()) && final(self)@ == old(self)@.update(i as int, p),
            i >= old(self)@.len() ==> r == Err::<(), SoaError>(SoaError::OutOfRange) && final(self)@ == old(self)@,
    {
        if i >= self.x.len() {
            return Err(SoaError::OutOfRange);
        }
        self.x.set(i, p.x);
        self.y.set(i, p.y);
        proof {
            assert(final(self)@ =~= old(self)@.update(i as int, p));
        }
        Ok(())
    }

    /// Keeps the first `len` records and drops the rest from every column;
    /// a `len` beyond the current length leaves the container unchanged.
    pub fn truncate(&mut self, len: usize)
        requires
            old(self).wf(),
        ensures
            final(self).wf(),
            len <= old(self)@.len() ==> final(self)@ == old(self)@.take(len as int),
            len > old(self)@.len() ==> final(self)@ == old(self)@,
    {
        self.x.truncate(len);
        self.y.truncate(len);
        proof {
            if len <= old(self)@.len() {
                assert(final(self)@ =~= old(self)@.take(len as int));
            } else {
                assert(final(self)@ =~= old(self)@);
            }
        }
    }

    /// Drops every record from every column.
    pub fn clear(&mut self)
        ensures
            final(self).wf(),
            final(self)@ == Seq::<Point>::empty(),
    {
        self.x.clear();
        self.y.clear();
        proof {
            assert(final(self)@ =~= Seq::<Point>::empty());
        }
    }

    /// Moves every record of `other` to the end of `self`, column by column,
    /// leaving `other` empty; both containers stay length-consistent.
    pub fn append(&mut self, other: &mut PointVec)
        requires
            old(self).wf(),
            old(other).wf(),
        ensures
            final(self).wf(),
            final(other).wf(),
            final(self)@ == old(self)@ + old(other)@,
            final(other)@ == Seq::<Point>::empty(),
    {
        self.x.append(&mut other.x);
        self.y.append(&mut other.y);
        proof {
            assert(final(self)@ =~= old(self)@ + old(other)@);
            assert(final(other)@ =~= Seq::<Point>::empty());
        }
    }

    /// Splits the container at position `at`: `self` keeps the records
    /// before it, the returned container takes the rest; rejects `at` beyond
    /// the current length before touching any column.
    pub fn split_off(&mut self, at: usize) -> (r: Result<PointVec, SoaError>)
        requires
            old(self).wf(),
        ensures
            final(self).wf(),
            at <= old(self)@.len() ==> (r matches Ok(tail) && tail.wf() && final(self)@ == old(self)@.take(at as int) && tail@ == old(self)@.skip(at as int)),
            at > old(self)@.len() ==> (r matches Err(e) && e == SoaError::OutOfRange && final(self)@ == old(self)@),
    {
        if at > self.x.len() {
            return Err(SoaError::OutOfRange);
        }
        let tx = self.x.split_off(at);
        let ty = self.y.split_off(at);
        let tail = PointVec { x: tx, y: ty };
        proof {
            assert(final(self)@ =~= old(self)@.take(at as int));
            assert(tail@ =~= old(self)@.skip(at as int));
        }
        Ok(tail)
    }

    /// Copies the whole container into a new, independent one.
    pub fn to_vec(&self) -> (r: PointVec)
        ensures
            r.wf() == self.wf(),
            r@ == self@,
    {
        let r = PointVec { x: copy_u64_col(&self.x), y: copy_u64_col(&self.y) };
        proof {
            assert(r@ =~= self@);
        }
        r
    }

    /// Borrows the record at position `i` as an immutable proxy, or reports
    /// it absent when `i` is out of range.
    pub fn get(&self, i: usize) -> (r: Option<PointRef<'_>>)
        requires
            self.wf(),
        ensures
            r is Some <==> i < self@.len(),
            r is Some ==> r->0.spec_read() == self@[i as int],
    {
        if i < self.x.len() {
            Some(PointRef { x: &self.x[i], y: &self.y[i] })
        } else {
            None
        }
    }

    /// Borrows the record at position `i` as an immutable proxy without a
    /// bounds check: the caller guarantees `i` is in range.
    pub fn index(&self, i: usize) -> (r: PointRef<'_>)
        requires
            self.wf(),
            i < self@.len(),
        ensures
            r.spec_read() == self@[i as int],
    {
        PointRef { x: &self.x[i], y: &self.y[i] }
    }

    /// Borrows the record at position `i` as a mutable proxy without a
    /// bounds check: the caller guarantees `i` is in range. Writing the
    /// proxy's fields writes the columns at `i`.
    pub fn index_mut(&mut self, i: usize) -> (r: PointRefMut<'_>)
        requires
            old(self).wf(),
            i < old(self)@.len(),
        ensures
            *r.x == old(self)@[i as int].x,
            *r.y == old(self)@[i as int].y,
            final(self).wf(),
            final(self)@ == old(self)@.update(
                i as int,
                Point { x: *final(r.x), y: *final(r.y) },
            ),
    {
        PointRefMut { x: &mut self.x[i], y: &mut self.y[i] }
    }

    /// Borrows the first record as a proxy, or reports the container empty.
    pub fn first(&self) -> (r: Option<PointRef<'_>>)
        requires
            self.wf(),
        ensures
            r is Some <==> self@.len() > 0,
            r is Some ==> r->0.spec_read() == self@.first(),
    {
        self.get(0)
    }

    /// Borrows the last record as a proxy, or reports the container empty.
    pub fn last(&self) -> (r: Option<PointRef<'_>>)
        requires
            self.wf(),
        ensures
            r is Some <==> self@.len() > 0,
            r is Some ==> r->0.spec_read() == self@.last(),
    {
        if self.x.len() == 0 {
            None
        } else {
            self.get(self.x.len() - 1)
        }
    }

    /// Borrows the first record as a mutable proxy; the container must not
    /// be empty.
    pub fn first_mut(&mut self) -> (r: PointRefMut<'_>)
        requires
            old(self).wf(),
            old(self)@.len() > 0,
        ensures
            *r.x == old(self)@.first().x,
            *r.y == old(self)@.first().y,
            final(self).wf(),
            final(self)@ == old(self)@.update(0, Point { x: *final(r.x), y: *final(r.y) }),
    {
        self.index_mut(0)
    }

    /// Borrows the last record as a mutable proxy; the container must not
    /// be empty.
    pub fn last_mut(&mut self) -> (r: PointRefMut<'_>)
        requires
            old(self).wf(),
            old(self)@.len() > 0,
        ensures
            *r.x == old(self)@.last().x,
            *r.y == old(self)@.last().y,
            final(self).wf(),
            final(self)@ == old(self)@.update(
                old(self)@.len() - 1,
                Point { x: *final(r.x), y: *final(r.y) },
            ),
    {
        let i = self.x.len() - 1;
        self.index_mut(i)
    }

    /// Reorders the records so that the one at destination `d` is the one
    /// formerly at `indices[d]`, moving every column in the same single
    /// pass; the caller guarantees `indices` is a permutation.
    pub fn apply_index(&mut self, indices: &Vec<usize>)
        requires
            old(self).wf(),
            is_perm(indices@, old(self)@.len() as int),
        ensures
            final(self).wf(),
            final(self)@ == reorder(old(self)@, indices@),
    {
        let nx = gather_u64(&self.x, indices);
        let ny = gather_u64(&self.y, indices);
        self.x = nx;
        self.y = ny;
        proof {
            assert(final(self)@ =~= reorder(old(self)@, indices@));
        }
    }

    /// Reorders the records by `indices` after checking that it really is a
    /// permutation; on rejection no column is touched.
    pub fn try_apply_index(&mut self, indices: &Vec<usize>) -> (r: Result<(), SoaError>)
        requires
            old(self).wf(),
        ensures
            final(self).wf(),
            is_perm(indices@, old(self)@.len() as int) ==> r == Ok::<(), SoaError>(()) && final(self)@ == reorder(old(self)@, indices@),
            !is_perm(indices@, old(self)@.len() as int) ==> r == Err::<(), SoaError>(
                SoaError::OutOfRange,
            ) && final(self)@ == old(self)@,
    {
        if check_perm(indices, self.x.len()) {
            self.apply_index(indices);
            Ok(())
        } else {
            Err(SoaError::OutOfRange)
        }
    }

    /// Sorts the records so that the given parallel keys come out in
    /// non-decreasing order, equal keys keeping their relative order, and
    /// returns the permutation that was applied: destination `d` holds the
    /// record formerly at the returned index. Ordering decisions are made by
    /// the permutation engine once; every column is then moved exactly once.
    pub fn sort_by_keys(&mut self, keys: &Vec<u64>) -> (ix: Vec<usize>)
        requires
            old(self).wf(),
            keys@.len() == old(self)@.len(),
        ensures
            final(self).wf(),
            is_perm(ix@, old(self)@.len() as int),
            final(self)@ == reorder(old(self)@, ix@),
            forall|d1: int, d2: int|
                0 <= d1 < d2 < keys@.len() ==> keys@[ix@[d1] as int] <= keys@[ix@[d2] as int],
            forall|d1: int, d2: int|
                0 <= d1 < d2 < keys@.len() && keys@[ix@[d1] as int] == keys@[ix@[d2] as int]
                    ==> ix@[d1] < ix@[d2],
    {
        let p = sort_perm_asc(keys);
        let ix = perm_to_indices(&p);
        self.apply_index(&ix);
        ix
    }

    /// Sorts the records so that the given parallel keys come out in
    /// non-increasing order, equal keys keeping their relative order, and
    /// returns the permutation that was applied, as `sort_by_keys` does.
    pub fn sort_desc_by_keys(&mut self, keys: &Vec<u64>) -> (ix: Vec<usize>)
        requires
            old(self).wf(),
            keys@.len() == old(self)@.len(),
        ensures
            final(self).wf(),
            is_perm(ix@, old(self)@.len() as int),
            final(self)@ == reorder(old(self)@, ix@),
            forall|d1: int, d2: int|
                0 <= d1 < d2 < keys@.len() ==> keys@[ix@[d1] as int] >= keys@[ix@[d2] as int],
            forall|d1: int, d2: int|
                0 <= d1 < d2 < keys@.len() && keys@[ix@[d1] as int] == keys@[ix@[d2] as int]
                    ==> ix@[d1] < ix@[d2],
    {
        let p = sort_perm_desc(keys);
        let ix = perm_to_indices(&p);
        self.apply_index(&ix);
        ix
    }

    /// Sorts the records by their `x` field, ascending and stable: the
    /// key function is evaluated per record, then one permutation moves
    /// every column.
    pub fn sort_by_x(&mut self) -> (ix: Vec<usize>)
        requires
            old(self).wf(),
        ensures
            final(self).wf(),
            is_perm(ix@, old(self)@.len() as int),
            final(self)@ == reorder(old(self)@, ix@),
            forall|d1: int, d2: int|
                0 <= d1 < d2 < final(self)@.len() ==> final(self)@[d1].x <= final(self)@[d2].x,
    {
        let keys = copy_u64_col(&self.x);
        proof {
            assert forall|i: int| 0 <= i < keys@.len() implies keys@[i] == old(self)@[i].x by {}
        }
        let ix = self.sort_by_keys(&keys);
        ix
    }
}

} // verus!
