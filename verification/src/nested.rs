//! The nested family: an outer record one of whose fields is itself a
//! record with its own struct-of-arrays family. The outer container stores
//! that field as the inner family's owning container instead of a plain
//! column, and every operation keeps the inner family's length equal to the
//! outer length.

use vstd::prelude::*;

use crate::perm::{gather_strings, gather_u64, is_perm, reorder, sort_perm_asc, sort_perm_desc, perm_to_indices};
use crate::refs::{Point, PointRef};
use crate::slice::PointSlice;
use crate::vec::{copy_u64_col, vec_capacity, PointVec};
use crate::SoaError;

verus! {

/// The outer record: a nested record field stored through the inner
/// family, one scalar field, and one text field.
#[derive(Clone, Debug)]
pub struct Particle {
    pub point: Point,
    pub mass: u64,
    pub name: String,
}

/// The mathematical value of a `Particle`: the text field abstracts to its
/// character sequence.
pub struct ParticleModel {
    pub point: Point,
    pub mass: u64,
    pub name: Seq<char>,
}

impl View for Particle {
    type V = ParticleModel;

    open spec fn view(&self) -> ParticleModel {
        ParticleModel { point: self.point, mass: self.mass, name: self.name@ }
    }
}

impl PartialEq for Particle {
    fn eq(&self, other: &Particle) -> (r: bool) {
        self.point == other.point && self.mass == other.mass && self.name == other.name
    }
}

impl vstd::std_specs::cmp::PartialEqSpecImpl for Particle {
    open spec fn obeys_eq_spec() -> bool {
        true
    }

    open spec fn eq_spec(&self, other: &Particle) -> bool {
        self.point == other.point && self.mass == other.mass && self.name@ == other.name@
    }
}

/// Immutable proxy for the outer record: the nested field appears as the
/// inner family's proxy, the plain fields as borrowed references.
#[derive(Clone, Copy)]
pub struct ParticleRef<'a> {
    pub point: PointRef<'a>,
    pub mass: &'a u64,
    pub name: &'a String,
}

impl<'a> ParticleRef<'a> {
    /// The record value this proxy denotes.
    pub open spec fn spec_read(&self) -> ParticleModel {
        ParticleModel { point: self.point.spec_read(), mass: *self.mass, name: (*self.name)@ }
    }
}

/// The owning container of the nested family: the nested field is stored as
/// the inner family's owning container, the other fields as plain columns;
/// all run in lockstep.
#[derive(Debug)]
pub struct ParticleVec {
    pub point: PointVec,
    pub mass: Vec<u64>,
    pub name: Vec<String>,
}

impl View for ParticleVec {
    type V = Seq<ParticleModel>;

    /// The container abstracts to the sequence of record values it stores.
    open spec fn view(&self) -> Seq<ParticleModel> {
        Seq::new(
            self.mass@.len(),
            |i: int| ParticleModel {
                point: self.point@[i],
                mass: self.mass@[i],
                name: self.name@[i]@,
            },
        )
    }
}

impl ParticleVec {
    /// The parallel-array invariant, one level down: the inner family is
    /// itself consistent and its length equals every outer column's length.
    pub open spec fn wf(&self) -> bool {
        &&& self.point.wf()
        &&& self.point@.len() == self.mass@.len()
        &&& self.mass@.len() == self.name@.len()
    }

    /// Creates an empty container.
    pub fn new() -> (r: Self)
        ensures
            r.wf(),
            r@ == Seq::<ParticleModel>::empty(),
    {
        let r = ParticleVec { point: PointVec::new(), mass: Vec::new(), name: Vec::new() };
        proof {
            assert(r@ =~= Seq::<ParticleModel>::empty());
        }
        r
    }

    /// The number of records stored.
    pub fn len(&self) -> (n: usize)
        ensures
            n == self@.len(),
    {
        self.mass.len()
    }

    /// Whether the container stores no record.
    pub fn is_empty(&self) -> (b: bool)
        ensures
            b == (self@.len() == 0),
    {
        self.mass.is_empty()
    }

    /// Creates an empty container whose storage, one level down too, can
    /// hold `capacity` records before reallocating.
    pub fn with_capacity(capacity: usize) -> (r: Self)
        ensures
            r.wf(),
            r@ == Seq::<ParticleModel>::empty(),
    {
        let r = ParticleVec {
            point: PointVec::with_capacity(capacity),
            mass: Vec::with_capacity(capacity),
            name: Vec::with_capacity(capacity),
        };
        proof {
            assert(r@ =~= Seq::<ParticleModel>::empty());
        }
        r
    }

    /// The number of records the container can hold without any column,
    /// nested ones included, reallocating.
    pub fn capacity(&self) -> (c: usize)
        requires
            self.wf(),
        ensures
            c >= self@.len(),
    {
        let cp = self.point.capacity();
        let cm = vec_capacity(&self.mass);
        let cn = vec_capacity(&self.name);
        let cpm = if cp <= cm {
            cp
        } else {
            cm
        };
        if cpm <= cn {
            cpm
        } else {
            cn
        }
    }

    /// Reserves room for at least `additional` more records everywhere.
    pub fn reserve(&mut self, additional: usize)
        ensures
            final(self)@ == old(self)@,
            final(self).wf() == old(self).wf(),
    {
        self.point.reserve(additional);
        self.mass.reserve(additional);
        self.name.reserve(additional);
        proof {
            assert(final(self)@ =~= old(self)@);
        }
    }

    /// Appends one record: the nested family and every plain column grow by
    /// exactly one, together.
    pub fn push(&mut self, p: Particle)
        requires
            old(self).wf(),
        ensures
            final(self).wf(),
            final(self)@ == old(self)@.push(p@),
    {
        let Particle { point, mass, name } = p;
        self.point.push(point);
        self.mass.push(mass);
        self.name.push(name);
        proof {
            assert(final(self)@ =~= old(self)@.push(p@));
        }
    }

    /// Removes and returns the last record, or reports the container empty.
    pub fn pop(&mut self) -> (r: Option<Particle>)
        requires
            old(self).wf(),
        ensures
            final(self).wf(),
            old(self)@.len() > 0 ==> (r matches Some(p) && p@ == old(self)@.last() && final(self)@
                == old(self)@.drop_last()),
            old(self)@.len() == 0 ==> r is None && final(self)@ == old(self)@,
    {
        match self.name.pop() {
            Some(name) => {
                let mass = self.mass.pop().unwrap();
                let point = self.point.pop().unwrap();
                proof {
                    assert(final(self)@ =~= old(self)@.drop_last());
                }
                Some(Particle { point, mass, name })
            },
            None => {
                proof {
                    assert(final(self)@ =~= old(self)@);
                }
                None
            },
        }
    }

    /// Inserts a record at position `i`, shifting what follows in the
    /// nested family and every plain column identically; rejects `i` beyond
    /// the current length before touching anything.
    pub fn insert(&mut self, i: usize, p: Particle) -> (r: Result<(), SoaError>)
        requires
            old(self).wf(),
        ensures
            final(self).wf(),
            i <= old(self)@.len() ==> r == Ok::<(), SoaError>(()) && final(self)@ == old(self)@.insert(i as int, p@),
            i > old(self)@.len() ==> r == Err::<(), SoaError>(SoaError::OutOfRange) && final(self)@
                == old(self)@,
    {
        if i > self.mass.len() {
            return Err(SoaError::OutOfRange);
        }
        let Particle { point, mass, name } = p;
        let inner = self.point.insert(i, point);
        proof {
            assert(inner == Ok::<(), SoaError>(()));
        }
        self.mass.insert(i, mass);
        self.name.insert(i, name);
        proof {
            assert(final(self)@ =~= old(self)@.insert(i as int, p@));
        }
        Ok(())
    }

    /// Removes and returns the record at position `i`, shifting what
    /// follows identically everywhere; rejects `i` out of range before
    /// touching anything.
    pub fn remove(&mut self, i: usize) -> (r: Result<Particle, SoaError>)
        requires
            old(self).wf(),
        ensures
            final(self).wf(),
            i < old(self)@.len() ==> (r matches Ok(p) && p@ == old(self)@[i as int] && final(self)@
                == old(self)@.remove(i as int)),
            i >= old(self)@.len() ==> (r matches Err(e) && e == SoaError::OutOfRange && final(self)@ == old(self)@),
    {
        if i >= self.mass.len() {
            return Err(SoaError::OutOfRange);
        }
        let inner = self.point.remove(i);
        let point = match inner {
            Ok(pt) => pt,
            Err(_) => {
                proof {
                    assert(false);
                }
                Point { x: 0, y: 0 }
            },
        };
        let mass = self.mass.remove(i);
        let name = self.name.remove(i);
        proof {
            assert(final(self)@ =~= old(self)@.remove(i as int));
        }
        Ok(Particle { point, mass, name })
    }

    /// Keeps the first `len` records everywhere; a `len` beyond the current
    /// length changes nothing.
    pub fn truncate(&mut self, len: usize)
        requires
            old(self).wf(),
        ensures
            final(self).wf(),
            len <= old(self)@.len() ==> final(self)@ == old(self)@.take(len as int),
            len > old(self)@.len() ==> final(self)@ == old(self)@,
    {
        self.point.truncate(len);
        self.mass.truncate(len);
        self.name.truncate(len);
        proof {
            if len <= old(self)@.len() {
                assert(final(self)@ =~= old(self)@.take(len as int));
            } else {
                assert(final(self)@ =~= old(self)@);
            }
        }
    }

    /// Drops every record everywhere.
    pub fn clear(&mut self)
        ensures
            final(self).wf(),
            final(self)@ == Seq::<ParticleModel>::empty(),
    {
        self.point.clear();
        self.mass.clear();
        self.name.clear();
        proof {
            assert(final(self)@ =~= Seq::<ParticleModel>::empty());
        }
    }

    /// Moves every record of `other` to the end of `self`, leaving `other`
    /// empty; both containers stay length-consistent, one level down too.
    pub fn append(&mut self, other: &mut ParticleVec)
        requires
            old(self).wf(),
            old(other).wf(),
        ensures
            final(self).wf(),
            final(other).wf(),
            final(self)@ == old(self)@ + old(other)@,
            final(other)@ == Seq::<ParticleModel>::empty(),
    {
        self.point.append(&mut other.point);
        self.mass.append(&mut other.mass);
        self.name.append(&mut other.name);
        proof {
            assert(final(self)@ =~= old(self)@ + old(other)@);
            assert(final(other)@ =~= Seq::<ParticleModel>::empty());
        }
    }

    /// Splits the container at position `at`, keeping the records before it
    /// and handing back the rest; rejects `at` beyond the current length
    /// before touching anything.
    pub fn split_off(&mut self, at: usize) -> (r: Result<ParticleVec, SoaError>)
        requires
            old(self).wf(),
        ensures
            final(self).wf(),
            at <= old(self)@.len() ==> (r matches Ok(tail) && tail.wf() && final(self)@ == old(self)@.take(at as int) && tail@ == old(self)@.skip(at as int)),
            at > old(self)@.len() ==> (r matches Err(e) && e == SoaError::OutOfRange && final(self)@ == old(self)@),
    {
        if at > self.mass.len() {
            return Err(SoaError::OutOfRange);
        }
        let inner = self.point.split_off(at);
        let point = match inner {
            Ok(pt) => pt,
            Err(_) => {
                proof {
                    assert(false);
                }
                PointVec::new()
            },
        };
        let mass = self.mass.split_off(at);
        let name = self.name.split_off(at);
        let tail = ParticleVec { point, mass, name };
        proof {
            assert(final(self)@ =~= old(self)@.take(at as int));
            assert(tail@ =~= old(self)@.skip(at as int));
        }
        Ok(tail)
    }

    /// Borrows the record at position `i` as a proxy — the nested field as
    /// the inner family's proxy — or reports it absent when `i` is out of
    /// range.
    pub fn get(&self, i: usize) -> (r: Option<ParticleRef<'_>>)
        requires
            self.wf(),
        ensures
            r is Some <==> i < self@.len(),
            r is Some ==> r->0.spec_read() == self@[i as int],
    {
        if i < self.mass.len() {
            Some(
                ParticleRef {
                    point: self.point.index(i),
                    mass: &self.mass[i],
                    name: &self.name[i],
                },
            )
        } else {
            None
        }
    }

    /// Borrows the record at position `i` as a proxy without a bounds
    /// check: the caller guarantees `i` is in range.
    pub fn index(&self, i: usize) -> (r: ParticleRef<'_>)
        requires
            self.wf(),
            i < self@.len(),
        ensures
            r.spec_read() == self@[i as int],
    {
        ParticleRef { point: self.point.index(i), mass: &self.mass[i], name: &self.name[i] }
    }

    /// Reorders the records by a permutation: the inner family is reordered
    /// by the same permutation as every plain column, in one pass each.
    pub fn apply_index(&mut self, indices: &Vec<usize>)
        requires
            old(self).wf(),
            is_perm(indices@, old(self)@.len() as int),
        ensures
            final(self).wf(),
            final(self)@ == reorder(old(self)@, indices@),
    {
        self.point.apply_index(indices);
        let nm = gather_u64(&self.mass, indices);
        let nn = gather_strings(&self.name, indices);
        self.mass = nm;
        self.name = nn;
        proof {
            assert(final(self)@ =~= reorder(old(self)@, indices@));
        }
    }

    /// Sorts the records by their `mass` field, ascending and stable, and
    /// returns the permutation that was applied: the nested family moves in
    /// the same pass as every plain column.
    pub fn sort_by_mass(&mut self) -> (ix: Vec<usize>)
        requires
            old(self).wf(),
        ensures
            final(self).wf(),
            is_perm(ix@, old(self)@.len() as int),
            final(self)@ == reorder(old(self)@, ix@),
            forall|d1: int, d2: int|
                0 <= d1 < d2 < final(self)@.len() ==> final(self)@[d1].mass <= final(self)@[d2].mass,
    {
        let keys = copy_u64_col(&self.mass);
        proof {
            assert forall|i: int| 0 <= i < keys@.len() implies keys@[i] == old(self)@[i].mass by {}
        }
        let p = sort_perm_asc(&keys);
        let ix = perm_to_indices(&p);
        self.apply_index(&ix);
        ix
    }

    /// Sorts the records by their `mass` field, descending and stable, and
    /// returns the permutation that was applied.
    pub fn sort_desc_by_mass(&mut self) -> (ix: Vec<usize>)
        requires
            old(self).wf(),
        ensures
            final(self).wf(),
            is_perm(ix@, old(self)@.len() as int),
            final(self)@ == reorder(old(self)@, ix@),
            forall|d1: int, d2: int|
                0 <= d1 < d2 < final(self)@.len() ==> final(self)@[d1].mass >= final(self)@[d2].mass,
    {
        let keys = copy_u64_col(&self.mass);
        proof {
            assert forall|i: int| 0 <= i < keys@.len() implies keys@[i] == old(self)@[i].mass by {}
        }
        let p = sort_perm_desc(&keys);
        let ix = perm_to_indices(&p);
        self.apply_index(&ix);
        ix
    }
}


/// Immutable view of the nested family: the nested field appears as the
/// inner family's view over the same window, the plain fields as borrowed
/// column ranges.
#[derive(Clone, Copy, Debug)]
pub struct ParticleSlice<'a> {
    pub point: PointSlice<'a>,
    pub mass: &'a [u64],
    pub name: &'a [String],
}

impl<'a> View for ParticleSlice<'a> {
    type V = Seq<ParticleModel>;

    /// The view abstracts to the sequence of record values in its window.
    open spec fn view(&self) -> Seq<ParticleModel> {
        Seq::new(
            self.mass@.len(),
            |i: int| ParticleModel {
                point: self.point@[i],
                mass: self.mass@[i],
                name: self.name@[i]@,
            },
        )
    }
}

impl<'a> ParticleSlice<'a> {
    /// The inner view is consistent and covers the same window as every
    /// plain column range.
    pub open spec fn wf(&self) -> bool {
        &&& self.point.wf()
        &&& self.point@.len() == self.mass@.len()
        &&& self.mass@.len() == self.name@.len()
    }

    /// The number of records in the window.
    pub fn len(&self) -> (n: usize)
        ensures
            n == self@.len(),
    {
        self.mass.len()
    }

    /// Whether the window holds no record.
    pub fn is_empty(&self) -> (b: bool)
        ensures
            b == (self@.len() == 0),
    {
        self.mass.len() == 0
    }

    /// Borrows the record at position `i` of the window as a proxy — the
    /// nested field as the inner family's proxy — or reports it absent when
    /// `i` is out of range.
    pub fn get(&self, i: usize) -> (r: Option<ParticleRef<'a>>)
        requires
            self.wf(),
        ensures
            r is Some <==> i < self@.len(),
            r is Some ==> r->0.spec_read() == self@[i as int],
    {
        if i < self.mass.len() {
            Some(
                ParticleRef {
                    point: self.point.index(i),
                    mass: &self.mass[i],
                    name: &self.name[i],
                },
            )
        } else {
            None
        }
    }

    /// Borrows the record at position `i` of the window without a bounds
    /// check: the caller guarantees `i` is in range.
    pub fn index(&self, i: usize) -> (r: ParticleRef<'a>)
        requires
            self.wf(),
            i < self@.len(),
        ensures
            r.spec_read() == self@[i as int],
    {
        ParticleRef { point: self.point.index(i), mass: &self.mass[i], name: &self.name[i] }
    }

    /// Borrows the first record of the window, or reports the window empty.
    pub fn first(&self) -> (r: Option<ParticleRef<'a>>)
        requires
            self.wf(),
        ensures
            r is Some <==> self@.len() > 0,
            r is Some ==> r->0.spec_read() == self@.first(),
    {
        self.get(0)
    }

    /// Borrows the last record of the window, or reports the window empty.
    pub fn last(&self) -> (r: Option<ParticleRef<'a>>)
        requires
            self.wf(),
        ensures
            r is Some <==> self@.len() > 0,
            r is Some ==> r->0.spec_read() == self@.last(),
    {
        if self.mass.len() == 0 {
            None
        } else {
            self.get(self.mass.len() - 1)
        }
    }

    /// Re-slices the window to `[lo, hi)` of its own range, the nested view
    /// re-sliced in lockstep, rejecting bounds that do not lie within it.
    pub fn slice(&self, lo: usize, hi: usize) -> (r: Result<ParticleSlice<'a>, SoaError>)
        requires
            self.wf(),
        ensures
            lo <= hi <= self@.len() ==> (r matches Ok(s) && s.wf() && s@ == self@.subrange(
                lo as int,
                hi as int,
            )),
            !(lo <= hi <= self@.len()) ==> (r matches Err(e) && e == SoaError::OutOfRange),
    {
        if lo > hi || hi > self.mass.len() {
            return Err(SoaError::OutOfRange);
        }
        let inner = self.point.slice(lo, hi);
        let point = match inner {
            Ok(pt) => pt,
            Err(_) => {
                proof {
                    assert(false);
                }
                self.point
            },
        };
        let s = ParticleSlice { point, mass: &self.mass[lo..hi], name: &self.name[lo..hi] };
        proof {
            assert(s@ =~= self@.subrange(lo as int, hi as int));
        }
        Ok(s)
    }
}

impl ParticleVec {
    /// Borrows the whole container as an immutable view, the nested family
    /// as its own view.
    pub fn as_slice(&self) -> (r: ParticleSlice<'_>)
        requires
            self.wf(),
        ensures
            r.wf(),
            r@ == self@,
    {
        let r = ParticleSlice {
            point: self.point.as_slice(),
            mass: self.mass.as_slice(),
            name: self.name.as_slice(),
        };
        proof {
            assert(r@ =~= self@);
        }
        r
    }

    /// Borrows the records in `[lo, hi)` as an immutable view, rejecting
    /// bounds that do not lie within the container.
    pub fn slice(&self, lo: usize, hi: usize) -> (r: Result<ParticleSlice<'_>, SoaError>)
        requires
            self.wf(),
        ensures
            lo <= hi <= self@.len() ==> (r matches Ok(s) && s.wf() && s@ == self@.subrange(
                lo as int,
                hi as int,
            )),
            !(lo <= hi <= self@.len()) ==> (r matches Err(e) && e == SoaError::OutOfRange),
    {
        let whole = self.as_slice();
        whole.slice(lo, hi)
    }

    /// Borrows the first record as a proxy, or reports the container empty.
    pub fn first(&self) -> (r: Option<ParticleRef<'_>>)
        requires
            self.wf(),
        ensures
            r is Some <==> self@.len() > 0,
            r is Some ==> r->0.spec_read() == self@.first(),
    {
        self.get(0)
    }

    /// Borrows the last record as a proxy, or reports the container empty.
    pub fn last(&self) -> (r: Option<ParticleRef<'_>>)
        requires
            self.wf(),
        ensures
            r is Some <==> self@.len() > 0,
            r is Some ==> r->0.spec_read() == self@.last(),
    {
        if self.mass.len() == 0 {
            None
        } else {
            self.get(self.mass.len() - 1)
        }
    }

    /// Removes and returns the record at position `i`, moving the last
    /// record into its place everywhere; rejects `i` out of range before
    /// touching anything.
    pub fn swap_remove(&mut self, i: usize) -> (r: Result<Particle, SoaError>)
        requires
            old(self).wf(),
        ensures
            final(self).wf(),
            i < old(self)@.len() ==> (r matches Ok(p) && p@ == old(self)@[i as int] && final(self)@
                == old(self)@.update(i as int, old(self)@.last()).drop_last()),
            i >= old(self)@.len() ==> (r matches Err(e) && e == SoaError::OutOfRange && final(self)@ == old(self)@),
    {
        if i >= self.mass.len() {
            return Err(SoaError::OutOfRange);
        }
        let inner = self.point.swap_remove(i);
        let point = match inner {
            Ok(pt) => pt,
            Err(_) => {
                proof {
                    assert(false);
                }
                Point { x: 0, y: 0 }
            },
        };
        let mass = self.mass.swap_remove(i);
        let name = self.name.swap_remove(i);
        proof {
            assert(final(self)@ =~= old(self)@.update(i as int, old(self)@.last()).drop_last());
        }
        Ok(Particle { point, mass, name })
    }

    /// Overwrites the record at position `i` and returns the previous one;
    /// rejects `i` out of range before touching anything.
    pub fn replace(&mut self, i: usize, p: Particle) -> (r: Result<Particle, SoaError>)
        requires
            old(self).wf(),
        ensures
            final(self).wf(),
            i < old(self)@.len() ==> (r matches Ok(prev) && prev@ == old(self)@[i as int] && final(self)@ == old(self)@.update(i as int, p@)),
            i >= old(self)@.len() ==> (r matches Err(e) && e == SoaError::OutOfRange && final(self)@ == old(self)@),
    {
        if i >= self.mass.len() {
            return Err(SoaError::OutOfRange);
        }
        let Particle { point, mass, name } = p;
        let inner = self.point.replace(i, point);
        let old_point = match inner {
            Ok(pt) => pt,
            Err(_) => {
                proof {
                    assert(false);
                }
                Point { x: 0, y: 0 }
            },
        };
        let old_mass = self.mass[i];
        self.mass.set(i, mass);
        let mut old_name = name;
        core::mem::swap(&mut old_name, &mut self.name[i]);
        proof {
            assert(final(self)@ =~= old(self)@.update(i as int, p@));
        }
        Ok(Particle { point: old_point, mass: old_mass, name: old_name })
    }
}


/// Forward iterator of the nested family: walks a view, yielding one proxy
/// per record, the nested field as the inner family's proxy.
pub struct ParticleIter<'a> {
    pub s: ParticleSlice<'a>,
    pub pos: usize,
}

impl<'a> ParticleIter<'a> {
    /// The cursor stays within the view it walks.
    pub open spec fn wf(&self) -> bool {
        self.s.wf() && self.pos <= self.s@.len()
    }

    /// The records the iterator has not yielded yet, in order.
    pub open spec fn remaining(&self) -> Seq<ParticleModel> {
        self.s@.skip(self.pos as int)
    }

    /// Yields a proxy for the next record, or reports the iterator
    /// exhausted; the view walked never changes.
    pub fn next(&mut self) -> (r: Option<ParticleRef<'a>>)
        requires
            old(self).wf(),
        ensures
            final(self).wf(),
            final(self).s == old(self).s,
            old(self).pos < old(self).s@.len() ==> (r matches Some(p) && p.spec_read() == old(
                self,
            ).s@[old(self).pos as int] && final(self).pos == old(self).pos + 1),
            old(self).pos >= old(self).s@.len() ==> r is None && final(self).pos == old(self).pos,
    {
        if self.pos < self.s.len() {
            let r = self.s.index(self.pos);
            self.pos = self.pos + 1;
            Some(r)
        } else {
            None
        }
    }
}

impl<'a> ParticleSlice<'a> {
    /// An iterator over the view's records, from the first.
    pub fn iter(&self) -> (it: ParticleIter<'a>)
        requires
            self.wf(),
        ensures
            it.wf(),
            it.s == *self,
            it.pos == 0,
            it.remaining() == self@,
    {
        let it = ParticleIter { s: *self, pos: 0 };
        proof {
            assert(it.remaining() =~= self@);
        }
        it
    }
}

impl ParticleVec {
    /// An iterator over the container's records, from the first.
    pub fn iter(&self) -> (it: ParticleIter<'_>)
        requires
            self.wf(),
        ensures
            it.wf(),
            it.pos == 0,
            it.remaining() == self@,
    {
        let s = self.as_slice();
        s.iter()
    }
}

/// Nested consistency: in a well-formed container of the nested family, the
/// inner family's own length equals the outer container's length, as does
/// every plain column's.
pub proof fn lemma_nested_parallel(v: &ParticleVec)
    requires
        v.wf(),
    ensures
        v.point@.len() == v@.len(),
        v.mass@.len() == v@.len(),
        v.name@.len() == v@.len(),
{
}

} // verus!
