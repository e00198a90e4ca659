//! The iterator of the base family: a forward cursor over a view, yielding
//! immutable proxies in index order.

use vstd::prelude::*;

use crate::refs::PointRef;
use crate::slice::PointSlice;
use crate::vec::PointVec;

verus! {

/// Forward iterator over a view, yielding one immutable proxy per record.
pub struct PointIter<'a> {
    pub s: PointSlice<'a>,
    pub pos: usize,
}

impl<'a> PointIter<'a> {
    /// The cursor stays within the view it walks.
    pub open spec fn wf(&self) -> bool {
        self.s.wf() && self.pos <= self.s@.len()
    }

    /// The records the iterator has not yielded yet, in order.
    pub open spec fn remaining(&self) -> Seq<crate::refs::Point> {
        self.s@.skip(self.pos as int)
    }

    /// Yields a proxy for the next record, or reports the iterator
    /// exhausted; the view walked never changes.
    pub fn next(&mut self) -> (r: Option<PointRef<'a>>)
        requires
            old(self).wf(),
        ensures
            final(self).wf(),
            final(self).s == old(self).s,
            old(self).pos < old(self).s@.len() ==> (r matches Some(p) && p.spec_read() == old(
                self,
            ).s@[old(self).pos as int] && final(self).pos == old(self).pos + 1),
            old(self).pos >= old(self).s@.len() ==> r is None && final(self).pos == old(self).pos,
    {
        if self.pos < self.s.len() {
            let r = self.s.index(self.pos);
            self.pos = self.pos + 1;
            Some(r)
        } else {
            None
        }
    }
}

impl<'a> PointSlice<'a> {
    /// An iterator over the view's records, from the first.
    pub fn iter(&self) -> (it: PointIter<'a>)
        requires
            self.wf(),
        ensures
            it.wf(),
            it.s == *self,
            it.pos == 0,
            it.remaining() == self@,
    {
        let it = PointIter { s: *self, pos: 0 };
        proof {
            assert(it.remaining() =~= self@);
        }
        it
    }
}

impl PointVec {
    /// An iterator over the container's records, from the first.
    pub fn iter(&self) -> (it: PointIter<'_>)
        requires
            self.wf(),
        ensures
            it.wf(),
            it.pos == 0,
            it.remaining() == self@,
    {
        let s = self.as_slice();
        s.iter()
    }
}

} // verus!
