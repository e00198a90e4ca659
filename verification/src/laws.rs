//! Laws that relate several container operations, stated over the sequence
//! models that the operations' contracts use, so they hold of every family.

use vstd::prelude::*;

use crate::vec::PointVec;

verus! {

/// Push/pop round trip: after pushing a record, popping returns exactly that
/// record and restores the previous contents, so the length is unchanged
/// relative to before the push.
pub proof fn lemma_push_pop_round_trip<A>(s: Seq<A>, a: A)
    ensures
        s.push(a).last() == a,
        s.push(a).drop_last() == s,
{
    assert(s.push(a).drop_last() =~= s);
}

/// Insert/remove inverse: removing at the position just inserted at returns
/// the contents to exactly what they were, so every other position is
/// unchanged.
pub proof fn lemma_insert_remove_round_trip<A>(s: Seq<A>, i: int, a: A)
    requires
        0 <= i <= s.len(),
    ensures
        s.insert(i, a).remove(i) == s,
        s.insert(i, a)[i] == a,
{
    assert(s.insert(i, a).remove(i) =~= s);
}

/// Parallel-length invariant, stated explicitly: in a well-formed container
/// every field column's length equals the container's length, hence every
/// other column's.
pub proof fn lemma_parallel_lengths(v: &PointVec)
    requires
        v.wf(),
    ensures
        v.x@.len() == v@.len(),
        v.y@.len() == v@.len(),
{
}

} // verus!
