//! The permutation engine: reordering every field column of a container in
//! one pass, and computing sort orders through the `permutation` crate.
//!
//! A permutation is kept as the sequence that maps each destination position
//! to the source position whose element lands there: applying `p` to a
//! sequence `s` yields the sequence `d |-> s[p[d]]`.

use vstd::prelude::*;

verus! {

/// `p` maps destination positions to source positions, is a bijection on
/// `0..n`, and has length `n`.
pub open spec fn is_perm(p: Seq<usize>, n: int) -> bool {
    &&& p.len() == n
    &&& forall|d: int| 0 <= d < n ==> (#[trigger] p[d]) < n
    &&& forall|d1: int, d2: int| 0 <= d1 < d2 < n ==> p[d1] != p[d2]
}

/// `s` reordered by `p`: the element at destination `d` comes from source
/// position `p[d]`.
pub open spec fn reorder<A>(s: Seq<A>, p: Seq<usize>) -> Seq<A> {
    Seq::new(p.len(), |d: int| s[p[d] as int])
}

/// The contents of a `permutation::Permutation` value: the sequence mapping
/// each destination position to its source position.
pub uninterp spec fn perm_sources(p: permutation::Permutation) -> Seq<usize>;

#[verifier::external_type_specification]
#[verifier::external_body]
pub struct ExPermutation(permutation::Permutation);

/// Relies on `permutation::permutation::sort`: it returns the permutation
/// that sorts the slice, computed by a stable sort of the source indices
/// keyed by their elements, so destinations in key order and equal keys in
/// source order.
#[verifier::external_body]
pub(crate) fn sort_perm_asc(keys: &Vec<u64>) -> (p: permutation::Permutation)
    ensures
        is_perm(perm_sources(p), keys@.len() as int),
        forall|d1: int, d2: int|
            0 <= d1 < d2 < keys@.len() ==> keys@[perm_sources(p)[d1] as int]
                <= keys@[perm_sources(p)[d2] as int],
        forall|d1: int, d2: int|
            0 <= d1 < d2 < keys@.len() && keys@[perm_sources(p)[d1] as int] == keys@[perm_sources(
                p,
            )[d2] as int] ==> perm_sources(p)[d1] < perm_sources(p)[d2],
{
    permutation::permutation::sort(keys.as_slice())
}

/// Compares two keys for a descending sort order.
pub(crate) fn desc_order(a: &u64, b: &u64) -> (r: core::cmp::Ordering)
    ensures
        r == core::cmp::Ordering::Less <==> *b < *a,
        r == core::cmp::Ordering::Equal <==> *a == *b,
        r == core::cmp::Ordering::Greater <==> *a < *b,
{
    if *b < *a {
        core::cmp::Ordering::Less
    } else if *a == *b {
        core::cmp::Ordering::Equal
    } else {
        core::cmp::Ordering::Greater
    }
}

/// Relies on `permutation::permutation::sort_by`: with a comparator that is
/// a total order (here the descending order on `u64`), it returns the
/// permutation that sorts the slice by that order, computed by a stable
/// sort of the source indices, so equal keys stay in source order.
#[verifier::external_body]
pub(crate) fn sort_perm_desc(keys: &Vec<u64>) -> (p: permutation::Permutation)
    ensures
        is_perm(perm_sources(p), keys@.len() as int),
        forall|d1: int, d2: int|
            0 <= d1 < d2 < keys@.len() ==> keys@[perm_sources(p)[d1] as int]
                >= keys@[perm_sources(p)[d2] as int],
        forall|d1: int, d2: int|
            0 <= d1 < d2 < keys@.len() && keys@[perm_sources(p)[d1] as int] == keys@[perm_sources(
                p,
            )[d2] as int] ==> perm_sources(p)[d1] < perm_sources(p)[d2],
{
    permutation::permutation::sort_by(keys.as_slice(), |a: &u64, b: &u64| desc_order(a, b))
}

/// Relies on `permutation::Permutation::len`: the number of positions the
/// permutation acts on.
#[verifier::external_body]
pub(crate) fn perm_len(p: &permutation::Permutation) -> (n: usize)
    ensures
        n == perm_sources(*p).len(),
{
    p.len()
}

/// Relies on `permutation::Permutation::apply_inv_idx`: for a permutation in
/// the backward form produced by the crate's sort functions, it returns the
/// source position whose element the permutation sends to destination `d`.
#[verifier::external_body]
pub(crate) fn perm_source_of(p: &permutation::Permutation, d: usize) -> (s: usize)
    requires
        d < perm_sources(*p).len(),
    ensures
        s == perm_sources(*p)[d as int],
{
    p.apply_inv_idx(d)
}

/// Reads a whole permutation out into a plain index vector, destination by
/// destination.
pub(crate) fn perm_to_indices(p: &permutation::Permutation) -> (r: Vec<usize>)
    ensures
        r@ == perm_sources(*p),
{
    let n = perm_len(p);
    let mut r: Vec<usize> = Vec::new();
    let mut d: usize = 0;
    while d < n
        invariant
            d <= n,
            n == perm_sources(*p).len(),
            r@ == perm_sources(*p).take(d as int),
        decreases n - d,
    {
        let s = perm_source_of(p, d);
        r.push(s);
        proof {
            assert(r@ =~= perm_sources(*p).take(d + 1));
        }
        d = d + 1;
    }
    proof {
        assert(r@ =~= perm_sources(*p));
    }
    r
}

/// Decides whether `indices` is a permutation of `0..n`: every entry in
/// range and no entry repeated.
pub fn check_perm(indices: &Vec<usize>, n: usize) -> (b: bool)
    ensures
        b == is_perm(indices@, n as int),
{
    if indices.len() != n {
        return false;
    }
    let mut seen: Vec<bool> = vec![false; n];
    let mut i: usize = 0;
    while i < n
        invariant
            i <= n,
            n == indices@.len(),
            seen@.len() == n,
            forall|k: int| 0 <= k < i ==> (#[trigger] indices@[k]) < n,
            forall|j: int|
                0 <= j < n ==> (#[trigger] seen@[j] == exists|k: int|
                    0 <= k < i && indices@[k] == j),
            forall|k1: int, k2: int| 0 <= k1 < k2 < i ==> indices@[k1] != indices@[k2],
        decreases n - i,
    {
        let ix = indices[i];
        if ix >= n {
            return false;
        }
        if seen[ix] {
            proof {
                let k = choose|k: int| 0 <= k < i && indices@[k] == ix;
                assert(indices@[k] == indices@[i as int]);
            }
            return false;
        }
        seen.set(ix, true);
        i = i + 1;
    }
    true
}

/// Builds a new column whose entry at each destination is the entry of
/// `col` at the source position the permutation names, copying the values.
pub(crate) fn gather_u64(col: &Vec<u64>, indices: &Vec<usize>) -> (r: Vec<u64>)
    requires
        forall|d: int| 0 <= d < indices@.len() ==> (#[trigger] indices@[d]) < col@.len(),
    ensures
        r@ == reorder(col@, indices@),
{
    let n = indices.len();
    let mut r: Vec<u64> = Vec::new();
    let mut d: usize = 0;
    while d < n
        invariant
            d <= n,
            n == indices@.len(),
            forall|k: int| 0 <= k < n ==> (#[trigger] indices@[k]) < col@.len(),
            r@ == reorder(col@, indices@).take(d as int),
        decreases n - d,
    {
        let s = indices[d];
        r.push(col[s]);
        proof {
            assert(r@ =~= reorder(col@, indices@).take(d + 1));
        }
        d = d + 1;
    }
    proof {
        assert(r@ =~= reorder(col@, indices@));
    }
    r
}

/// Builds a new column as `gather_u64` does, cloning each string.
pub(crate) fn gather_strings(col: &Vec<String>, indices: &Vec<usize>) -> (r: Vec<String>)
    requires
        forall|d: int| 0 <= d < indices@.len() ==> (#[trigger] indices@[d]) < col@.len(),
    ensures
        r@.len() == indices@.len(),
        forall|d: int|
            0 <= d < indices@.len() ==> (#[trigger] r@[d])@ == col@[indices@[d] as int]@,
{
    let n = indices.len();
    let mut r: Vec<String> = Vec::new();
    let mut d: usize = 0;
    while d < n
        invariant
            d <= n,
            n == indices@.len(),
            forall|k: int| 0 <= k < n ==> (#[trigger] indices@[k]) < col@.len(),
            r@.len() == d,
            forall|k: int| 0 <= k < d ==> (#[trigger] r@[k])@ == col@[indices@[k] as int]@,
        decreases n - d,
    {
        let s = indices[d];
        r.push(col[s].clone());
        d = d + 1;
    }
    r
}

/// Reordering a sequence by a permutation leaves its multiset of elements
/// unchanged: what comes out of a sort or an index application is a
/// rearrangement of what went in, with nothing copied or dropped.
pub proof fn lemma_reorder_multiset<A>(s: Seq<A>, p: Seq<usize>)
    requires
        is_perm(p, s.len() as int),
    ensures
        reorder(s, p).to_multiset() == s.to_multiset(),
    decreases p.len(),
{
    broadcast use vstd::seq_lib::group_to_multiset_ensures;

    if p.len() == 0 {
        assert(reorder(s, p) =~= s);
    } else {
        let n = p.len() as int;
        let last_src = p[n - 1] as int;
        let s2 = s.remove(last_src);
        let p2 = p.drop_last().map_values(
            |u: usize| if u as int > last_src { (u - 1) as usize } else { u },
        );
        assert forall|d1: int, d2: int| 0 <= d1 < d2 < n - 1 implies p2[d1] != p2[d2] by {
            assert(p[d1] != p[d2]);
            assert(p[d1] != p[n - 1] && p[d2] != p[n - 1]);
        }
        assert forall|d: int| 0 <= d < n - 1 implies (#[trigger] p2[d]) < (n - 1) as int by {
            assert(p[d] != p[n - 1]);
        }
        assert(is_perm(p2, n - 1));
        assert forall|d: int| 0 <= d < n - 1 implies reorder(s, p).drop_last()[d] == reorder(
            s2,
            p2,
        )[d] by {
            assert(p[d] != p[n - 1]);
            if p[d] as int > last_src {
                assert(s2[p2[d] as int] == s[p[d] as int]);
            } else {
                assert(s2[p2[d] as int] == s[p[d] as int]);
            }
        }
        assert(reorder(s, p).drop_last() =~= reorder(s2, p2));
        lemma_reorder_multiset(s2, p2);
        assert(reorder(s, p) =~= reorder(s, p).drop_last().push(s[last_src]));
        assert(reorder(s, p).to_multiset() =~= s2.to_multiset().insert(s[last_src]));
        assert(s2.to_multiset() =~= s.to_multiset().remove(s[last_src]));
        assert(s.contains(s[last_src]));
        assert(s.to_multiset().count(s[last_src]) > 0);
        assert(s.to_multiset().remove(s[last_src]).insert(s[last_src]) =~= s.to_multiset());
    }
}

} // verus!
