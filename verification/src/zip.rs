//! The zip construct: a lockstep walk over a chosen set of field columns
//! and externally supplied sequences, stopping at the first exhausted
//! source. Each combination of sources is its own function, so selecting
//! the same column both mutably and immutably cannot be written.

use vstd::prelude::*;

verus! {

/// Zips two columns in lockstep: exactly `min` of the two lengths pairs of
/// references, the pair at `i` borrowing both columns at `i`.
pub fn zip2<'a, A, B>(a: &'a Vec<A>, b: &'a Vec<B>) -> (r: Vec<(&'a A, &'a B)>)
    ensures
        r@.len() == if a@.len() <= b@.len() {
            a@.len()
        } else {
            b@.len()
        },
        forall|i: int| 0 <= i < r@.len() ==> *(#[trigger] r@[i]).0 == a@[i] && *r@[i].1 == b@[i],
{
    let n = if a.len() <= b.len() {
        a.len()
    } else {
        b.len()
    };
    let mut r: Vec<(&'a A, &'a B)> = Vec::new();
    let mut i: usize = 0;
    while i < n
        invariant
            i <= n,
            n <= a@.len(),
            n <= b@.len(),
            r@.len() == i,
            forall|k: int| 0 <= k < i ==> *(#[trigger] r@[k]).0 == a@[k] && *r@[k].1 == b@[k],
        decreases n - i,
    {
        r.push((&a[i], &b[i]));
        i = i + 1;
    }
    r
}

/// Zips two columns and one external sequence in lockstep: exactly the
/// smallest of the three lengths triples of references.
pub fn zip3<'a, A, B, C>(a: &'a Vec<A>, b: &'a Vec<B>, c: &'a Vec<C>) -> (r: Vec<
    (&'a A, &'a B, &'a C),
>)
    ensures
        r@.len() <= a@.len() && r@.len() <= b@.len() && r@.len() <= c@.len(),
        r@.len() == a@.len() || r@.len() == b@.len() || r@.len() == c@.len(),
        forall|i: int|
            0 <= i < r@.len() ==> *(#[trigger] r@[i]).0 == a@[i] && *r@[i].1 == b@[i] && *r@[i].2
                == c@[i],
{
    let nab = if a.len() <= b.len() {
        a.len()
    } else {
        b.len()
    };
    let n = if nab <= c.len() {
        nab
    } else {
        c.len()
    };
    let mut r: Vec<(&'a A, &'a B, &'a C)> = Vec::new();
    let mut i: usize = 0;
    while i < n
        invariant
            i <= n,
            n <= a@.len(),
            n <= b@.len(),
            n <= c@.len(),
            n == a@.len() || n == b@.len() || n == c@.len(),
            r@.len() == i,
            forall|k: int|
                0 <= k < i ==> *(#[trigger] r@[k]).0 == a@[k] && *r@[k].1 == b@[k] && *r@[k].2
                    == c@[k],
        decreases n - i,
    {
        r.push((&a[i], &b[i], &c[i]));
        i = i + 1;
    }
    r
}

} // verus!
