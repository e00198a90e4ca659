use soa::refs::Point;
use soa::vec::PointVec;
use soa::SoaError;

fn sample() -> PointVec {
    let mut v = PointVec::new();
    v.push(Point { x: 30, y: 1 });
    v.push(Point { x: 10, y: 2 });
    v.push(Point { x: 20, y: 3 });
    v
}

#[test]
fn sort_by_x_ascending() {
    let mut v = sample();
    let ix = v.sort_by_x();
    assert_eq!(v.x, vec![10, 20, 30]);
    assert_eq!(v.y, vec![2, 3, 1]);
    // the returned permutation maps destinations to sources
    assert_eq!(ix, vec![1, 2, 0]);
}

#[test]
fn sort_by_keys_descending() {
    let mut v = sample();
    let keys = v.x.clone();
    let ix = v.sort_desc_by_keys(&keys);
    assert_eq!(v.x, vec![30, 20, 10]);
    assert_eq!(v.y, vec![1, 3, 2]);
    assert_eq!(ix, vec![0, 2, 1]);
}

#[test]
fn sort_is_stable_on_equal_keys() {
    let mut v = PointVec::new();
    v.push(Point { x: 5, y: 0 });
    v.push(Point { x: 5, y: 1 });
    v.push(Point { x: 1, y: 2 });
    v.push(Point { x: 5, y: 3 });
    let keys = v.x.clone();
    v.sort_by_keys(&keys);
    assert_eq!(v.x, vec![1, 5, 5, 5]);
    // equal keys keep their original relative order
    assert_eq!(v.y, vec![2, 0, 1, 3]);

    let mut w = PointVec::new();
    w.push(Point { x: 5, y: 0 });
    w.push(Point { x: 9, y: 1 });
    w.push(Point { x: 5, y: 2 });
    let wkeys = w.x.clone();
    w.sort_desc_by_keys(&wkeys);
    assert_eq!(w.x, vec![9, 5, 5]);
    assert_eq!(w.y, vec![1, 0, 2]);
}

#[test]
fn sort_preserves_elements() {
    let mut v = PointVec::new();
    let data = [(4u64, 40u64), (2, 20), (4, 41), (1, 10), (3, 30)];
    for (x, y) in data {
        v.push(Point { x, y });
    }
    let keys = v.x.clone();
    v.sort_by_keys(&keys);
    let mut seen: Vec<(u64, u64)> = v.x.iter().zip(v.y.iter()).map(|(a, b)| (*a, *b)).collect();
    let mut expect: Vec<(u64, u64)> = data.to_vec();
    seen.sort();
    expect.sort();
    assert_eq!(seen, expect);
}

#[test]
fn apply_index_reorders_every_column() {
    let mut v = sample();
    let indices: Vec<usize> = vec![2, 0, 1];
    v.apply_index(&indices);
    assert_eq!(v.x, vec![20, 30, 10]);
    assert_eq!(v.y, vec![3, 1, 2]);
}

#[test]
fn try_apply_index_rejects_non_permutation() {
    let mut v = sample();
    // repeated entry
    assert_eq!(v.try_apply_index(&vec![0, 0, 1]), Err(SoaError::OutOfRange));
    // entry out of range
    assert_eq!(v.try_apply_index(&vec![0, 1, 3]), Err(SoaError::OutOfRange));
    // wrong length
    assert_eq!(v.try_apply_index(&vec![0, 1]), Err(SoaError::OutOfRange));
    // container unchanged by the rejected calls
    assert_eq!(v.x, vec![30, 10, 20]);
    // a real permutation is accepted
    assert_eq!(v.try_apply_index(&vec![1, 2, 0]), Ok(()));
    assert_eq!(v.x, vec![10, 20, 30]);
}

#[test]
fn check_perm_decides() {
    assert!(soa::perm::check_perm(&vec![0, 1, 2], 3));
    assert!(soa::perm::check_perm(&vec![2, 1, 0], 3));
    assert!(!soa::perm::check_perm(&vec![1, 1, 0], 3));
    assert!(!soa::perm::check_perm(&vec![0, 1, 3], 3));
    assert!(!soa::perm::check_perm(&vec![0, 1], 3));
    assert!(soa::perm::check_perm(&vec![], 0));
}
