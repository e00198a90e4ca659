use soa::index::SoaRange;
use soa::refs::Point;
use soa::vec::PointVec;
use soa::SoaError;

fn sample() -> PointVec {
    let mut v = PointVec::new();
    for i in 0..5u64 {
        v.push(Point { x: 10 * (i + 1), y: i });
    }
    v
}

#[test]
fn as_slice_covers_all() {
    let v = sample();
    let s = v.as_slice();
    assert_eq!(s.len(), 5);
    assert!(!s.is_empty());
    assert_eq!(*s.index(0).x, 10);
    assert_eq!(*s.last().unwrap().x, 50);
    assert_eq!(*s.first().unwrap().y, 0);
    assert!(s.get(5).is_none());
    assert_eq!(*s.get(4).unwrap().x, 50);
}

#[test]
fn slice_window_and_reslice() {
    let v = sample();
    let s = v.slice(1, 4).unwrap();
    assert_eq!(s.len(), 3);
    assert_eq!(*s.index(0).x, 20);
    assert_eq!(*s.index(2).x, 40);
    // re-slicing must stay within the parent window
    let inner = s.slice(1, 3).unwrap();
    assert_eq!(inner.len(), 2);
    assert_eq!(*inner.index(0).x, 30);
    assert_eq!(s.slice(2, 1).unwrap_err(), SoaError::OutOfRange);
    assert_eq!(s.slice(0, 4).unwrap_err(), SoaError::OutOfRange);
    // an invalid window on the container is rejected
    assert_eq!(v.slice(3, 2).unwrap_err(), SoaError::OutOfRange);
    assert_eq!(v.slice(0, 6).unwrap_err(), SoaError::OutOfRange);
}

#[test]
fn slice_to_vec_copies_window() {
    let v = sample();
    let s = v.slice(2, 5).unwrap();
    let w = s.to_vec();
    assert_eq!(w.x, vec![30, 40, 50]);
    assert_eq!(w.y, vec![2, 3, 4]);
}

#[test]
fn range_shapes_resolve() {
    let v = sample();
    let s = v.slice_range(SoaRange::Span { lo: 1, hi: 3 }).unwrap();
    assert_eq!(s.len(), 2);
    assert_eq!(*s.index(0).x, 20);
    let s = v.slice_range(SoaRange::UpTo { hi: 2 }).unwrap();
    assert_eq!(s.len(), 2);
    assert_eq!(*s.index(0).x, 10);
    let s = v.slice_range(SoaRange::From { lo: 3 }).unwrap();
    assert_eq!(s.len(), 2);
    assert_eq!(*s.index(0).x, 40);
    let s = v.slice_range(SoaRange::Full).unwrap();
    assert_eq!(s.len(), 5);
    let s = v.slice_range(SoaRange::SpanInclusive { lo: 1, hi: 3 }).unwrap();
    assert_eq!(s.len(), 3);
    assert_eq!(*s.index(2).x, 40);
    let s = v.slice_range(SoaRange::UpToInclusive { hi: 4 }).unwrap();
    assert_eq!(s.len(), 5);
}

#[test]
fn range_shapes_rejected_out_of_bounds() {
    let v = sample();
    assert_eq!(v.slice_range(SoaRange::Span { lo: 2, hi: 1 }).unwrap_err(), SoaError::OutOfRange);
    assert_eq!(v.slice_range(SoaRange::Span { lo: 0, hi: 6 }).unwrap_err(), SoaError::OutOfRange);
    assert_eq!(v.slice_range(SoaRange::UpTo { hi: 6 }).unwrap_err(), SoaError::OutOfRange);
    assert_eq!(v.slice_range(SoaRange::From { lo: 6 }).unwrap_err(), SoaError::OutOfRange);
    assert_eq!(
        v.slice_range(SoaRange::SpanInclusive { lo: 0, hi: 5 }).unwrap_err(),
        SoaError::OutOfRange
    );
    assert_eq!(
        v.slice_range(SoaRange::UpToInclusive { hi: 5 }).unwrap_err(),
        SoaError::OutOfRange
    );
}

#[test]
fn mutable_view_set_and_get() {
    let mut v = sample();
    {
        let w = v.slice_mut(1, 4);
        assert_eq!(w.get(0), Some(Point { x: 20, y: 1 }));
        assert_eq!(w.get(3), None);
    }
    {
        let w = v.slice_mut(1, 4);
        w.set(1, Point { x: 99, y: 99 });
    }
    // only position 2 of the container changed
    assert_eq!(v.x, vec![10, 20, 99, 40, 50]);
    assert_eq!(v.y, vec![0, 1, 99, 3, 4]);
    {
        let w = v.slice_mut(0, 5);
        let m = w.get_mut(4);
        *m.x = 51;
    }
    assert_eq!(v.x, vec![10, 20, 99, 40, 51]);
}

#[test]
fn mutable_view_sort_leaves_outside_unchanged() {
    let mut v = PointVec::new();
    for (x, y) in [(9u64, 0u64), (3, 1), (1, 2), (2, 3), (7, 4)] {
        v.push(Point { x, y });
    }
    {
        let w = v.slice_mut(1, 4);
        let keys = vec![3u64, 1, 2];
        w.sort_by_keys(&keys);
    }
    // the window [1, 4) is sorted by its keys; positions 0 and 4 are untouched
    assert_eq!(v.x, vec![9, 1, 2, 3, 7]);
    assert_eq!(v.y, vec![0, 2, 3, 1, 4]);
}

#[test]
fn iterator_yields_in_order() {
    let v = sample();
    let mut it = v.iter();
    let mut xs: Vec<u64> = Vec::new();
    while let Some(p) = it.next() {
        xs.push(*p.x);
    }
    assert_eq!(xs, vec![10, 20, 30, 40, 50]);
    assert!(it.next().is_none());

    let s = v.slice(2, 4).unwrap();
    let mut it = s.iter();
    assert_eq!(*it.next().unwrap().x, 30);
    assert_eq!(*it.next().unwrap().x, 40);
    assert!(it.next().is_none());
}

#[test]
fn handles_advance_in_lockstep() {
    let mut v = sample();
    let p = soa::ptr::PointPtr::new_at(0);
    let p2 = p.advance(3);
    assert_eq!(p2.x_at, 3);
    assert_eq!(p2.y_at, 3);
    assert!(p.precedes(&p2));
    assert!(!p2.precedes(&p));
    let r = p2.deref(&v);
    assert_eq!(*r.x, 40);
    assert_eq!(*r.y, 3);

    let m = soa::ptr::PointPtrMut::new_at(1).advance(1);
    let mr = m.deref_mut(&mut v);
    *mr.y = 77;
    assert_eq!(v.y, vec![0, 1, 77, 3, 4]);
}

#[test]
fn extend_from_slice_copies_window() {
    let v = sample();
    let mut w = PointVec::new();
    w.push(Point { x: 1, y: 1 });
    let s = v.slice(3, 5).unwrap();
    let n = w.extend_from_slice(&s);
    assert_eq!(n, 2);
    assert_eq!(w.x, vec![1, 40, 50]);
    assert_eq!(w.y, vec![1, 3, 4]);
    // the source container is untouched
    assert_eq!(v.len(), 5);
}
