use soa::nested::{Particle, ParticleVec};
use soa::refs::Point;
use soa::SoaError;

fn particle(x: u64, mass: u64, name: &str) -> Particle {
    Particle { point: Point { x, y: x + 1 }, mass, name: name.to_string() }
}

fn nested_lengths_agree(v: &ParticleVec) -> bool {
    v.point.len() == v.len() && v.mass.len() == v.len() && v.name.len() == v.len()
}

#[test]
fn nested_consistency_after_each_operation() {
    let mut v = ParticleVec::new();
    assert!(nested_lengths_agree(&v));
    v.push(particle(1, 10, "a"));
    assert!(nested_lengths_agree(&v));
    v.push(particle(2, 20, "b"));
    assert!(nested_lengths_agree(&v));
    v.insert(1, particle(3, 30, "c")).unwrap();
    assert!(nested_lengths_agree(&v));
    let _ = v.remove(0).unwrap();
    assert!(nested_lengths_agree(&v));
    let _ = v.pop();
    assert!(nested_lengths_agree(&v));
    v.truncate(0);
    assert!(nested_lengths_agree(&v));
    let mut w = ParticleVec::new();
    w.push(particle(4, 40, "d"));
    v.append(&mut w);
    assert!(nested_lengths_agree(&v));
    assert!(nested_lengths_agree(&w));
    // a rejected operation leaves the nested family in lockstep too
    assert_eq!(v.insert(9, particle(0, 0, "z")), Err(SoaError::OutOfRange));
    assert!(nested_lengths_agree(&v));
    v.clear();
    assert!(nested_lengths_agree(&v));
}

#[test]
fn nested_push_pop_round_trip() {
    let mut v = ParticleVec::new();
    v.push(particle(1, 10, "a"));
    let r = particle(9, 90, "i");
    v.push(r.clone());
    let last = v.pop();
    assert_eq!(last, Some(r));
    assert_eq!(v.len(), 1);
}

#[test]
fn nested_insert_remove_inverse() {
    let mut v = ParticleVec::new();
    v.push(particle(1, 10, "a"));
    v.push(particle(2, 20, "b"));
    let r = particle(5, 50, "e");
    v.insert(1, r.clone()).unwrap();
    let r2 = v.remove(1).unwrap();
    assert_eq!(r2, r);
    assert_eq!(v.mass, vec![10, 20]);
    assert_eq!(v.name, vec!["a".to_string(), "b".to_string()]);
    assert_eq!(v.point.x, vec![1, 2]);
}

#[test]
fn nested_proxy_exposes_inner_proxy() {
    let mut v = ParticleVec::new();
    v.push(particle(1, 10, "a"));
    v.push(particle(2, 20, "b"));
    let p = v.index(1);
    assert_eq!(*p.point.x, 2);
    assert_eq!(*p.point.y, 3);
    assert_eq!(*p.mass, 20);
    assert_eq!(p.name.as_str(), "b");
    assert!(v.get(2).is_none());
    assert_eq!(*v.get(0).unwrap().mass, 10);
}

#[test]
fn nested_split_off() {
    let mut v = ParticleVec::new();
    for i in 0..4u64 {
        v.push(particle(i, i * 10, "p"));
    }
    let tail = v.split_off(1).unwrap();
    assert_eq!(v.len(), 1);
    assert_eq!(tail.len(), 3);
    assert!(nested_lengths_agree(&v));
    assert!(nested_lengths_agree(&tail));
    assert_eq!(tail.mass, vec![10, 20, 30]);
    assert_eq!(tail.point.x, vec![1, 2, 3]);
}

#[test]
fn scenario_sort_descending_then_remove() {
    // push three records, sort descending on the numeric field, remove the
    // middle one
    let mut c = ParticleVec::new();
    c.push(particle(0, 1, "a"));
    c.push(particle(0, 2, "b"));
    c.push(particle(0, 3, "c"));
    c.sort_desc_by_mass();
    assert_eq!(c.mass, vec![3, 2, 1]);
    assert_eq!(c.name, vec!["c".to_string(), "b".to_string(), "a".to_string()]);
    let removed = c.remove(1).unwrap();
    assert_eq!(removed.mass, 2);
    assert_eq!(removed.name.as_str(), "b");
    assert_eq!(c.mass, vec![3, 1]);
    assert_eq!(c.name, vec!["c".to_string(), "a".to_string()]);
}

#[test]
fn nested_sort_moves_inner_family_in_lockstep() {
    let mut v = ParticleVec::new();
    v.push(particle(7, 30, "c"));
    v.push(particle(8, 10, "a"));
    v.push(particle(9, 20, "b"));
    let ix = v.sort_by_mass();
    assert_eq!(v.mass, vec![10, 20, 30]);
    assert_eq!(v.point.x, vec![8, 9, 7]);
    assert_eq!(v.point.y, vec![9, 10, 8]);
    assert_eq!(v.name, vec!["a".to_string(), "b".to_string(), "c".to_string()]);
    assert_eq!(ix, vec![1, 2, 0]);
    assert!(nested_lengths_agree(&v));
}

#[test]
fn nested_apply_index() {
    let mut v = ParticleVec::new();
    v.push(particle(1, 10, "a"));
    v.push(particle(2, 20, "b"));
    v.push(particle(3, 30, "c"));
    v.apply_index(&vec![2, 0, 1]);
    assert_eq!(v.mass, vec![30, 10, 20]);
    assert_eq!(v.name, vec!["c".to_string(), "a".to_string(), "b".to_string()]);
    assert_eq!(v.point.x, vec![3, 1, 2]);
}

#[test]
fn nested_view_and_reslice() {
    let mut v = ParticleVec::new();
    for i in 0..4u64 {
        v.push(particle(i, i * 10, "p"));
    }
    let s = v.as_slice();
    assert_eq!(s.len(), 4);
    assert!(!s.is_empty());
    assert_eq!(*s.index(2).mass, 20);
    assert_eq!(*s.index(2).point.x, 2);
    assert_eq!(*s.first().unwrap().mass, 0);
    assert_eq!(*s.last().unwrap().mass, 30);
    assert!(s.get(4).is_none());
    let w = s.slice(1, 3).unwrap();
    assert_eq!(w.len(), 2);
    assert_eq!(*w.index(0).mass, 10);
    assert_eq!(*w.index(0).point.y, 2);
    assert_eq!(w.slice(1, 3).unwrap_err(), SoaError::OutOfRange);
    assert_eq!(v.slice(3, 2).unwrap_err(), SoaError::OutOfRange);
    let inner = v.slice(1, 4).unwrap().slice(0, 1).unwrap();
    assert_eq!(*inner.index(0).mass, 10);
}

#[test]
fn nested_swap_remove_and_replace() {
    let mut v = ParticleVec::new();
    v.push(particle(1, 10, "a"));
    v.push(particle(2, 20, "b"));
    v.push(particle(3, 30, "c"));
    let got = v.swap_remove(0).unwrap();
    assert_eq!(got, particle(1, 10, "a"));
    assert_eq!(v.mass, vec![30, 20]);
    assert_eq!(v.name, vec!["c".to_string(), "b".to_string()]);
    assert_eq!(v.point.x, vec![3, 2]);
    assert!(nested_lengths_agree(&v));
    assert_eq!(v.swap_remove(2).unwrap_err(), SoaError::OutOfRange);

    let prev = v.replace(1, particle(9, 90, "z")).unwrap();
    assert_eq!(prev, particle(2, 20, "b"));
    assert_eq!(v.mass, vec![30, 90]);
    assert_eq!(v.name[1].as_str(), "z");
    assert_eq!(v.point.x, vec![3, 9]);
    assert_eq!(v.replace(2, particle(0, 0, "w")).unwrap_err(), SoaError::OutOfRange);

    assert_eq!(*v.first().unwrap().mass, 30);
    assert_eq!(*v.last().unwrap().mass, 90);
    let empty = ParticleVec::new();
    assert!(empty.first().is_none());
    assert!(empty.last().is_none());
}

#[test]
fn nested_iterator_yields_in_order() {
    let mut v = ParticleVec::new();
    for i in 0..3u64 {
        v.push(particle(i, i * 10, "p"));
    }
    let mut it = v.iter();
    let mut masses: Vec<u64> = Vec::new();
    while let Some(p) = it.next() {
        masses.push(*p.mass);
    }
    assert_eq!(masses, vec![0, 10, 20]);
    assert!(it.next().is_none());
    let s = v.slice(1, 3).unwrap();
    let mut it = s.iter();
    assert_eq!(*it.next().unwrap().mass, 10);
    assert_eq!(*it.next().unwrap().point.x, 2);
    assert!(it.next().is_none());
}

#[test]
fn nested_capacity_management() {
    let mut v = ParticleVec::with_capacity(4);
    assert!(v.is_empty());
    v.push(particle(1, 10, "a"));
    assert!(v.capacity() >= v.len());
    v.reserve(8);
    assert_eq!(v.mass, vec![10]);
    assert!(nested_lengths_agree(&v));
}
