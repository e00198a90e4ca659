use soa::nested::{Particle, ParticleVec};
use soa::refs::Point;
use soa::schema::{FieldDef, GeneratedKind, RecordSchema, VariantAttr};
use soa::vec::PointVec;
use soa::zip::{zip2, zip3};

#[test]
fn zip_stops_at_first_exhausted_source() {
    let mut v = PointVec::new();
    for i in 0..4u64 {
        v.push(Point { x: i, y: 10 + i });
    }
    // an external sequence shorter than the columns bounds the zip
    let ext: Vec<&'static str> = vec!["p", "q"];
    let z = zip3(&v.x, &v.y, &ext);
    assert_eq!(z.len(), 2);
    assert_eq!((*z[0].0, *z[0].1, *z[0].2), (0, 10, "p"));
    assert_eq!((*z[1].0, *z[1].1, *z[1].2), (1, 11, "q"));
}

#[test]
fn zip_two_columns() {
    let mut v = ParticleVec::new();
    v.push(Particle { point: Point { x: 0, y: 0 }, mass: 5, name: "a".to_string() });
    v.push(Particle { point: Point { x: 0, y: 0 }, mass: 6, name: "b".to_string() });
    let z = zip2(&v.mass, &v.name);
    assert_eq!(z.len(), 2);
    assert_eq!(*z[0].0, 5);
    assert_eq!(z[1].1.as_str(), "b");
}

#[test]
fn zip_empty_source_yields_nothing() {
    let a: Vec<u64> = vec![1, 2, 3];
    let b: Vec<u64> = Vec::new();
    assert_eq!(zip2(&a, &b).len(), 0);
}

#[test]
fn naming_scheme_appends_kind_suffixes() {
    let fields = vec![
        FieldDef { name: "smell".to_string(), nested: false },
        FieldDef { name: "color".to_string(), nested: false },
    ];
    let schema = RecordSchema::new("Cheese".to_string(), fields).unwrap();
    let names = schema.family_names();
    let expect = vec![
        "CheeseVec",
        "CheeseSlice",
        "CheeseSliceMut",
        "CheeseRef",
        "CheeseRefMut",
        "CheesePtr",
        "CheesePtrMut",
        "CheeseIter",
        "CheeseIterMut",
    ];
    let got: Vec<&str> = names.iter().map(|s| s.as_str()).collect();
    assert_eq!(got, expect);
    // the nine names are pairwise distinct for one base name
    for i in 0..names.len() {
        for j in 0..names.len() {
            if i != j {
                assert_ne!(names[i], names[j]);
            }
        }
    }
}

#[test]
fn resolve_name_single_kind() {
    assert_eq!(soa::schema::resolve_name("Point", GeneratedKind::Owning).as_str(), "PointVec");
    assert_eq!(soa::schema::resolve_name("Point", GeneratedKind::RefMut).as_str(), "PointRefMut");
}

#[test]
fn schema_rejects_duplicate_field_names() {
    let fields = vec![
        FieldDef { name: "x".to_string(), nested: false },
        FieldDef { name: "y".to_string(), nested: true },
        FieldDef { name: "x".to_string(), nested: false },
    ];
    assert!(RecordSchema::new("P".to_string(), fields).is_none());
    let ok = vec![
        FieldDef { name: "x".to_string(), nested: false },
        FieldDef { name: "y".to_string(), nested: true },
    ];
    let s = RecordSchema::new("P".to_string(), ok).unwrap();
    assert_eq!(s.fields.len(), 2);
    assert!(s.fields[1].nested);
    assert_eq!(s.name.as_str(), "P");
}

#[test]
fn schema_carries_attributes_opaquely() {
    let fields = vec![FieldDef { name: "x".to_string(), nested: false }];
    let mut s = RecordSchema::new("P".to_string(), fields).unwrap();
    assert!(s.attrs.is_empty());
    s.push_attr(VariantAttr { kind: GeneratedKind::Owning, attr: "derive(Debug)".to_string() });
    s.push_attr(VariantAttr { kind: GeneratedKind::Ref, attr: "derive(Clone)".to_string() });
    assert_eq!(s.attrs.len(), 2);
    assert_eq!(s.attrs[0].attr.as_str(), "derive(Debug)");
    assert!(matches!(s.attrs[1].kind, GeneratedKind::Ref));
}
