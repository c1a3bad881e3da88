use builder::record_builder::{describe_fields, FieldDescriptor, RecordBuilder};
use builder::shape::{Field, GenericArg, PathArgs, PathSegment, TypeExpr, TypeKind};

fn plain(name: &str) -> TypeExpr {
    TypeExpr {
        text: name.to_string(),
        kind: TypeKind::Path(vec![PathSegment { ident: name.to_string(), args: PathArgs::Bare }]),
    }
}

fn point_fields() -> Vec<FieldDescriptor> {
    let y_ty = TypeExpr {
        text: "Option<i64>".to_string(),
        kind: TypeKind::Path(vec![PathSegment {
            ident: "Option".to_string(),
            args: PathArgs::AngleBracketed(vec![GenericArg::Type(plain("i64"))]),
        }]),
    };
    describe_fields(&vec![
        Field { name: "x".to_string(), ty: plain("i64") },
        Field { name: "y".to_string(), ty: y_ty },
    ])
}

fn required(names: &[&str]) -> Vec<FieldDescriptor> {
    names.iter().map(|n| FieldDescriptor { name: n.to_string(), optional: false }).collect()
}

#[test]
fn describe_fields_marks_wrappers_optional() {
    let fields = point_fields();
    assert_eq!(fields.len(), 2);
    assert_eq!(fields[0].name, "x");
    assert!(!fields[0].optional);
    assert_eq!(fields[1].name, "y");
    assert!(fields[1].optional);
}

#[test]
fn point_scenario() {
    let mut b: RecordBuilder<i64> = RecordBuilder::new(point_fields());
    assert_eq!(b.get(0), None);
    assert_eq!(b.get(1), None);
    let err = b.build().err().expect("x missing");
    assert_eq!(err.index, 0);
    assert_eq!(err.name, "x");
    assert_eq!(err.message(), "x is not set");

    let x = b.index_of(&"x".to_string()).unwrap();
    b.set(x, 5);
    assert_eq!(b.build().ok().unwrap().values, vec![Some(5), None]);

    let y = b.index_of(&"y".to_string()).unwrap();
    b.set(y, 10);
    assert_eq!(b.build().ok().unwrap().values, vec![Some(5), Some(10)]);

    let mut only_y: RecordBuilder<i64> = RecordBuilder::new(point_fields());
    only_y.set(1, 10);
    assert_eq!(only_y.build().err().unwrap().name, "x");
}

#[test]
fn untouched_required_fields_report_the_first() {
    let b: RecordBuilder<u8> = RecordBuilder::new(required(&["a", "b", "c"]));
    let err = b.build().err().unwrap();
    assert_eq!(err.index, 0);
    assert_eq!(err.name, "a");
}

#[test]
fn first_missing_is_reported_not_all() {
    let mut b: RecordBuilder<u8> = RecordBuilder::new(required(&["a", "b", "c"]));
    b.set(0, 1);
    let err = b.build().err().unwrap();
    assert_eq!(err.index, 1);
    assert_eq!(err.message(), "b is not set");
}

#[test]
fn every_setter_once_in_any_order_builds() {
    let mut b: RecordBuilder<u32> = RecordBuilder::new(required(&["a", "b", "c"]));
    b.set(2, 30);
    b.set(0, 10);
    b.set(1, 20);
    assert_eq!(b.build().ok().unwrap().values, vec![Some(10), Some(20), Some(30)]);
}

#[test]
fn unset_optional_field_stays_absent() {
    let fields = vec![
        FieldDescriptor { name: "a".to_string(), optional: true },
        FieldDescriptor { name: "b".to_string(), optional: false },
    ];
    let mut b: RecordBuilder<i32> = RecordBuilder::new(fields);
    b.set(1, -4);
    assert_eq!(b.build().ok().unwrap().values, vec![None, Some(-4)]);
}

#[test]
fn only_optional_fields_build_when_empty() {
    let fields = vec![FieldDescriptor { name: "a".to_string(), optional: true }];
    let b: RecordBuilder<i32> = RecordBuilder::new(fields);
    assert_eq!(b.build().ok().unwrap().values, vec![None]);
}

#[test]
fn no_fields_builds_an_empty_record() {
    let b: RecordBuilder<i32> = RecordBuilder::new(vec![]);
    assert_eq!(b.len(), 0);
    assert!(b.build().ok().unwrap().values.is_empty());
}

#[test]
fn second_set_wins() {
    let mut b: RecordBuilder<i64> = RecordBuilder::new(point_fields());
    b.set(0, 1);
    b.set(0, 2);
    b.set(1, 3);
    b.set(1, 4);
    assert_eq!(b.build().ok().unwrap().values, vec![Some(2), Some(4)]);
}

#[test]
fn factory_builders_are_independent() {
    let mut a: RecordBuilder<i64> = RecordBuilder::new(point_fields());
    let b: RecordBuilder<i64> = RecordBuilder::new(point_fields());
    a.set(0, 7);
    a.set(1, 8);
    assert_eq!(a.get(0), Some(7));
    assert_eq!(b.get(0), None);
    assert_eq!(b.get(1), None);
    assert_eq!(b.build().err().unwrap().name, "x");
}

#[test]
fn failed_build_can_be_retried() {
    let mut b: RecordBuilder<u8> = RecordBuilder::new(required(&["a"]));
    assert!(b.build().is_err());
    b.set(0, 9);
    assert_eq!(b.build().ok().unwrap().values, vec![Some(9)]);
}

#[test]
fn index_of_unknown_name_is_none() {
    let b: RecordBuilder<u8> = RecordBuilder::new(required(&["a", "a"]));
    assert_eq!(b.index_of(&"a".to_string()), Some(0));
    assert_eq!(b.index_of(&"z".to_string()), None);
}
