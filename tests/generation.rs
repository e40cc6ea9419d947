use autoget::generate::{check_fields, classify, diagnose_field, generate, FieldClass};
use autoget::model::{
    AccessorKind, Anchor, Diagnostic, DiagnosticKind, FieldDescriptor, Shape,
    StructureDescriptor,
};
use autoget::render::{expand, render_accessor, render_block};

fn named(name: &str, ty: &str, markers: &[&str]) -> FieldDescriptor {
    FieldDescriptor {
        name: Some(name.to_string()),
        ty: ty.to_string(),
        markers: markers.iter().map(|m| m.to_string()).collect(),
    }
}

fn positional(ty: &str, markers: &[&str]) -> FieldDescriptor {
    FieldDescriptor {
        name: None,
        ty: ty.to_string(),
        markers: markers.iter().map(|m| m.to_string()).collect(),
    }
}

fn structure(name: &str, fields: Vec<FieldDescriptor>) -> StructureDescriptor {
    StructureDescriptor { name: name.to_string(), shape: Shape::Struct, fields }
}

fn names(decl: &StructureDescriptor) -> Vec<String> {
    generate(decl).unwrap().iter().map(|a| a.function_name.clone()).collect()
}

#[test]
fn unmarked_fields_get_pairs_in_order() {
    let decl = structure(
        "Point",
        vec![named("x", "i32", &[]), named("y", "i32", &[]), named("label", "String", &[])],
    );
    let accs = generate(&decl).unwrap();
    assert_eq!(accs.len(), 6);
    assert_eq!(names(&decl), vec!["x", "x_mut", "y", "y_mut", "label", "label_mut"]);
    for (i, a) in accs.iter().enumerate() {
        assert_eq!(a.field, i / 2);
        let expected = if i % 2 == 0 { AccessorKind::ReadOnly } else { AccessorKind::Mutable };
        assert_eq!(a.kind, expected);
    }
    assert_eq!(accs[4].return_type, "String");
    assert_eq!(accs[4].member, "label");
}

#[test]
fn excluded_field_gets_no_accessor() {
    let decl = structure("S", vec![named("a", "u8", &["exclude"]), named("b", "u8", &[])]);
    let accs = generate(&decl).unwrap();
    assert!(accs.iter().all(|a| a.field != 0));
    assert_eq!(names(&decl), vec!["b", "b_mut"]);
}

#[test]
fn no_mut_field_gets_only_read_only_accessor() {
    let decl = structure("S", vec![named("a", "u8", &["no_mut"]), named("b", "u8", &[])]);
    let accs = generate(&decl).unwrap();
    let of_a: Vec<_> = accs.iter().filter(|a| a.field == 0).collect();
    assert_eq!(of_a.len(), 1);
    assert_eq!(of_a[0].kind, AccessorKind::ReadOnly);
    assert_eq!(of_a[0].function_name, "a");
}

#[test]
fn both_markers_conflict() {
    let decl = structure(
        "S",
        vec![named("a", "u8", &[]), named("b", "u8", &["no_mut", "exclude"])],
    );
    let err = generate(&decl).unwrap_err();
    assert_eq!(
        err,
        vec![Diagnostic { kind: DiagnosticKind::ConflictingAnnotations, anchor: Anchor::Field(1) }]
    );
    assert!(expand(&decl).is_err());
}

#[test]
fn every_conflict_is_reported() {
    let decl = structure(
        "S",
        vec![
            named("a", "u8", &["exclude", "no_mut"]),
            named("b", "u8", &[]),
            named("c", "u8", &["no_mut", "exclude"]),
        ],
    );
    let err = generate(&decl).unwrap_err();
    assert_eq!(
        err,
        vec![
            Diagnostic { kind: DiagnosticKind::ConflictingAnnotations, anchor: Anchor::Field(0) },
            Diagnostic { kind: DiagnosticKind::ConflictingAnnotations, anchor: Anchor::Field(2) },
        ]
    );
}

#[test]
fn enumeration_is_wrong_shape() {
    let decl = StructureDescriptor {
        name: "E".to_string(),
        shape: Shape::Enum,
        fields: vec![],
    };
    let err = generate(&decl).unwrap_err();
    assert_eq!(err, vec![Diagnostic { kind: DiagnosticKind::WrongShape, anchor: Anchor::Declaration }]);
    assert_eq!(err[0].message(), "AutoGet only works on structs");
    let union_decl = StructureDescriptor { name: "U".to_string(), shape: Shape::Union, fields: vec![] };
    assert_eq!(generate(&union_decl).unwrap_err()[0].kind, DiagnosticKind::WrongShape);
}

#[test]
fn generation_is_repeatable() {
    let decl = structure("S", vec![named("a", "Vec<u8>", &["no_mut"]), named("b", "u8", &[])]);
    let first = expand(&decl).unwrap();
    let second = expand(&decl.clone()).unwrap();
    assert_eq!(first, second);
}

#[test]
fn something_scenario() {
    let decl = structure(
        "Something",
        vec![
            named("test", "String", &[]),
            named("test2", "String", &["exclude"]),
            named("test3", "String", &["no_mut"]),
        ],
    );
    assert_eq!(names(&decl), vec!["test", "test_mut", "test3"]);
    assert_eq!(
        expand(&decl).unwrap(),
        "impl Something { pub fn test(&self) -> &String { &self.test } \
         pub fn test_mut(&mut self) -> &mut String { &mut self.test } \
         pub fn test3(&self) -> &String { &self.test3 } }"
    );
}

#[test]
fn zero_fields_give_empty_block() {
    let decl = structure("Empty", vec![]);
    assert!(generate(&decl).unwrap().is_empty());
    assert_eq!(expand(&decl).unwrap(), "impl Empty { }");
}

#[test]
fn all_excluded_give_empty_block() {
    let decl = structure("S", vec![named("a", "u8", &["exclude"])]);
    assert_eq!(expand(&decl).unwrap(), "impl S { }");
}

#[test]
fn unknown_markers_are_ignored() {
    let decl = structure("S", vec![named("a", "u8", &["doc", "serde"])]);
    assert_eq!(names(&decl), vec!["a", "a_mut"]);
}

#[test]
fn newtype_gets_inner_accessors() {
    let decl = structure("Meters", vec![positional("f64", &[])]);
    assert_eq!(
        expand(&decl).unwrap(),
        "impl Meters { pub fn inner(&self) -> &f64 { &self.0 } \
         pub fn inner_mut(&mut self) -> &mut f64 { &mut self.0 } }"
    );
}

#[test]
fn positional_fields_among_several_get_none() {
    let decl = structure("Pair", vec![positional("u8", &[]), positional("u16", &[])]);
    assert!(generate(&decl).unwrap().is_empty());
}

#[test]
fn marked_positional_field_is_refused() {
    let decl = structure("Meters", vec![positional("f64", &["no_mut"])]);
    let err = generate(&decl).unwrap_err();
    assert_eq!(
        err,
        vec![Diagnostic { kind: DiagnosticKind::UnsupportedPositionalUsage, anchor: Anchor::Field(0) }]
    );
    assert_eq!(err[0].message(), "Can't use AutoGet on tuple structs!");
    let both = structure("Meters", vec![positional("f64", &["exclude", "no_mut"])]);
    let kinds: Vec<_> = generate(&both).unwrap_err().iter().map(|d| d.kind).collect();
    assert_eq!(
        kinds,
        vec![DiagnosticKind::UnsupportedPositionalUsage, DiagnosticKind::ConflictingAnnotations]
    );
}

#[test]
fn messages_of_each_kind() {
    let d = Diagnostic { kind: DiagnosticKind::ConflictingAnnotations, anchor: Anchor::Field(0) };
    assert_eq!(d.message(), "Can't use 2 attributes at the same time!");
}

#[test]
fn classify_reads_markers() {
    let c = classify(&named("a", "u8", &["exclude", "no_mut"]));
    assert_eq!(c, FieldClass { no_mut: true, exclude: true });
    assert!(c.is_double_attribute());
    let c = classify(&named("a", "u8", &["no_mut"]));
    assert!(!c.is_double_attribute());
    let fields = vec![named("a", "u8", &["no_mut"]), named("b", "u8", &["no_mut", "exclude"])];
    assert!(diagnose_field(&fields, 0).is_empty());
    assert_eq!(diagnose_field(&fields, 1).len(), 1);
    assert!(check_fields(&fields).is_err());
    let ok = check_fields(&vec![named("a", "u8", &["no_mut"])]).unwrap();
    assert_eq!(ok, vec![FieldClass { no_mut: true, exclude: false }]);
}

#[test]
fn render_single_accessors() {
    let decl = structure("S", vec![named("v", "Vec<u8>", &[])]);
    let accs = generate(&decl).unwrap();
    assert_eq!(render_accessor(&accs[0]), "pub fn v(&self) -> &Vec<u8> { &self.v }");
    assert_eq!(render_accessor(&accs[1]), "pub fn v_mut(&mut self) -> &mut Vec<u8> { &mut self.v }");
    assert_eq!(render_block(&"T".to_string(), &vec![]), "impl T { }");
}
