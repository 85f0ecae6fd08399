//! The derived conversions: narrowing out of an enum, into a newtype, and dereferencing
//! to a field.

use derive_synth::decl::{
    Attribute, Data, Field, FieldShape, GenericParam, Generics, Meta, NestedMeta,
    TypeDeclaration, Variant,
};
use derive_synth::error::ErrorKind;
use derive_synth::fragment::{FromImpl, Member, ShapeKind, VariantPattern};
use derive_synth::utils::RefType;
use derive_synth::{deref_to_inner, from, try_into};

fn path(name: &str) -> Attribute {
    Attribute { meta: Some(Meta::Path(Some(name.to_string()))) }
}

fn ignore(name: &str) -> Attribute {
    Attribute {
        meta: Some(Meta::List(
            Some(name.to_string()),
            vec![NestedMeta::Path(Some("ignore".to_string()))],
        )),
    }
}

fn named(name: &str, ty: &str, attrs: Vec<Attribute>) -> Field {
    Field { ident: Some(name.to_string()), ty: ty.to_string(), attrs }
}

fn unnamed(ty: &str) -> Field {
    Field { ident: None, ty: ty.to_string(), attrs: vec![] }
}

fn tuple(name: &str, types: &[&str]) -> Variant {
    Variant {
        ident: name.to_string(),
        attrs: vec![],
        shape: FieldShape::Positional(types.iter().map(|ty| unnamed(ty)).collect()),
    }
}

fn declaration(data: Data) -> TypeDeclaration {
    TypeDeclaration {
        ident: "Mixed".to_string(),
        generics: Generics {
            params: vec![GenericParam::Type("T".to_string(), vec![])],
            predicates: vec![],
        },
        data,
    }
}

fn positional(name: &str, count: usize) -> VariantPattern {
    VariantPattern {
        variant: name.to_string(),
        kind: ShapeKind::Positional,
        members: (0..count).map(Member::Index).collect(),
    }
}

#[test]
fn variants_of_one_signature_share_a_conversion() {
    let input = declaration(Data::Enum(vec![
        tuple("A", &["i32"]),
        tuple("B", &["i32"]),
        tuple("C", &["String"]),
    ]));
    let derived = try_into::expand(&input, "TryInto").unwrap();
    assert_eq!(derived.len(), 2);
    assert_eq!(derived[0].types, vec!["i32".to_string()]);
    assert_eq!(derived[0].patterns, vec![positional("A", 1), positional("B", 1)]);
    assert_eq!(derived[0].message, "Only A, B can be converted to i32");
    assert_eq!(derived[1].types, vec!["String".to_string()]);
    assert_eq!(derived[1].patterns, vec![positional("C", 1)]);
    assert_eq!(derived[1].message, "Only C can be converted to String");
    for conversion in &derived {
        assert_eq!(conversion.input_type, "Mixed");
        assert_eq!(conversion.reference, RefType::No);
        assert_eq!(conversion.introduced, 0);
        assert_eq!(conversion.generics, input.generics);
    }
}

#[test]
fn signatures_are_ordered_tuples() {
    let input = declaration(Data::Enum(vec![
        tuple("A", &["i32", "u8"]),
        tuple("B", &["u8", "i32"]),
        tuple("C", &["i32", "u8"]),
        tuple("D", &[]),
        Variant { ident: "E".to_string(), attrs: vec![], shape: FieldShape::Unit },
        Variant {
            ident: "F".to_string(),
            attrs: vec![],
            shape: FieldShape::Named(vec![named("x", "i32", vec![]), named("y", "u8", vec![])]),
        },
    ]));
    let derived = try_into::expand(&input, "TryInto").unwrap();
    assert_eq!(derived.len(), 3);
    assert_eq!(derived[0].types, vec!["i32".to_string(), "u8".to_string()]);
    assert_eq!(
        derived[0].patterns,
        vec![
            positional("A", 2),
            positional("C", 2),
            VariantPattern {
                variant: "F".to_string(),
                kind: ShapeKind::Named,
                members: vec![Member::Named("x".to_string()), Member::Named("y".to_string())],
            },
        ]
    );
    assert_eq!(derived[0].message, "Only A, C, F can be converted to (i32, u8)");
    assert_eq!(derived[1].types, vec!["u8".to_string(), "i32".to_string()]);
    assert_eq!(derived[1].patterns, vec![positional("B", 2)]);
    assert_eq!(derived[1].message, "Only B can be converted to (u8, i32)");
    assert_eq!(derived[2].types, Vec::<String>::new());
    assert_eq!(
        derived[2].patterns,
        vec![
            positional("D", 0),
            VariantPattern { variant: "E".to_string(), kind: ShapeKind::Unit, members: vec![] },
        ]
    );
    assert_eq!(derived[2].message, "Only D, E can be converted to ()");
}

#[test]
fn reference_modes_introduce_a_lifetime() {
    let input = declaration(Data::Enum(vec![tuple("A", &["i32"])]));
    let shared = try_into::expand(&input, "TryIntoRef").unwrap();
    assert_eq!(shared.len(), 1);
    assert_eq!(shared[0].reference, RefType::Ref);
    assert_eq!(shared[0].introduced, 1);
    assert_eq!(
        shared[0].generics.params,
        vec![
            GenericParam::Type("T".to_string(), vec![]),
            GenericParam::Lifetime("'__deriveMoreLifetime".to_string()),
        ]
    );
    let mutable = try_into::expand(&input, "TryIntoRefMut").unwrap();
    assert_eq!(mutable[0].reference, RefType::Mut);
    assert_eq!(mutable[0].introduced, 1);
    assert_eq!(mutable[0].generics, shared[0].generics);
    assert_eq!(mutable[0].patterns, shared[0].patterns);
}

#[test]
fn markers_of_the_mode_select_the_variants() {
    let mut first = tuple("A", &["i32"]);
    first.attrs = vec![ignore("try_into")];
    let mut second = tuple("B", &["i32"]);
    second.attrs = vec![ignore("try_into_ref")];
    let third = tuple("C", &["u8"]);
    let input = declaration(Data::Enum(vec![first, second, third]));
    let owned = try_into::expand(&input, "TryInto").unwrap();
    assert_eq!(owned.len(), 2);
    assert_eq!(owned[0].patterns, vec![positional("B", 1)]);
    assert_eq!(owned[0].message, "Only B can be converted to i32");
    assert_eq!(owned[1].patterns, vec![positional("C", 1)]);
    let shared = try_into::expand(&input, "TryIntoRef").unwrap();
    assert_eq!(shared.len(), 2);
    assert_eq!(shared[0].patterns, vec![positional("A", 1)]);
    assert_eq!(shared[1].patterns, vec![positional("C", 1)]);
    let mutable = try_into::expand(&input, "TryIntoRefMut").unwrap();
    assert_eq!(mutable.len(), 2);
    assert_eq!(mutable[0].patterns, vec![positional("A", 1), positional("B", 1)]);
}

#[test]
fn enabling_marker_leaves_the_other_variants_out() {
    let mut first = tuple("A", &["i32"]);
    first.attrs = vec![path("try_into")];
    let input = declaration(Data::Enum(vec![tuple("Z", &["i32"]), first, tuple("C", &["u8"])]));
    let derived = try_into::expand(&input, "TryInto").unwrap();
    assert_eq!(derived.len(), 1);
    assert_eq!(derived[0].patterns, vec![positional("A", 1)]);
}

#[test]
fn narrowing_hands_on_a_refused_marker() {
    let mut first = tuple("A", &["i32"]);
    first.attrs = vec![path("try_into"), path("try_into")];
    let input = declaration(Data::Enum(vec![first]));
    let error = try_into::expand(&input, "TryInto").unwrap_err();
    assert_eq!(error.kind, ErrorKind::TooManyDeclarations);
    assert!(try_into::expand(&input, "TryIntoRef").is_ok());
}

#[test]
fn narrowing_is_for_enums() {
    for data in [
        Data::Struct(FieldShape::Positional(vec![unnamed("i32")])),
        Data::Struct(FieldShape::Unit),
        Data::Union,
    ] {
        let error = try_into::expand(&declaration(data), "TryInto").unwrap_err();
        assert_eq!(error.kind, ErrorKind::UnsupportedShape);
        assert_eq!(error.message, "Only enums can derive TryInto");
    }
}

#[test]
fn narrowing_of_an_empty_enum_is_empty() {
    assert_eq!(try_into::expand(&declaration(Data::Enum(vec![])), "TryInto"), Ok(vec![]));
}

#[test]
fn narrowing_is_repeatable() {
    let input = declaration(Data::Enum(vec![
        tuple("A", &["i32"]),
        tuple("B", &["String"]),
        tuple("C", &["i32"]),
        tuple("D", &["u8", "u8"]),
    ]));
    let first = try_into::expand(&input, "TryIntoRef");
    for _ in 0..10 {
        assert_eq!(try_into::expand(&input, "TryIntoRef"), first);
    }
}

#[test]
fn newtype_struct_converts_from_its_field() {
    let input = declaration(Data::Struct(FieldShape::Positional(vec![unnamed("Vec<T>")])));
    assert_eq!(
        from::expand(&input, "From"),
        Ok(vec![FromImpl {
            input_type: "Mixed".to_string(),
            source: "Vec<T>".to_string(),
            variant: None,
        }])
    );
    assert_eq!(
        from::newtype_from("Meters", "f64"),
        FromImpl { input_type: "Meters".to_string(), source: "f64".to_string(), variant: None }
    );
}

#[test]
fn from_refuses_other_structs() {
    let pair = declaration(Data::Struct(FieldShape::Positional(vec![unnamed("u8"), unnamed("u8")])));
    let error = from::expand(&pair, "From").unwrap_err();
    assert_eq!(error.kind, ErrorKind::UnsupportedShape);
    assert_eq!(error.message, "Only Tuple structs with a single field can derive From");
    let none = declaration(Data::Struct(FieldShape::Positional(vec![])));
    assert_eq!(
        from::expand(&none, "From").unwrap_err().message,
        "Only Tuple structs with a single field can derive From"
    );
    for data in [
        Data::Struct(FieldShape::Named(vec![named("a", "u8", vec![])])),
        Data::Struct(FieldShape::Unit),
        Data::Union,
    ] {
        let error = from::expand(&declaration(data), "From").unwrap_err();
        assert_eq!(error.kind, ErrorKind::UnsupportedShape);
        assert_eq!(error.message, "Only newtype structs can derive From");
    }
}

#[test]
fn enum_converts_from_unambiguous_newtypes() {
    let variants = vec![
        tuple("Small", &["u8"]),
        tuple("Text", &["String"]),
        tuple("Pair", &["u8", "u8"]),
        tuple("Other", &["String"]),
        Variant { ident: "Nothing".to_string(), attrs: vec![], shape: FieldShape::Unit },
        Variant {
            ident: "Record".to_string(),
            attrs: vec![],
            shape: FieldShape::Named(vec![named("x", "i64", vec![])]),
        },
        tuple("Big", &["u64"]),
    ];
    let expected = vec![
        FromImpl {
            input_type: "Mixed".to_string(),
            source: "u8".to_string(),
            variant: Some("Small".to_string()),
        },
        FromImpl {
            input_type: "Mixed".to_string(),
            source: "u64".to_string(),
            variant: Some("Big".to_string()),
        },
    ];
    assert_eq!(from::enum_from("Mixed", &variants), expected);
    assert_eq!(from::expand(&declaration(Data::Enum(variants)), "From"), Ok(expected));
    assert_eq!(from::enum_from("Mixed", &vec![]), vec![]);
}

#[test]
fn delegation_without_markers_is_ambiguous() {
    let input = declaration(Data::Struct(FieldShape::Named(vec![
        named("a", "Vec<T>", vec![]),
        named("b", "u8", vec![]),
    ])));
    let error = deref_to_inner::expand(&input, "Deref").unwrap_err();
    assert_eq!(error.kind, ErrorKind::AmbiguousField);
    assert_eq!(
        error.message,
        "derive(Deref) only works when forwarding to a single field. Try putting \
         #[deref_to_inner] or #[deref_to_inner(ignore)] on the fields in the struct"
    );
}

#[test]
fn delegation_targets_the_marked_field() {
    let input = declaration(Data::Struct(FieldShape::Named(vec![
        named("a", "Vec<T>", vec![path("deref_to_inner")]),
        named("b", "u8", vec![]),
    ])));
    let derived = deref_to_inner::expand(&input, "Deref").unwrap();
    assert_eq!(derived.target, "Vec<T>");
    assert_eq!(derived.member, Member::Named("a".to_string()));
    assert_eq!(derived.trait_path, "::core::ops::Deref");
    assert_eq!(derived.input_type, "Mixed");
    assert_eq!(derived.generics, input.generics);
}

#[test]
fn delegation_targets_the_field_that_is_not_ignored() {
    let input = declaration(Data::Struct(FieldShape::Positional(vec![
        Field { ident: None, ty: "u8".to_string(), attrs: vec![ignore("deref_to_inner")] },
        unnamed("String"),
    ])));
    let derived = deref_to_inner::expand(&input, "Deref").unwrap();
    assert_eq!(derived.target, "String");
    assert_eq!(derived.member, Member::Index(1));
}

#[test]
fn delegation_targets_a_sole_field() {
    let input = declaration(Data::Struct(FieldShape::Positional(vec![unnamed("Box<T>")])));
    let derived = deref_to_inner::expand(&input, "Deref").unwrap();
    assert_eq!(derived.target, "Box<T>");
    assert_eq!(derived.member, Member::Index(0));
}

#[test]
fn delegation_is_for_structs_with_fields() {
    for data in [Data::Struct(FieldShape::Unit), Data::Enum(vec![]), Data::Union] {
        let error = deref_to_inner::expand(&declaration(data), "Deref").unwrap_err();
        assert_eq!(error.kind, ErrorKind::UnsupportedShape);
    }
}

#[test]
fn delegation_hands_on_a_malformed_marker() {
    let input = declaration(Data::Struct(FieldShape::Named(vec![named(
        "a",
        "u8",
        vec![Attribute {
            meta: Some(Meta::List(
                Some("deref_to_inner".to_string()),
                vec![NestedMeta::Path(Some("skip".to_string()))],
            )),
        }],
    )])));
    let error = deref_to_inner::expand(&input, "Deref").unwrap_err();
    assert_eq!(error.kind, ErrorKind::MalformedAttribute);
    assert_eq!(error.message, "Attribute format not supported6");
}
