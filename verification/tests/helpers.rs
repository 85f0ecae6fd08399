//! Reference modes, field lists, the extension of generics, and text.

use derive_synth::decl::{
    Attribute, Bound, BoundArgument, Data, Field, FieldShape, GenericParam, Generics, Meta,
    TypeDeclaration, Variant, WherePredicate,
};
use derive_synth::error::{one_field_text, DeriveError, ErrorKind};
use derive_synth::fragment::{
    Arm, ArmResult, Construction, FieldInit, Member, MethodCall, Operand, ShapeKind,
    VariantPattern,
};
use derive_synth::pieces::{
    any_unit_variant, build_field_call, build_field_calls, build_field_construction,
    build_variable_call, build_variable_construction, build_variant_arm, field_members, kind_of,
    member_of, members_of_shape, variant_pattern, Arity,
};
use derive_synth::text::{
    concat2, concat3, decimal_string, distinct_texts, holds_text, join_texts, str_ends_with,
    str_eq, str_trim_end, texts_eq,
};
use derive_synth::utils::{
    add_extra_generic_param, add_extra_ty_param_bound, add_extra_ty_param_bound_op,
    add_extra_ty_param_bound_ref, add_extra_type_param_bound_op_output, add_extra_where_clauses,
    add_where_clauses_for_new_ident, attribute_is_marker, extract_field_info, field_idents,
    get_field_types, get_field_types_iter, named_to_vec, number_idents, numbered_vars,
    references, shape_fields, unnamed_to_vec, RefType,
};

fn marked(name: &str) -> Attribute {
    Attribute { meta: Some(Meta::Path(Some(name.to_string()))) }
}

fn named(name: &str, ty: &str) -> Field {
    Field { ident: Some(name.to_string()), ty: ty.to_string(), attrs: vec![] }
}

fn unnamed(ty: &str) -> Field {
    Field { ident: None, ty: ty.to_string(), attrs: vec![] }
}

fn texts(items: &[&str]) -> Vec<String> {
    items.iter().map(|item| item.to_string()).collect()
}

fn generics() -> Generics {
    Generics {
        params: vec![
            GenericParam::Lifetime("'a".to_string()),
            GenericParam::Type("T".to_string(), vec![Bound::plain("Clone".to_string())]),
            GenericParam::Const("const N: usize".to_string()),
            GenericParam::Type("U".to_string(), vec![]),
        ],
        predicates: vec![WherePredicate {
            reference: RefType::No,
            bounded: "U".to_string(),
            bound: Bound::plain("Default".to_string()),
        }],
    }
}

#[test]
fn reference_mode_is_read_off_the_trait_name() {
    assert_eq!(RefType::from_derive("TryInto"), (RefType::No, "TryInto"));
    assert_eq!(RefType::from_derive("TryIntoRef"), (RefType::Ref, "TryInto"));
    assert_eq!(RefType::from_derive("TryIntoRefMut"), (RefType::Mut, "TryInto"));
    assert_eq!(RefType::from_derive("AsRef"), (RefType::Ref, "As"));
    assert_eq!(RefType::from_derive(""), (RefType::No, ""));
    assert_eq!(RefType::from_derive("Ref"), (RefType::Ref, ""));
    assert_eq!(RefType::from_derive("RefMut"), (RefType::Mut, ""));
    assert_eq!(RefType::from_derive("Mut"), (RefType::No, "Mut"));
    assert_eq!(RefType::from_derive("Reference"), (RefType::No, "Reference"));
}

#[test]
fn every_repetition_of_the_suffix_is_removed() {
    assert_eq!(RefType::from_derive("IndexRefRef"), (RefType::Ref, "Index"));
    assert_eq!(RefType::from_derive("IndexRefMutRefMut"), (RefType::Mut, "Index"));
    assert_eq!(RefType::from_derive("IndexRefRefMut"), (RefType::Mut, "IndexRef"));
    assert_eq!(RefType::from_derive("IndexRefMutRef"), (RefType::Ref, "IndexRefMut"));
    assert_eq!(RefType::from_derive("RefRefRef"), (RefType::Ref, ""));
}

#[test]
fn reference_mode_texts() {
    assert_eq!(RefType::No.lifetime(), "");
    assert_eq!(RefType::Ref.lifetime(), "'__deriveMoreLifetime");
    assert_eq!(RefType::Mut.lifetime(), "'__deriveMoreLifetime");
    assert_eq!(RefType::No.reference(), "");
    assert_eq!(RefType::Ref.reference(), "&");
    assert_eq!(RefType::Mut.reference(), "&mut");
    assert_eq!(RefType::No.mutability(), "");
    assert_eq!(RefType::Ref.mutability(), "");
    assert_eq!(RefType::Mut.mutability(), "mut");
    assert_eq!(RefType::No.pattern_ref(), "");
    assert_eq!(RefType::Ref.pattern_ref(), "ref");
    assert_eq!(RefType::Mut.pattern_ref(), "ref mut");
    assert_eq!(RefType::No.reference_with_lifetime(), "");
    assert_eq!(RefType::Ref.reference_with_lifetime(), "&'__deriveMoreLifetime");
    assert_eq!(RefType::Mut.reference_with_lifetime(), "&'__deriveMoreLifetime mut");
    assert_eq!(RefType::No.attr_suffix(), "");
    assert_eq!(RefType::Ref.attr_suffix(), "_ref");
    assert_eq!(RefType::Mut.attr_suffix(), "_ref_mut");
}

#[test]
fn is_ref_tells_the_reference_modes() {
    assert!(!RefType::No.is_ref());
    assert!(RefType::Ref.is_ref());
    assert!(RefType::Mut.is_ref());
}

#[test]
fn numbered_vars_count_in_decimal() {
    assert_eq!(numbered_vars(3, "l_"), texts(&["__l_0", "__l_1", "__l_2"]));
    assert_eq!(numbered_vars(0, "l_"), Vec::<String>::new());
    assert_eq!(numbered_vars(1, ""), texts(&["__0"]));
    let many = numbered_vars(102, "r_");
    assert_eq!(many.len(), 102);
    assert_eq!(many[9], "__r_9");
    assert_eq!(many[10], "__r_10");
    assert_eq!(many[99], "__r_99");
    assert_eq!(many[100], "__r_100");
    assert_eq!(many[101], "__r_101");
}

#[test]
fn number_idents_are_the_positions() {
    assert_eq!(number_idents(0), Vec::<usize>::new());
    assert_eq!(number_idents(4), vec![0, 1, 2, 3]);
}

#[test]
fn field_lists_give_names_and_types() {
    let first = named("a", "u8");
    let second = named("b", "Vec<T>");
    let fields = vec![&first, &second];
    assert_eq!(field_idents(&fields), texts(&["a", "b"]));
    assert_eq!(get_field_types(&fields), texts(&["u8", "Vec<T>"]));
    assert_eq!(get_field_types_iter(&fields, 0), Some(&"u8".to_string()));
    assert_eq!(get_field_types_iter(&fields, 1), Some(&"Vec<T>".to_string()));
    assert_eq!(get_field_types_iter(&fields, 2), None);
    assert_eq!(field_idents(&vec![]), Vec::<String>::new());
    assert_eq!(get_field_types(&vec![]), Vec::<String>::new());
}

#[test]
fn shapes_hand_out_their_fields() {
    let positional = FieldShape::Positional(vec![unnamed("u8"), unnamed("u16")]);
    let record = FieldShape::Named(vec![named("a", "u8")]);
    assert_eq!(unnamed_to_vec(&positional).len(), 2);
    assert_eq!(unnamed_to_vec(&positional)[1].ty, "u16");
    assert!(unnamed_to_vec(&record).is_empty());
    assert!(unnamed_to_vec(&FieldShape::Unit).is_empty());
    assert_eq!(named_to_vec(&record).len(), 1);
    assert_eq!(named_to_vec(&record)[0].ident, Some("a".to_string()));
    assert!(named_to_vec(&positional).is_empty());
    assert!(named_to_vec(&FieldShape::Unit).is_empty());
    assert_eq!(shape_fields(&positional).len(), 2);
    assert_eq!(shape_fields(&record).len(), 1);
    assert!(shape_fields(&FieldShape::Unit).is_empty());
    let list = vec![unnamed("u8"), unnamed("u16")];
    let refs = references(&list);
    assert_eq!(refs.len(), 2);
    assert_eq!(*refs[0], list[0]);
    assert_eq!(*refs[1], list[1]);
}

#[test]
fn operator_output_bound_names_each_parameter() {
    let extended = add_extra_type_param_bound_op_output(&generics(), "Add");
    assert_eq!(
        extended.params,
        vec![
            GenericParam::Lifetime("'a".to_string()),
            GenericParam::Type(
                "T".to_string(),
                vec![
                    Bound::plain("Clone".to_string()),
                    Bound {
                        path: "::core::ops::Add".to_string(),
                        argument: BoundArgument::Output("T".to_string()),
                    },
                ]
            ),
            GenericParam::Const("const N: usize".to_string()),
            GenericParam::Type(
                "U".to_string(),
                vec![Bound {
                    path: "::core::ops::Add".to_string(),
                    argument: BoundArgument::Output("U".to_string()),
                }]
            ),
        ]
    );
    assert_eq!(extended.predicates, generics().predicates);
}

#[test]
fn extra_bound_goes_on_each_type_parameter() {
    let bound = Bound { path: "Into".to_string(), argument: BoundArgument::Type("u8".to_string()) };
    let extended = add_extra_ty_param_bound(&generics(), &bound);
    assert_eq!(
        extended.params,
        vec![
            GenericParam::Lifetime("'a".to_string()),
            GenericParam::Type(
                "T".to_string(),
                vec![Bound::plain("Clone".to_string()), bound.clone()]
            ),
            GenericParam::Const("const N: usize".to_string()),
            GenericParam::Type("U".to_string(), vec![bound.clone()]),
        ]
    );
    assert_eq!(extended.predicates, generics().predicates);
    assert_eq!(
        add_extra_ty_param_bound_op(&generics(), "Neg"),
        add_extra_ty_param_bound(&generics(), &Bound::plain("::core::ops::Neg".to_string()))
    );
    assert_eq!(add_extra_ty_param_bound_ref(&generics(), &bound, RefType::No), extended);
}

#[test]
fn extra_bound_by_reference_goes_into_the_where_clause() {
    let bound = Bound::plain("::core::fmt::Debug".to_string());
    for mode in [RefType::Ref, RefType::Mut] {
        let extended = add_extra_ty_param_bound_ref(&generics(), &bound, mode);
        assert_eq!(extended.params, generics().params);
        assert_eq!(
            extended.predicates,
            vec![
                WherePredicate { reference: mode, bounded: "T".to_string(), bound: bound.clone() },
                WherePredicate { reference: mode, bounded: "U".to_string(), bound: bound.clone() },
                generics().predicates[0].clone(),
            ]
        );
    }
}

#[test]
fn extra_parameter_goes_last() {
    let extended =
        add_extra_generic_param(&generics(), GenericParam::Lifetime("'life".to_string()));
    assert_eq!(extended.params.len(), 5);
    assert_eq!(extended.params[..4], generics().params[..]);
    assert_eq!(extended.params[4], GenericParam::Lifetime("'life".to_string()));
    assert_eq!(extended.predicates, generics().predicates);
}

#[test]
fn extra_where_clauses_go_first() {
    let clause = WherePredicate {
        reference: RefType::No,
        bounded: "Vec<T>".to_string(),
        bound: Bound::plain("Sized".to_string()),
    };
    let extended = add_extra_where_clauses(&generics(), vec![clause.clone()]);
    assert_eq!(extended.predicates, vec![clause, generics().predicates[0].clone()]);
    assert_eq!(extended.params, generics().params);
    assert_eq!(add_extra_where_clauses(&generics(), vec![]), generics());
}

#[test]
fn new_operand_type_is_copyable_for_several_fields() {
    let first = unnamed("u8");
    let second = unnamed("u16");
    let clause = WherePredicate {
        reference: RefType::No,
        bounded: "u8".to_string(),
        bound: Bound::plain("Sized".to_string()),
    };
    let two = add_where_clauses_for_new_ident(
        &generics(),
        &vec![&first, &second],
        "Rhs",
        vec![clause.clone()],
    );
    assert_eq!(
        two.params[4],
        GenericParam::Type(
            "Rhs".to_string(),
            vec![Bound::plain("::core::marker::Copy".to_string())]
        )
    );
    assert_eq!(two.predicates, vec![clause.clone(), generics().predicates[0].clone()]);
    let one = add_where_clauses_for_new_ident(&generics(), &vec![&first], "Rhs", vec![]);
    assert_eq!(one.params[4], GenericParam::Type("Rhs".to_string(), vec![]));
    let none = add_where_clauses_for_new_ident(&generics(), &vec![], "Rhs", vec![]);
    assert_eq!(none.params[4], GenericParam::Type("Rhs".to_string(), vec![]));
}

#[test]
fn copies_are_equal() {
    assert_eq!(generics().duplicate(), generics());
    let bound = Bound { path: "A".to_string(), argument: BoundArgument::Output("B".to_string()) };
    assert_eq!(bound.duplicate(), bound);
    for param in generics().params {
        assert_eq!(param.duplicate(), param);
    }
    assert_eq!(generics().predicates[0].duplicate(), generics().predicates[0]);
}

#[test]
fn well_formed_declarations_name_their_named_fields() {
    let declaration = |data| TypeDeclaration {
        ident: "A".to_string(),
        generics: Generics { params: vec![], predicates: vec![] },
        data,
    };
    assert!(declaration(Data::Union).is_well_formed());
    assert!(declaration(Data::Struct(FieldShape::Unit)).is_well_formed());
    assert!(declaration(Data::Struct(FieldShape::Positional(vec![unnamed("u8")]))).is_well_formed());
    assert!(declaration(Data::Struct(FieldShape::Named(vec![named("a", "u8")]))).is_well_formed());
    assert!(!declaration(Data::Struct(FieldShape::Named(vec![named("a", "u8"), unnamed("u8")])))
        .is_well_formed());
    let good = Variant {
        ident: "A".to_string(),
        attrs: vec![],
        shape: FieldShape::Named(vec![named("a", "u8")]),
    };
    let bad = Variant {
        ident: "B".to_string(),
        attrs: vec![],
        shape: FieldShape::Named(vec![unnamed("u8")]),
    };
    assert!(declaration(Data::Enum(vec![good.clone()])).is_well_formed());
    assert!(!declaration(Data::Enum(vec![good, bad])).is_well_formed());
    assert!(declaration(Data::Enum(vec![])).is_well_formed());
}

#[test]
fn field_info_of_a_single_field() {
    let data = Data::Struct(FieldShape::Named(vec![named("inner", "Vec<T>")]));
    assert_eq!(
        extract_field_info(&data, "as_ref"),
        Ok((texts(&["Vec<T>"]), vec![Member::Named("inner".to_string())]))
    );
    let data = Data::Struct(FieldShape::Positional(vec![unnamed("u8")]));
    assert_eq!(extract_field_info(&data, "as_ref"), Ok((texts(&["u8"]), vec![Member::Index(0)])));
}

#[test]
fn field_info_of_decorated_fields() {
    let mut first = named("a", "u8");
    first.attrs = vec![marked("as_ref")];
    let second = named("b", "u16");
    let mut third = named("c", "u32");
    third.attrs = vec![marked("doc"), marked("as_ref")];
    let data = Data::Struct(FieldShape::Named(vec![first, second, third]));
    assert_eq!(
        extract_field_info(&data, "as_ref"),
        Ok((
            texts(&["u8", "u32"]),
            vec![Member::Named("a".to_string()), Member::Named("c".to_string())]
        ))
    );
    assert_eq!(extract_field_info(&data, "as_mut"), Ok((vec![], vec![])));
}

#[test]
fn field_info_numbers_the_fields_read() {
    let first = unnamed("u8");
    let mut second = unnamed("u16");
    second.attrs = vec![marked("as_ref")];
    let mut third = unnamed("u32");
    third.attrs = vec![marked("as_ref")];
    let data = Data::Struct(FieldShape::Positional(vec![first, second, third]));
    assert_eq!(
        extract_field_info(&data, "as_ref"),
        Ok((texts(&["u16", "u32"]), vec![Member::Index(0), Member::Index(1)]))
    );
}

#[test]
fn field_info_is_for_structs_with_fields() {
    assert_eq!(
        extract_field_info(&Data::Struct(FieldShape::Unit), "as_ref"),
        Err(DeriveError {
            kind: ErrorKind::UnsupportedShape,
            message: "struct must have one or more fields".to_string(),
        })
    );
    for data in [Data::Enum(vec![]), Data::Union] {
        assert_eq!(
            extract_field_info(&data, "as_ref"),
            Err(DeriveError {
                kind: ErrorKind::UnsupportedShape,
                message: "only structs may derive this trait".to_string(),
            })
        );
    }
}

#[test]
fn markers_are_told_by_their_first_segment() {
    assert!(attribute_is_marker(&marked("as_ref"), "as_ref"));
    assert!(!attribute_is_marker(&marked("as_ref"), "as_mut"));
    assert!(!attribute_is_marker(&Attribute { meta: None }, "as_ref"));
    assert!(!attribute_is_marker(&Attribute { meta: Some(Meta::Path(None)) }, "as_ref"));
}

#[test]
fn decimal_numerals() {
    assert_eq!(decimal_string(0), "0");
    assert_eq!(decimal_string(7), "7");
    assert_eq!(decimal_string(10), "10");
    assert_eq!(decimal_string(909), "909");
    assert_eq!(decimal_string(1234567890), "1234567890");
    assert_eq!(decimal_string(usize::MAX), usize::MAX.to_string());
}

#[test]
fn texts_are_compared_and_joined() {
    assert!(str_eq("", ""));
    assert!(str_eq("naïve", "naïve"));
    assert!(!str_eq("a", "A"));
    assert!(!str_eq("a", "ab"));
    assert_eq!(concat2("ab", "cd"), "abcd");
    assert_eq!(concat3("a", "", "b"), "ab");
    assert!(texts_eq(&texts(&["a", "b"]), &texts(&["a", "b"])));
    assert!(!texts_eq(&texts(&["a", "b"]), &texts(&["b", "a"])));
    assert!(!texts_eq(&texts(&["a"]), &texts(&["a", "a"])));
    assert!(texts_eq(&vec![], &vec![]));
    assert_eq!(join_texts(&vec![], ", "), "");
    assert_eq!(join_texts(&texts(&["a"]), ", "), "a");
    assert_eq!(join_texts(&texts(&["a", "b", "c"]), ", "), "a, b, c");
    assert_eq!(join_texts(&texts(&["", ""]), "-"), "-");
    assert!(holds_text(&texts(&["a", "b"]), &"b".to_string()));
    assert!(!holds_text(&texts(&["a", "b"]), &"c".to_string()));
    assert_eq!(distinct_texts(&texts(&["a", "b", "a", "c", "b"])), texts(&["a", "b", "c"]));
    assert_eq!(distinct_texts(&vec![]), Vec::<String>::new());
}

#[test]
fn suffixes_are_found_and_trimmed() {
    assert!(str_ends_with("MulAssign", "Assign"));
    assert!(str_ends_with("Assign", "Assign"));
    assert!(!str_ends_with("ssign", "Assign"));
    assert!(!str_ends_with("MulAssigned", "Assign"));
    assert!(str_ends_with("abc", ""));
    assert!(str_ends_with("żółw", "ółw"));
    assert_eq!(str_trim_end("MulAssign", "Assign"), "Mul");
    assert_eq!(str_trim_end("MulAssignAssign", "Assign"), "Mul");
    assert_eq!(str_trim_end("AssignMul", "Assign"), "AssignMul");
    assert_eq!(str_trim_end("Assign", "Assign"), "");
    assert_eq!(str_trim_end("abc", ""), "abc");
    assert_eq!(str_trim_end("żółwRef", "Ref"), "żółw");
}

#[test]
fn one_field_diagnostic_names_trait_and_marker() {
    assert_eq!(
        one_field_text("Index", "index"),
        "derive(Index) only works when forwarding to a single field. Try putting #[index] or \
         #[index(ignore)] on the fields in the struct"
    );
    let error = DeriveError::new(ErrorKind::AmbiguousField, "why");
    assert_eq!(error.kind, ErrorKind::AmbiguousField);
    assert_eq!(error.to_string(), "why");
}

#[test]
fn pieces_address_fields_and_variables() {
    let record = named("a", "u8");
    let slot = unnamed("u8");
    assert_eq!(member_of(&record, 3, true), Member::Named("a".to_string()));
    assert_eq!(member_of(&record, 3, false), Member::Index(3));
    assert_eq!(member_of(&slot, 2, false), Member::Index(2));
    assert_eq!(field_members(&vec![&slot, &slot], false), vec![Member::Index(0), Member::Index(1)]);
    assert_eq!(field_members(&vec![&record], true), vec![Member::Named("a".to_string())]);
    assert_eq!(
        build_field_call(&record, 0, true, "neg", Arity::Unary),
        MethodCall {
            receiver: Operand::Own(Member::Named("a".to_string())),
            method: "neg".to_string(),
            argument: None,
        }
    );
    assert_eq!(
        build_field_call(&slot, 1, false, "add", Arity::Pairwise),
        MethodCall {
            receiver: Operand::Own(Member::Index(1)),
            method: "add".to_string(),
            argument: Some(Operand::Other(Member::Index(1))),
        }
    );
    assert_eq!(
        build_field_calls(&vec![&slot], false, "mul_assign", Arity::Scalar),
        vec![MethodCall {
            receiver: Operand::Own(Member::Index(0)),
            method: "mul_assign".to_string(),
            argument: Some(Operand::Scalar),
        }]
    );
    assert_eq!(
        build_field_construction(&vec![], false, "add", Arity::Pairwise),
        Construction { variant: None, kind: ShapeKind::Positional, inits: vec![] }
    );
    assert_eq!(
        build_variable_call(2, "add", true),
        MethodCall {
            receiver: Operand::Left(2),
            method: "add".to_string(),
            argument: Some(Operand::Right(2)),
        }
    );
    assert_eq!(
        build_variable_call(2, "not", false),
        MethodCall { receiver: Operand::Bound(2), method: "not".to_string(), argument: None }
    );
}

#[test]
fn pieces_take_variants_apart_and_rebuild_them() {
    let variant = Variant {
        ident: "Point".to_string(),
        attrs: vec![],
        shape: FieldShape::Named(vec![named("x", "i32"), named("y", "i32")]),
    };
    let unit = Variant { ident: "Nothing".to_string(), attrs: vec![], shape: FieldShape::Unit };
    assert_eq!(kind_of(&variant.shape), ShapeKind::Named);
    assert_eq!(kind_of(&unit.shape), ShapeKind::Unit);
    assert_eq!(kind_of(&FieldShape::Positional(vec![])), ShapeKind::Positional);
    let members = vec![Member::Named("x".to_string()), Member::Named("y".to_string())];
    assert_eq!(members_of_shape(&variant.shape), members);
    assert_eq!(members_of_shape(&unit.shape), vec![]);
    let pattern = VariantPattern {
        variant: "Point".to_string(),
        kind: ShapeKind::Named,
        members: members.clone(),
    };
    assert_eq!(variant_pattern(&variant), pattern);
    let built = Construction {
        variant: Some("Point".to_string()),
        kind: ShapeKind::Named,
        inits: vec![
            FieldInit { member: members[0].clone(), value: build_variable_call(0, "neg", false) },
            FieldInit { member: members[1].clone(), value: build_variable_call(1, "neg", false) },
        ],
    };
    assert_eq!(build_variable_construction(&variant, "neg", false), built);
    assert_eq!(
        build_variant_arm(&variant, "neg", false, true),
        Arm { pattern: Some(pattern.clone()), result: ArmResult::Success(built.clone()) }
    );
    assert_eq!(
        build_variant_arm(&variant, "neg", false, false),
        Arm { pattern: Some(pattern), result: ArmResult::Value(built) }
    );
    assert_eq!(
        build_variant_arm(&unit, "neg", false, true).result,
        ArmResult::Failure("Cannot neg() unit variants".to_string())
    );
    assert!(any_unit_variant(&vec![variant.clone(), unit]));
    assert!(!any_unit_variant(&vec![variant]));
    assert!(!any_unit_variant(&vec![]));
}
