//! The derived operators: binary, unary, and compound assignment against a scalar.

use derive_synth::decl::{
    Bound, BoundArgument, Data, Field, FieldShape, GenericParam, Generics, TypeDeclaration,
    Variant, WherePredicate,
};
use derive_synth::error::ErrorKind;
use derive_synth::fragment::{
    Arm, ArmResult, Construction, FieldInit, Member, MethodCall, Operand, OperatorBody,
    ShapeKind, VariantPattern,
};
use derive_synth::utils::RefType;
use derive_synth::{add_like, mul_assign_like, not_like};

fn named(name: &str, ty: &str) -> Field {
    Field { ident: Some(name.to_string()), ty: ty.to_string(), attrs: vec![] }
}

fn unnamed(ty: &str) -> Field {
    Field { ident: None, ty: ty.to_string(), attrs: vec![] }
}

fn variant(name: &str, shape: FieldShape) -> Variant {
    Variant { ident: name.to_string(), attrs: vec![], shape }
}

fn plain(data: Data) -> TypeDeclaration {
    TypeDeclaration {
        ident: "Point".to_string(),
        generics: Generics { params: vec![], predicates: vec![] },
        data,
    }
}

fn pairwise(member: Member, method: &str) -> MethodCall {
    MethodCall {
        receiver: Operand::Own(member.clone()),
        method: method.to_string(),
        argument: Some(Operand::Other(member)),
    }
}

fn own(member: Member, method: &str) -> MethodCall {
    MethodCall { receiver: Operand::Own(member), method: method.to_string(), argument: None }
}

fn scaled(member: Member, method: &str) -> MethodCall {
    MethodCall {
        receiver: Operand::Own(member),
        method: method.to_string(),
        argument: Some(Operand::Scalar),
    }
}

fn combine(index: usize, method: &str) -> MethodCall {
    MethodCall {
        receiver: Operand::Left(index),
        method: method.to_string(),
        argument: Some(Operand::Right(index)),
    }
}

fn apply(index: usize, method: &str) -> MethodCall {
    MethodCall { receiver: Operand::Bound(index), method: method.to_string(), argument: None }
}

fn name(text: &str) -> Member {
    Member::Named(text.to_string())
}

fn shapes() -> Vec<Variant> {
    vec![
        variant("Pair", FieldShape::Positional(vec![unnamed("i32"), unnamed("i64")])),
        variant("Point", FieldShape::Named(vec![named("x", "i32"), named("y", "i32")])),
        variant("Nothing", FieldShape::Unit),
    ]
}

#[test]
fn binary_operator_of_a_named_struct_is_fieldwise() {
    let input = plain(Data::Struct(FieldShape::Named(vec![named("x", "i32"), named("y", "i64")])));
    let derived = add_like::expand(&input, "Add").unwrap();
    assert_eq!(derived.trait_path, "::std::ops::Add");
    assert_eq!(derived.input_type, "Point");
    assert_eq!(derived.method, "add");
    assert!(derived.binary);
    assert!(derived.inline);
    assert!(!derived.fallible);
    assert_eq!(
        derived.body,
        OperatorBody::Construct(Construction {
            variant: None,
            kind: ShapeKind::Named,
            inits: vec![
                FieldInit { member: name("x"), value: pairwise(name("x"), "add") },
                FieldInit { member: name("y"), value: pairwise(name("y"), "add") },
            ],
        })
    );
}

#[test]
fn binary_operator_of_a_positional_struct_is_fieldwise() {
    let input = plain(Data::Struct(FieldShape::Positional(vec![
        unnamed("i32"),
        unnamed("u8"),
        unnamed("i32"),
    ])));
    let derived = add_like::expand(&input, "Sub").unwrap();
    assert_eq!(derived.method, "sub");
    assert!(!derived.fallible);
    assert_eq!(
        derived.body,
        OperatorBody::Construct(Construction {
            variant: None,
            kind: ShapeKind::Positional,
            inits: vec![
                FieldInit { member: Member::Index(0), value: pairwise(Member::Index(0), "sub") },
                FieldInit { member: Member::Index(1), value: pairwise(Member::Index(1), "sub") },
                FieldInit { member: Member::Index(2), value: pairwise(Member::Index(2), "sub") },
            ],
        })
    );
}

#[test]
fn method_is_the_lower_case_of_the_trait() {
    let input = plain(Data::Struct(FieldShape::Positional(vec![unnamed("u8")])));
    for (trait_name, method) in [
        ("Add", "add"),
        ("Sub", "sub"),
        ("Mul", "mul"),
        ("Div", "div"),
        ("Rem", "rem"),
        ("BitAnd", "bitand"),
        ("BitOr", "bitor"),
        ("BitXor", "bitxor"),
        ("Shl", "shl"),
        ("Shr", "shr"),
    ] {
        let derived = add_like::expand(&input, trait_name).unwrap();
        assert_eq!(derived.method, method);
        assert_eq!(derived.trait_path, format!("::std::ops::{}", trait_name));
        assert_eq!(
            derived.body,
            OperatorBody::Construct(Construction {
                variant: None,
                kind: ShapeKind::Positional,
                inits: vec![FieldInit {
                    member: Member::Index(0),
                    value: pairwise(Member::Index(0), method),
                }],
            })
        );
    }
}

#[test]
fn type_parameters_are_bound_to_the_operator() {
    let input = TypeDeclaration {
        ident: "Pair".to_string(),
        generics: Generics {
            params: vec![
                GenericParam::Lifetime("'a".to_string()),
                GenericParam::Type("T".to_string(), vec![Bound::plain("Clone".to_string())]),
                GenericParam::Const("const N: usize".to_string()),
                GenericParam::Type("U".to_string(), vec![]),
            ],
            predicates: vec![WherePredicate {
                reference: RefType::No,
                bounded: "T".to_string(),
                bound: Bound::plain("Copy".to_string()),
            }],
        },
        data: Data::Struct(FieldShape::Positional(vec![unnamed("T"), unnamed("U")])),
    };
    let derived = add_like::expand(&input, "Mul").unwrap();
    let output = |ty: &str| Bound {
        path: "::core::ops::Mul".to_string(),
        argument: BoundArgument::Output(ty.to_string()),
    };
    assert_eq!(
        derived.generics.params,
        vec![
            GenericParam::Lifetime("'a".to_string()),
            GenericParam::Type(
                "T".to_string(),
                vec![Bound::plain("Clone".to_string()), output("T")]
            ),
            GenericParam::Const("const N: usize".to_string()),
            GenericParam::Type("U".to_string(), vec![output("U")]),
        ]
    );
    assert_eq!(derived.generics.predicates, input.generics.predicates);
}

#[test]
fn tuple_exprs_pair_the_positions() {
    let first = unnamed("u8");
    let second = unnamed("u16");
    assert_eq!(
        add_like::tuple_exprs(&vec![&first, &second], "add"),
        vec![pairwise(Member::Index(0), "add"), pairwise(Member::Index(1), "add")]
    );
    assert_eq!(add_like::tuple_exprs(&vec![], "add"), vec![]);
}

#[test]
fn struct_exprs_pair_the_names() {
    let first = named("a", "u8");
    let second = named("b", "u16");
    assert_eq!(
        add_like::struct_exprs(&vec![&first, &second], "bitor"),
        vec![pairwise(name("a"), "bitor"), pairwise(name("b"), "bitor")]
    );
}

#[test]
fn contents_build_the_struct() {
    let first = named("a", "u8");
    assert_eq!(
        add_like::struct_content(&vec![&first], "add"),
        Construction {
            variant: None,
            kind: ShapeKind::Named,
            inits: vec![FieldInit { member: name("a"), value: pairwise(name("a"), "add") }],
        }
    );
    let second = unnamed("u8");
    assert_eq!(
        add_like::tuple_content(&vec![&second], "add"),
        Construction {
            variant: None,
            kind: ShapeKind::Positional,
            inits: vec![FieldInit {
                member: Member::Index(0),
                value: pairwise(Member::Index(0), "add"),
            }],
        }
    );
}

#[test]
fn binary_operator_of_an_enum_matches_both_operands() {
    let input = plain(Data::Enum(shapes()));
    let derived = add_like::expand(&input, "Add").unwrap();
    assert!(derived.fallible);
    let expected = vec![
        Arm {
            pattern: Some(VariantPattern {
                variant: "Pair".to_string(),
                kind: ShapeKind::Positional,
                members: vec![Member::Index(0), Member::Index(1)],
            }),
            result: ArmResult::Success(Construction {
                variant: Some("Pair".to_string()),
                kind: ShapeKind::Positional,
                inits: vec![
                    FieldInit { member: Member::Index(0), value: combine(0, "add") },
                    FieldInit { member: Member::Index(1), value: combine(1, "add") },
                ],
            }),
        },
        Arm {
            pattern: Some(VariantPattern {
                variant: "Point".to_string(),
                kind: ShapeKind::Named,
                members: vec![name("x"), name("y")],
            }),
            result: ArmResult::Success(Construction {
                variant: Some("Point".to_string()),
                kind: ShapeKind::Named,
                inits: vec![
                    FieldInit { member: name("x"), value: combine(0, "add") },
                    FieldInit { member: name("y"), value: combine(1, "add") },
                ],
            }),
        },
        Arm {
            pattern: Some(VariantPattern {
                variant: "Nothing".to_string(),
                kind: ShapeKind::Unit,
                members: vec![],
            }),
            result: ArmResult::Failure("Cannot add() unit variants".to_string()),
        },
        Arm {
            pattern: None,
            result: ArmResult::Failure("Trying to add mismatched enum variants".to_string()),
        },
    ];
    assert_eq!(derived.body, OperatorBody::Match(expected));
}

#[test]
fn enum_content_agrees_with_expand() {
    let variants = shapes();
    let input = plain(Data::Enum(variants.clone()));
    let derived = add_like::expand(&input, "Rem").unwrap();
    assert_eq!(derived.body, OperatorBody::Match(add_like::enum_content(&variants, "rem")));
}

#[test]
fn single_variant_with_fields_never_fails() {
    let input = plain(Data::Enum(vec![variant(
        "Only",
        FieldShape::Positional(vec![unnamed("i32")]),
    )]));
    let derived = add_like::expand(&input, "Add").unwrap();
    assert!(!derived.fallible);
    assert_eq!(
        derived.body,
        OperatorBody::Match(vec![Arm {
            pattern: Some(VariantPattern {
                variant: "Only".to_string(),
                kind: ShapeKind::Positional,
                members: vec![Member::Index(0)],
            }),
            result: ArmResult::Value(Construction {
                variant: Some("Only".to_string()),
                kind: ShapeKind::Positional,
                inits: vec![FieldInit { member: Member::Index(0), value: combine(0, "add") }],
            }),
        }])
    );
}

#[test]
fn single_unit_variant_can_only_fail() {
    let input = plain(Data::Enum(vec![variant("Only", FieldShape::Unit)]));
    let derived = add_like::expand(&input, "Add").unwrap();
    assert!(derived.fallible);
    assert_eq!(
        derived.body,
        OperatorBody::Match(vec![Arm {
            pattern: Some(VariantPattern {
                variant: "Only".to_string(),
                kind: ShapeKind::Unit,
                members: vec![],
            }),
            result: ArmResult::Failure("Cannot add() unit variants".to_string()),
        }])
    );
}

#[test]
fn two_variants_with_fields_get_the_wildcard_arm() {
    let input = plain(Data::Enum(vec![
        variant("A", FieldShape::Positional(vec![unnamed("i32")])),
        variant("B", FieldShape::Positional(vec![unnamed("i32")])),
    ]));
    let derived = add_like::expand(&input, "Shl").unwrap();
    assert!(derived.fallible);
    match derived.body {
        OperatorBody::Match(arms) => {
            assert_eq!(arms.len(), 3);
            assert!(matches!(arms[0].result, ArmResult::Success(_)));
            assert!(matches!(arms[1].result, ArmResult::Success(_)));
            assert_eq!(
                arms[2],
                Arm {
                    pattern: None,
                    result: ArmResult::Failure(
                        "Trying to shl mismatched enum variants".to_string()
                    ),
                }
            );
        }
        OperatorBody::Construct(_) => panic!("an enum gets a match"),
    }
}

#[test]
fn empty_enum_gets_an_empty_match() {
    let input = plain(Data::Enum(vec![]));
    let derived = add_like::expand(&input, "Add").unwrap();
    assert!(!derived.fallible);
    assert_eq!(derived.body, OperatorBody::Match(vec![]));
}

#[test]
fn binary_operator_refuses_a_unit_struct() {
    let error = add_like::expand(&plain(Data::Struct(FieldShape::Unit)), "Add").unwrap_err();
    assert_eq!(error.kind, ErrorKind::UnsupportedShape);
    assert_eq!(error.message, "Unit structs cannot use derive(Add)");
}

#[test]
fn binary_operator_refuses_a_union() {
    let error = add_like::expand(&plain(Data::Union), "Add").unwrap_err();
    assert_eq!(error.kind, ErrorKind::UnsupportedShape);
    assert_eq!(error.message, "Only structs and enums can use derive(Add)");
}

#[test]
fn derivation_is_repeatable() {
    let input = plain(Data::Enum(shapes()));
    assert_eq!(add_like::expand(&input, "Add"), add_like::expand(&input, "Add"));
    assert_eq!(not_like::expand(&input, "Neg"), not_like::expand(&input, "Neg"));
    let copy = input.clone();
    assert_eq!(add_like::expand(&input, "Add"), add_like::expand(&copy, "Add"));
    let record = plain(Data::Struct(FieldShape::Named(vec![named("x", "i32")])));
    assert_eq!(
        mul_assign_like::expand(&record, "MulAssign"),
        mul_assign_like::expand(&record, "MulAssign")
    );
}

#[test]
fn unary_operator_of_a_struct_is_fieldwise() {
    let input = plain(Data::Struct(FieldShape::Named(vec![named("x", "i32"), named("y", "i64")])));
    let derived = not_like::expand(&input, "Neg").unwrap();
    assert_eq!(derived.trait_path, "::std::ops::Neg");
    assert_eq!(derived.method, "neg");
    assert!(!derived.binary);
    assert!(!derived.inline);
    assert!(!derived.fallible);
    assert_eq!(
        derived.body,
        OperatorBody::Construct(Construction {
            variant: None,
            kind: ShapeKind::Named,
            inits: vec![
                FieldInit { member: name("x"), value: own(name("x"), "neg") },
                FieldInit { member: name("y"), value: own(name("y"), "neg") },
            ],
        })
    );
    let first = unnamed("bool");
    assert_eq!(
        not_like::tuple_content(&vec![&first], "not"),
        Construction {
            variant: None,
            kind: ShapeKind::Positional,
            inits: vec![FieldInit {
                member: Member::Index(0),
                value: own(Member::Index(0), "not"),
            }],
        }
    );
    let second = named("flag", "bool");
    assert_eq!(
        not_like::struct_content(&vec![&second], "not"),
        Construction {
            variant: None,
            kind: ShapeKind::Named,
            inits: vec![FieldInit { member: name("flag"), value: own(name("flag"), "not") }],
        }
    );
}

#[test]
fn unary_operator_with_a_unit_variant_is_fallible() {
    let input = plain(Data::Enum(shapes()));
    let derived = not_like::expand(&input, "Not").unwrap();
    assert!(derived.fallible);
    match derived.body {
        OperatorBody::Match(arms) => {
            assert_eq!(arms.len(), 3);
            assert_eq!(
                arms[0].result,
                ArmResult::Success(Construction {
                    variant: Some("Pair".to_string()),
                    kind: ShapeKind::Positional,
                    inits: vec![
                        FieldInit { member: Member::Index(0), value: apply(0, "not") },
                        FieldInit { member: Member::Index(1), value: apply(1, "not") },
                    ],
                })
            );
            assert_eq!(
                arms[1].result,
                ArmResult::Success(Construction {
                    variant: Some("Point".to_string()),
                    kind: ShapeKind::Named,
                    inits: vec![
                        FieldInit { member: name("x"), value: apply(0, "not") },
                        FieldInit { member: name("y"), value: apply(1, "not") },
                    ],
                })
            );
            assert_eq!(
                arms[2].result,
                ArmResult::Failure("Cannot not() unit variants".to_string())
            );
            assert!(arms.iter().all(|arm| arm.pattern.is_some()));
        }
        OperatorBody::Construct(_) => panic!("an enum gets a match"),
    }
}

#[test]
fn unary_operator_without_unit_variants_is_not_wrapped() {
    let variants = vec![
        variant("A", FieldShape::Positional(vec![unnamed("i32")])),
        variant("B", FieldShape::Named(vec![named("b", "i64")])),
    ];
    let (fallible, arms) = not_like::enum_output_type_and_content(&variants, "neg");
    assert!(!fallible);
    assert_eq!(arms.len(), 2);
    assert_eq!(
        arms[1],
        Arm {
            pattern: Some(VariantPattern {
                variant: "B".to_string(),
                kind: ShapeKind::Named,
                members: vec![name("b")],
            }),
            result: ArmResult::Value(Construction {
                variant: Some("B".to_string()),
                kind: ShapeKind::Named,
                inits: vec![FieldInit { member: name("b"), value: apply(0, "neg") }],
            }),
        }
    );
    let derived = not_like::expand(&plain(Data::Enum(variants)), "Neg").unwrap();
    assert!(!derived.fallible);
    assert_eq!(derived.body, OperatorBody::Match(arms));
}

#[test]
fn unary_operator_refuses_unit_structs_and_unions() {
    let unit = not_like::expand(&plain(Data::Struct(FieldShape::Unit)), "Not").unwrap_err();
    assert_eq!(unit.kind, ErrorKind::UnsupportedShape);
    assert_eq!(unit.message, "Unit structs cannot use derive(Not)");
    let union = not_like::expand(&plain(Data::Union), "Not").unwrap_err();
    assert_eq!(union.kind, ErrorKind::UnsupportedShape);
    assert_eq!(union.message, "Only structs and enums can use dervie(Not)");
}

#[test]
fn scalar_assignment_hands_the_scalar_to_each_field() {
    let input = TypeDeclaration {
        ident: "Vector".to_string(),
        generics: Generics {
            params: vec![GenericParam::Type("T".to_string(), vec![])],
            predicates: vec![WherePredicate {
                reference: RefType::No,
                bounded: "T".to_string(),
                bound: Bound::plain("Clone".to_string()),
            }],
        },
        data: Data::Struct(FieldShape::Named(vec![
            named("x", "T"),
            named("y", "f64"),
            named("z", "T"),
        ])),
    };
    let derived = mul_assign_like::expand(&input, "MulAssign").unwrap();
    assert_eq!(derived.trait_path, "::std::ops::MulAssign");
    assert_eq!(derived.method, "mul_assign");
    assert_eq!(derived.scalar, "__RhsT");
    assert_eq!(derived.input_type, "Vector");
    assert_eq!(derived.introduced, 1);
    assert_eq!(
        derived.statements,
        vec![
            scaled(name("x"), "mul_assign"),
            scaled(name("y"), "mul_assign"),
            scaled(name("z"), "mul_assign"),
        ]
    );
    let for_scalar = |ty: &str| WherePredicate {
        reference: RefType::No,
        bounded: ty.to_string(),
        bound: Bound {
            path: "::std::ops::MulAssign".to_string(),
            argument: BoundArgument::Type("__RhsT".to_string()),
        },
    };
    assert_eq!(
        derived.generics.predicates,
        vec![
            for_scalar("T"),
            for_scalar("f64"),
            WherePredicate {
                reference: RefType::No,
                bounded: "T".to_string(),
                bound: Bound::plain("Clone".to_string()),
            },
        ]
    );
    assert_eq!(
        derived.generics.params,
        vec![
            GenericParam::Type("T".to_string(), vec![]),
            GenericParam::Type(
                "__RhsT".to_string(),
                vec![Bound::plain("::core::marker::Copy".to_string())]
            ),
        ]
    );
}

#[test]
fn scalar_of_a_single_field_need_not_be_copyable() {
    let input = plain(Data::Struct(FieldShape::Positional(vec![unnamed("u32")])));
    let derived = mul_assign_like::expand(&input, "DivAssign").unwrap();
    assert_eq!(derived.method, "div_assign");
    assert_eq!(derived.statements, vec![scaled(Member::Index(0), "div_assign")]);
    assert_eq!(derived.generics.params, vec![GenericParam::Type("__RhsT".to_string(), vec![])]);
}

#[test]
fn scalar_assignment_is_for_structs_with_fields() {
    let unit = mul_assign_like::expand(&plain(Data::Struct(FieldShape::Unit)), "MulAssign");
    assert_eq!(unit.as_ref().unwrap_err().kind, ErrorKind::UnsupportedShape);
    assert_eq!(unit.unwrap_err().message, "Unit structs cannot use derive(MulAssign)");
    for data in [Data::Enum(shapes()), Data::Union] {
        let error = mul_assign_like::expand(&plain(data), "MulAssign").unwrap_err();
        assert_eq!(error.kind, ErrorKind::UnsupportedShape);
        assert_eq!(error.message, "Only structs can use derive(MulAssign)");
    }
}
