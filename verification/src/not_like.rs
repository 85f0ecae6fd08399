//! Unary operators (`Not`, `Neg`): the derived method applies the operator to every field
//! of `self`.

use vstd::prelude::*;
use vstd::string::*;
use crate::add_like::unit_struct_error;
use crate::decl::{
    Data, DataView, Field, FieldShape, FieldShapeView, TypeDeclaration, TypeDeclarationView,
    Variant, VariantView, all_named,
};
use crate::error::{DeriveError, DeriveErrorView, ErrorKind, result_view};
use crate::fragment::{
    Arm, ArmView, Construction, OperatorBody, OperatorBodyView, OperatorImpl, OperatorImplView,
    ShapeKind,
};
use crate::pieces::{
    Arity, any_unit_variant, build_field_construction, build_variant_arm, field_construction,
    has_unit_variant, variant_arm,
};
use crate::text::{concat2, concat3, lowercase, to_lowercase};
use crate::utils::{
    add_extra_type_param_bound_op_output, members_of, named_to_vec, unnamed_to_vec,
    with_op_output_bounds,
};

verus! {

/// The arms of the match over `self`: one for each variant, in the order of the variants.
/// The values are wrapped as success exactly where some variant has no fields.
pub open spec fn enum_arms(variants: Seq<VariantView>, method: Seq<char>) -> Seq<ArmView> {
    Seq::new(
        variants.len(),
        |i: int| variant_arm(variants[i], method, false, has_unit_variant(variants)),
    )
}

/// The refusal of a declaration that is neither a struct nor an enum.
pub open spec fn union_error(trait_name: Seq<char>) -> DeriveErrorView {
    DeriveErrorView {
        kind: ErrorKind::UnsupportedShape,
        message: "Only structs and enums can use dervie("@ + trait_name + ")"@,
    }
}

/// The implementation of the unary operator `trait_name` for `input` with the given body.
pub open spec fn operator_impl(
    input: TypeDeclarationView,
    trait_name: Seq<char>,
    fallible: bool,
    body: OperatorBodyView,
) -> OperatorImplView {
    OperatorImplView {
        generics: with_op_output_bounds(input.generics, trait_name),
        trait_path: "::std::ops::"@ + trait_name,
        input_type: input.ident,
        method: lowercase(trait_name),
        binary: false,
        inline: false,
        fallible,
        body,
    }
}

/// What deriving the unary operator `trait_name` for `input` yields.
///
/// A struct with fields gets the value built from the calls on its fields. An enum gets a
/// match over `self`; its output is fallible if and only if some variant has no fields. A
/// struct without fields and a union are refused.
pub open spec fn expansion(input: TypeDeclarationView, trait_name: Seq<char>) -> Result<
    OperatorImplView,
    DeriveErrorView,
> {
    let method = lowercase(trait_name);
    match input.data {
        DataView::Struct(FieldShapeView::Unit) => Err(unit_struct_error(trait_name)),
        DataView::Struct(FieldShapeView::Positional(fields)) => Ok(
            operator_impl(
                input,
                trait_name,
                false,
                OperatorBodyView::Construct(
                    field_construction(
                        ShapeKind::Positional,
                        members_of(fields, false),
                        method,
                        Arity::Unary,
                    ),
                ),
            ),
        ),
        DataView::Struct(FieldShapeView::Named(fields)) => Ok(
            operator_impl(
                input,
                trait_name,
                false,
                OperatorBodyView::Construct(
                    field_construction(
                        ShapeKind::Named,
                        members_of(fields, true),
                        method,
                        Arity::Unary,
                    ),
                ),
            ),
        ),
        DataView::Enum(variants) => Ok(
            operator_impl(
                input,
                trait_name,
                has_unit_variant(variants),
                OperatorBodyView::Match(enum_arms(variants, method)),
            ),
        ),
        DataView::Union => Err(union_error(trait_name)),
    }
}

/// Derives the unary operator `trait_name` for `input`.
pub fn expand(input: &TypeDeclaration, trait_name: &str) -> (r: Result<OperatorImpl, DeriveError>)
    requires
        input.deep_view().data.well_formed(),
    ensures
        result_view(r) == expansion(input.deep_view(), trait_name@),
{
    let method = to_lowercase(trait_name);
    let (fallible, body) = match &input.data {
        Data::Struct(shape) => match shape {
            FieldShape::Positional(_) => (
                false,
                OperatorBody::Construct(tuple_content(&unnamed_to_vec(shape), method.as_str())),
            ),
            FieldShape::Named(_) => (
                false,
                OperatorBody::Construct(struct_content(&named_to_vec(shape), method.as_str())),
            ),
            FieldShape::Unit => {
                return Err(
                    DeriveError {
                        kind: ErrorKind::UnsupportedShape,
                        message: concat3("Unit structs cannot use derive(", trait_name, ")"),
                    },
                );
            },
        },
        Data::Enum(variants) => {
            let (fallible, arms) = enum_output_type_and_content(variants, method.as_str());
            (fallible, OperatorBody::Match(arms))
        },
        Data::Union => {
            return Err(
                DeriveError {
                    kind: ErrorKind::UnsupportedShape,
                    message: concat3("Only structs and enums can use dervie(", trait_name, ")"),
                },
            );
        },
    };
    Ok(
        OperatorImpl {
            generics: add_extra_type_param_bound_op_output(&input.generics, trait_name),
            trait_path: concat2("::std::ops::", trait_name),
            input_type: input.ident.clone(),
            method,
            binary: false,
            inline: false,
            fallible,
            body,
        },
    )
}

/// The value of a positional struct built from the calls on its fields: `self.0.not()`
/// and so on.
pub fn tuple_content(fields: &Vec<&Field>, method: &str) -> (r: Construction)
    ensures
        r.deep_view() == field_construction(
            ShapeKind::Positional,
            members_of(fields.deep_view(), false),
            method@,
            Arity::Unary,
        ),
{
    build_field_construction(fields, false, method, Arity::Unary)
}

/// The value of a named struct built from the calls on its fields: `x: self.x.not()` and
/// so on.
pub fn struct_content(fields: &Vec<&Field>, method: &str) -> (r: Construction)
    requires
        all_named(fields.deep_view()),
    ensures
        r.deep_view() == field_construction(
            ShapeKind::Named,
            members_of(fields.deep_view(), true),
            method@,
            Arity::Unary,
        ),
{
    build_field_construction(fields, true, method, Arity::Unary)
}

/// Whether the derived operator of an enum is fallible, and the arms of its match over
/// `self`. An enum with a variant without fields can fail.
pub fn enum_output_type_and_content(variants: &Vec<Variant>, method: &str) -> (r: (bool, Vec<Arm>))
    requires
        forall|i: int|
            0 <= i < variants.len() ==> (#[trigger] variants.deep_view()[i]).shape.well_formed(),
    ensures
        r.0 == has_unit_variant(variants.deep_view()),
        r.1.deep_view() == enum_arms(variants.deep_view(), method@),
{
    let has_unit_type = any_unit_variant(variants);
    let mut matches: Vec<Arm> = Vec::new();
    let mut i: usize = 0;
    while i < variants.len()
        invariant
            i <= variants.len(),
            matches.len() == i,
            has_unit_type == has_unit_variant(variants.deep_view()),
            forall|j: int|
                0 <= j < variants.len() ==> (#[trigger] variants.deep_view()[j]).shape.well_formed(),
            forall|j: int|
                0 <= j < i ==> (#[trigger] matches[j]).deep_view() == variant_arm(
                    variants.deep_view()[j],
                    method@,
                    false,
                    has_unit_type,
                ),
        decreases variants.len() - i,
    {
        assert(variants.deep_view()[i as int] == variants[i as int].deep_view());
        matches.push(build_variant_arm(&variants[i], method, false, has_unit_type));
        i += 1;
    }
    assert(matches.deep_view() =~= enum_arms(variants.deep_view(), method@));
    (has_unit_type, matches)
}

} // verus!
