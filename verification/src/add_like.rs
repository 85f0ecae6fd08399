//! Binary operators (`Add`, `Sub`, `Mul`, `Div`, `Rem`, `BitAnd`, `BitOr`, `BitXor`,
//! `Shl`, `Shr`): the derived method combines `self` and `rhs` field by field.

use vstd::prelude::*;
use vstd::string::*;
use crate::decl::{
    Data, DataView, Field, FieldShape, FieldShapeView, TypeDeclaration, TypeDeclarationView,
    Variant, VariantView, all_named,
};
use crate::error::{DeriveError, DeriveErrorView, ErrorKind, result_view};
use crate::fragment::{
    Arm, ArmResult, ArmResultView, ArmView, Construction, MethodCall, OperatorBody,
    OperatorBodyView, OperatorImpl, OperatorImplView, ShapeKind,
};
use crate::pieces::{
    Arity, any_unit_variant, build_field_calls, build_field_construction, build_variant_arm,
    field_calls, field_construction, has_unit_variant, mismatch_message, variant_arm,
};
use crate::text::{concat2, concat3, lowercase, to_lowercase};
use crate::utils::{
    add_extra_type_param_bound_op_output, members_of, named_to_vec, unnamed_to_vec,
    with_op_output_bounds,
};

verus! {

/// Whether the derived operator of an enum can fail: with more than one variant the
/// operands may differ in their variant, and a variant without fields cannot be combined.
pub open spec fn can_fail(variants: Seq<VariantView>) -> bool {
    variants.len() > 1 || has_unit_variant(variants)
}

/// The arm that takes operands of different variants.
pub open spec fn wildcard_arm(method: Seq<char>) -> ArmView {
    ArmView { pattern: None, result: ArmResultView::Failure(mismatch_message(method)) }
}

/// The arms of the match over `(self, rhs)`: one for each variant, in the order of the
/// variants, and behind them the wildcard arm where there is more than one variant.
pub open spec fn enum_arms(variants: Seq<VariantView>, method: Seq<char>) -> Seq<ArmView> {
    let arms = Seq::new(
        variants.len(),
        |i: int| variant_arm(variants[i], method, true, can_fail(variants)),
    );
    if variants.len() > 1 {
        arms.push(wildcard_arm(method))
    } else {
        arms
    }
}

/// The refusal of a struct without fields.
pub open spec fn unit_struct_error(trait_name: Seq<char>) -> DeriveErrorView {
    DeriveErrorView {
        kind: ErrorKind::UnsupportedShape,
        message: "Unit structs cannot use derive("@ + trait_name + ")"@,
    }
}

/// The refusal of a declaration that is neither a struct nor an enum.
pub open spec fn union_error(trait_name: Seq<char>) -> DeriveErrorView {
    DeriveErrorView {
        kind: ErrorKind::UnsupportedShape,
        message: "Only structs and enums can use derive("@ + trait_name + ")"@,
    }
}

/// The implementation of the binary operator `trait_name` for `input` with the given
/// body: the method is named by the lower-case form of the trait's name, and every type
/// parameter is bound to implement the trait with itself as the output.
pub open spec fn operator_impl(
    input: TypeDeclarationView,
    trait_name: Seq<char>,
    fallible: bool,
    body: OperatorBodyView,
) -> OperatorImplView {
    OperatorImplView {
        generics: with_op_output_bounds(input.generics, trait_name),
        trait_path: "::std::ops::"@ + trait_name,
        input_type: input.ident,
        method: lowercase(trait_name),
        binary: true,
        inline: true,
        fallible,
        body,
    }
}

/// What deriving the binary operator `trait_name` for `input` yields.
///
/// A struct with fields gets the value built from the pairwise calls on its fields, and
/// the output is the struct itself. An enum gets a match over both operands, and its
/// output is fallible exactly where the match can fail. A struct without fields and a
/// union are refused.
pub open spec fn expansion(input: TypeDeclarationView, trait_name: Seq<char>) -> Result<
    OperatorImplView,
    DeriveErrorView,
> {
    let method = lowercase(trait_name);
    match input.data {
        DataView::Struct(FieldShapeView::Unit) => Err(unit_struct_error(trait_name)),
        DataView::Struct(FieldShapeView::Positional(fields)) => Ok(
            operator_impl(
                input,
                trait_name,
                false,
                OperatorBodyView::Construct(
                    field_construction(
                        ShapeKind::Positional,
                        members_of(fields, false),
                        method,
                        Arity::Pairwise,
                    ),
                ),
            ),
        ),
        DataView::Struct(FieldShapeView::Named(fields)) => Ok(
            operator_impl(
                input,
                trait_name,
                false,
                OperatorBodyView::Construct(
                    field_construction(
                        ShapeKind::Named,
                        members_of(fields, true),
                        method,
                        Arity::Pairwise,
                    ),
                ),
            ),
        ),
        DataView::Enum(variants) => Ok(
            operator_impl(
                input,
                trait_name,
                can_fail(variants),
                OperatorBodyView::Match(enum_arms(variants, method)),
            ),
        ),
        DataView::Union => Err(union_error(trait_name)),
    }
}

/// Derives the binary operator `trait_name` for `input`.
pub fn expand(input: &TypeDeclaration, trait_name: &str) -> (r: Result<OperatorImpl, DeriveError>)
    requires
        input.deep_view().data.well_formed(),
    ensures
        result_view(r) == expansion(input.deep_view(), trait_name@),
{
    let method = to_lowercase(trait_name);
    let (fallible, body) = match &input.data {
        Data::Struct(shape) => match shape {
            FieldShape::Positional(_) => (
                false,
                OperatorBody::Construct(tuple_content(&unnamed_to_vec(shape), method.as_str())),
            ),
            FieldShape::Named(_) => (
                false,
                OperatorBody::Construct(struct_content(&named_to_vec(shape), method.as_str())),
            ),
            FieldShape::Unit => {
                return Err(
                    DeriveError {
                        kind: ErrorKind::UnsupportedShape,
                        message: concat3("Unit structs cannot use derive(", trait_name, ")"),
                    },
                );
            },
        },
        Data::Enum(variants) => (
            variants.len() > 1 || any_unit_variant(variants),
            OperatorBody::Match(enum_content(variants, method.as_str())),
        ),
        Data::Union => {
            return Err(
                DeriveError {
                    kind: ErrorKind::UnsupportedShape,
                    message: concat3("Only structs and enums can use derive(", trait_name, ")"),
                },
            );
        },
    };
    Ok(
        OperatorImpl {
            generics: add_extra_type_param_bound_op_output(&input.generics, trait_name),
            trait_path: concat2("::std::ops::", trait_name),
            input_type: input.ident.clone(),
            method,
            binary: true,
            inline: true,
            fallible,
            body,
        },
    )
}

/// The value of a positional struct built from the pairwise calls on its fields.
pub fn tuple_content(fields: &Vec<&Field>, method: &str) -> (r: Construction)
    ensures
        r.deep_view() == field_construction(
            ShapeKind::Positional,
            members_of(fields.deep_view(), false),
            method@,
            Arity::Pairwise,
        ),
{
    build_field_construction(fields, false, method, Arity::Pairwise)
}

/// For each field of a positional struct, the call of `method` on that field of `self`
/// with the same field of `rhs`: `self.0.add(rhs.0)` and so on.
pub fn tuple_exprs(fields: &Vec<&Field>, method: &str) -> (r: Vec<MethodCall>)
    ensures
        r.deep_view() == field_calls(members_of(fields.deep_view(), false), method@, Arity::Pairwise),
{
    build_field_calls(fields, false, method, Arity::Pairwise)
}

/// The value of a named struct built from the pairwise calls on its fields.
pub fn struct_content(fields: &Vec<&Field>, method: &str) -> (r: Construction)
    requires
        all_named(fields.deep_view()),
    ensures
        r.deep_view() == field_construction(
            ShapeKind::Named,
            members_of(fields.deep_view(), true),
            method@,
            Arity::Pairwise,
        ),
{
    build_field_construction(fields, true, method, Arity::Pairwise)
}

/// For each field of a named struct, the call of `method` on that field of `self` with
/// the same field of `rhs`: `self.x.add(rhs.x)` and so on.
pub fn struct_exprs(fields: &Vec<&Field>, method: &str) -> (r: Vec<MethodCall>)
    requires
        all_named(fields.deep_view()),
    ensures
        r.deep_view() == field_calls(members_of(fields.deep_view(), true), method@, Arity::Pairwise),
{
    build_field_calls(fields, true, method, Arity::Pairwise)
}

/// The arms of the match over `(self, rhs)` for an enum.
pub fn enum_content(variants: &Vec<Variant>, method: &str) -> (r: Vec<Arm>)
    requires
        forall|i: int|
            0 <= i < variants.len() ==> (#[trigger] variants.deep_view()[i]).shape.well_formed(),
    ensures
        r.deep_view() == enum_arms(variants.deep_view(), method@),
{
    let wrap = variants.len() > 1 || any_unit_variant(variants);
    let mut matches: Vec<Arm> = Vec::new();
    let mut i: usize = 0;
    while i < variants.len()
        invariant
            i <= variants.len(),
            matches.len() == i,
            wrap == can_fail(variants.deep_view()),
            forall|j: int|
                0 <= j < variants.len() ==> (#[trigger] variants.deep_view()[j]).shape.well_formed(),
            forall|j: int|
                0 <= j < i ==> (#[trigger] matches[j]).deep_view() == variant_arm(
                    variants.deep_view()[j],
                    method@,
                    true,
                    wrap,
                ),
        decreases variants.len() - i,
    {
        assert(variants.deep_view()[i as int] == variants[i as int].deep_view());
        matches.push(build_variant_arm(&variants[i], method, true, wrap));
        i += 1;
    }
    if variants.len() > 1 {
        // With a single variant this arm could not be reached.
        matches.push(
            Arm {
                pattern: None,
                result: ArmResult::Failure(
                    concat3("Trying to ", method, " mismatched enum variants"),
                ),
            },
        );
    }
    assert(matches.deep_view() =~= enum_arms(variants.deep_view(), method@));
    matches
}

} // verus!
