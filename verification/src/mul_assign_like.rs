//! Compound assignment against a scalar (`MulAssign`, `DivAssign` and the like), for
//! structs: the derived method hands the right-hand operand to every field in turn.

use vstd::prelude::*;
use vstd::string::*;
use crate::add_like::unit_struct_error;
use crate::decl::{
    Bound, BoundArgument, BoundArgumentView, BoundView, Data, DataView, FieldShape, FieldShapeView,
    FieldView, TypeDeclaration, TypeDeclarationView, WherePredicate, WherePredicateView, types_of,
};
use crate::error::{DeriveError, DeriveErrorView, ErrorKind, result_view};
use crate::fragment::{AssignImpl, AssignImplView, MethodCall};
use crate::pieces::{Arity, build_field_calls, field_calls};
use crate::seqs::distinct;
use crate::text::{
    concat2, concat3, distinct_texts, lowercase, str_trim_end, to_lowercase, trim_end,
};
use crate::utils::{
    RefType, add_where_clauses_for_new_ident, get_field_types, members_of, new_ident_param,
    shape_fields, with_param, with_where_clauses,
};

verus! {

/// The name of the type parameter that stands for the scalar operand.
pub open spec fn scalar_ident() -> Seq<char> {
    "__RhsT"@
}

/// The path of the derived trait.
pub open spec fn assign_path(trait_name: Seq<char>) -> Seq<char> {
    "::std::ops::"@ + trait_name
}

/// The name of the derived method: the lower-case form of the trait's name without its
/// `Assign`, and `_assign` behind it.
pub open spec fn assign_method(trait_name: Seq<char>) -> Seq<char> {
    lowercase(trim_end(trait_name, "Assign"@)) + "_assign"@
}

/// For each distinct type among the fields, in the order of first occurrence, the
/// predicate that the type implements the trait for the scalar.
pub open spec fn scalar_clauses(fields: Seq<FieldView>, trait_name: Seq<char>) -> Seq<
    WherePredicateView,
> {
    Seq::new(
        distinct(types_of(fields)).len(),
        |i: int|
            WherePredicateView {
                reference: RefType::No,
                bounded: distinct(types_of(fields))[i],
                bound: BoundView {
                    path: assign_path(trait_name),
                    argument: BoundArgumentView::Type(scalar_ident()),
                },
            },
    )
}

/// The implementation for a struct with the fields `fields`, named or positional.
pub open spec fn assign_impl(
    input: TypeDeclarationView,
    trait_name: Seq<char>,
    fields: Seq<FieldView>,
    named: bool,
) -> AssignImplView {
    AssignImplView {
        generics: with_param(
            with_where_clauses(input.generics, scalar_clauses(fields, trait_name)),
            new_ident_param(fields.len(), scalar_ident()),
        ),
        introduced: 1,
        trait_path: assign_path(trait_name),
        scalar: scalar_ident(),
        input_type: input.ident,
        method: assign_method(trait_name),
        statements: field_calls(
            members_of(fields, named),
            assign_method(trait_name),
            Arity::Scalar,
        ),
    }
}

/// What deriving the compound assignment `trait_name` for `input` yields: for a struct
/// with fields, one statement per field, in the order of the fields. Everything else is
/// refused.
pub open spec fn expansion(input: TypeDeclarationView, trait_name: Seq<char>) -> Result<
    AssignImplView,
    DeriveErrorView,
> {
    match input.data {
        DataView::Struct(FieldShapeView::Positional(fields)) => Ok(
            assign_impl(input, trait_name, fields, false),
        ),
        DataView::Struct(FieldShapeView::Named(fields)) => Ok(
            assign_impl(input, trait_name, fields, true),
        ),
        DataView::Struct(FieldShapeView::Unit) => Err(unit_struct_error(trait_name)),
        _ => Err(
            DeriveErrorView {
                kind: ErrorKind::UnsupportedShape,
                message: "Only structs can use derive("@ + trait_name + ")"@,
            },
        ),
    }
}

/// Derives the compound assignment `trait_name` against a scalar for the struct `input`.
pub fn expand(input: &TypeDeclaration, trait_name: &str) -> (r: Result<AssignImpl, DeriveError>)
    requires
        input.deep_view().data.well_formed(),
    ensures
        result_view(r) == expansion(input.deep_view(), trait_name@),
{
    let trait_path = concat2("::std::ops::", trait_name);
    let stem = to_lowercase(str_trim_end(trait_name, "Assign"));
    let method = concat2(stem.as_str(), "_assign");
    let (named, shape) = match &input.data {
        Data::Struct(shape) => match shape {
            FieldShape::Positional(_) => (false, shape),
            FieldShape::Named(_) => (true, shape),
            FieldShape::Unit => {
                return Err(
                    DeriveError {
                        kind: ErrorKind::UnsupportedShape,
                        message: concat3("Unit structs cannot use derive(", trait_name, ")"),
                    },
                );
            },
        },
        _ => {
            return Err(
                DeriveError {
                    kind: ErrorKind::UnsupportedShape,
                    message: concat3("Only structs can use derive(", trait_name, ")"),
                },
            );
        },
    };
    let fields = shape_fields(shape);
    let exprs: Vec<MethodCall> = build_field_calls(&fields, named, method.as_str(), Arity::Scalar);
    let tys = distinct_texts(&get_field_types(&fields));
    let mut type_where_clauses: Vec<WherePredicate> = Vec::new();
    let mut i: usize = 0;
    while i < tys.len()
        invariant
            i <= tys.len(),
            type_where_clauses.len() == i,
            tys.deep_view() == distinct(types_of(fields.deep_view())),
            trait_path@ == assign_path(trait_name@),
            forall|j: int|
                0 <= j < i ==> (#[trigger] type_where_clauses[j]).deep_view() == scalar_clauses(
                    fields.deep_view(),
                    trait_name@,
                )[j],
        decreases tys.len() - i,
    {
        assert(tys.deep_view()[i as int] == tys[i as int]@);
        type_where_clauses.push(
            WherePredicate {
                reference: RefType::No,
                bounded: tys[i].clone(),
                bound: Bound {
                    path: trait_path.clone(),
                    argument: BoundArgument::Type("__RhsT".to_owned()),
                },
            },
        );
        i += 1;
    }
    assert(type_where_clauses.deep_view() =~= scalar_clauses(fields.deep_view(), trait_name@));
    let new_generics = add_where_clauses_for_new_ident(
        &input.generics,
        &fields,
        "__RhsT",
        type_where_clauses,
    );
    Ok(
        AssignImpl {
            generics: new_generics,
            introduced: 1,
            trait_path,
            scalar: "__RhsT".to_owned(),
            input_type: input.ident.clone(),
            method,
            statements: exprs,
        },
    )
}

} // verus!
