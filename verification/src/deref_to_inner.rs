//! Single-field delegation: dereferencing a struct to the one field that takes part.

use vstd::prelude::*;
use vstd::string::*;
use crate::decl::{TypeDeclaration, TypeDeclarationView};
use crate::error::{DeriveError, DeriveErrorView, result_view};
use crate::fragment::{DerefImpl, DerefImplView};
use crate::utils::{State, state_of};

verus! {

/// The module of the dereference traits.
pub open spec fn trait_module() -> Seq<char> {
    "::core::ops"@
}

/// The name of the markers that single out the field.
pub open spec fn marker_name() -> Seq<char> {
    "deref_to_inner"@
}

/// What deriving the dereference trait `trait_name` for `input` yields: the markers
/// must leave exactly one field of a struct; the target is that field's type and the
/// method refers to that field.
pub open spec fn expansion(input: TypeDeclarationView, trait_name: Seq<char>) -> Result<
    DerefImplView,
    DeriveErrorView,
> {
    match state_of(input, trait_name, trait_module(), marker_name()) {
        Ok(state) => match state.single_enabled_field() {
            Ok((field, member)) => Ok(
                DerefImplView {
                    generics: input.generics,
                    trait_path: state.trait_path,
                    input_type: input.ident,
                    target: field.ty,
                    member,
                },
            ),
            Err(error) => Err(error),
        },
        Err(error) => Err(error),
    }
}

/// Derives the dereference trait `trait_name` for the struct `input`.
pub fn expand(input: &TypeDeclaration, trait_name: &str) -> (r: Result<DerefImpl, DeriveError>)
    requires
        input.deep_view().data.well_formed(),
    ensures
        result_view(r) == expansion(input.deep_view(), trait_name@),
{
    let state = match State::new(input, trait_name, "::core::ops", "deref_to_inner".to_owned()) {
        Ok(state) => state,
        Err(error) => {
            return Err(error);
        },
    };
    let (_, field_type, member) = match state.assert_single_enabled_field() {
        Ok(single) => single,
        Err(error) => {
            return Err(error);
        },
    };
    Ok(
        DerefImpl {
            generics: input.generics.duplicate(),
            trait_path: state.trait_path.clone(),
            input_type: input.ident.clone(),
            target: field_type.clone(),
            member,
        },
    )
}

} // verus!
