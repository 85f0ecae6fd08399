//! Fallible narrowing conversions (`TryInto`, `TryIntoRef`, `TryIntoRefMut`): from an enum
//! into the tuple of the fields of one of its variants.
//!
//! Variants with the same types of fields, in the same order, share one implementation.
//! Two variants of different names are merged on that ground alone.

use vstd::prelude::*;
use vstd::string::*;
use crate::decl::{
    Attribute, AttributeView, Data, DataView, GenericParam, GenericParamView, GenericsView,
    TypeDeclaration, TypeDeclarationView, Variant, VariantView, duplicate_texts, types_of,
};
use crate::error::{DeriveError, DeriveErrorView, ErrorKind, result_view};
use crate::fragment::{TryFromImpl, TryFromImplView, VariantPattern};
use crate::pieces::{pattern_of, variant_pattern};
use crate::seqs::{chosen, distinct, kept};
use crate::text::{concat2, concat3, join, join_texts, texts_eq};
use crate::utils::{
    RefType, add_extra_generic_param, enabled_flags, get_field_types, resolve_enabled, shape_fields,
    with_param,
};

verus! {

/// The attribute lists of the variants.
pub open spec fn variant_attr_lists(variants: Seq<VariantView>) -> Seq<Seq<AttributeView>> {
    Seq::new(variants.len(), |i: int| variants[i].attrs)
}

/// The types of the fields of a variant, in order: the key by which variants are grouped.
pub open spec fn type_tuple(variant: VariantView) -> Seq<Seq<char>> {
    types_of(variant.shape.fields())
}

/// The type tuples of the variants.
pub open spec fn type_tuples(variants: Seq<VariantView>) -> Seq<Seq<Seq<char>>> {
    Seq::new(variants.len(), |i: int| type_tuple(variants[i]))
}

/// The test for the variants of one group.
pub open spec fn has_tuple(types: Seq<Seq<char>>) -> spec_fn(VariantView) -> bool {
    |variant: VariantView| type_tuple(variant) == types
}

/// The name of the markers that enable and disable variants in a reference mode.
pub open spec fn marker_name(ref_type: RefType) -> Seq<char> {
    "try_into"@ + ref_type.attr_suffix_text()
}

/// How the failure message describes the target: the type itself where there is one, and
/// otherwise the types in parentheses.
pub open spec fn output_type(types: Seq<Seq<char>>) -> Seq<char> {
    if types.len() == 1 {
        types[0]
    } else {
        "("@ + join(types, ", "@) + ")"@
    }
}

/// The message with which a value of another variant fails to convert: it lists the
/// variants that do convert, and the target.
pub open spec fn failure_message(members: Seq<VariantView>, types: Seq<Seq<char>>) -> Seq<char> {
    "Only "@ + join(Seq::new(members.len(), |i: int| members[i].ident), ", "@)
        + " can be converted to "@ + output_type(types)
}

/// The generics of the implementations: those of the input, and behind them the lifetime
/// of the references where the mode hands out references.
pub open spec fn conversion_generics(input: TypeDeclarationView, ref_type: RefType) -> (
    GenericsView,
    usize,
) {
    if ref_type == RefType::No {
        (input.generics, 0)
    } else {
        (with_param(input.generics, GenericParamView::Lifetime(ref_type.lifetime_text())), 1)
    }
}

/// The implementation that the variants `members`, which all have the fields `types`,
/// share.
pub open spec fn conversion(
    input: TypeDeclarationView,
    ref_type: RefType,
    members: Seq<VariantView>,
    types: Seq<Seq<char>>,
) -> TryFromImplView {
    TryFromImplView {
        generics: conversion_generics(input, ref_type).0,
        introduced: conversion_generics(input, ref_type).1,
        input_type: input.ident,
        reference: ref_type,
        types,
        patterns: Seq::new(members.len(), |i: int| pattern_of(members[i])),
        message: failure_message(members, types),
    }
}

/// The variants that take part in the conversions of the mode `ref_type`.
pub open spec fn enabled_variants(variants: Seq<VariantView>, ref_type: RefType) -> Result<
    Seq<VariantView>,
    DeriveErrorView,
> {
    match enabled_flags(variant_attr_lists(variants), marker_name(ref_type)) {
        Ok(flags) => Ok(kept(variants, flags)),
        Err(error) => Err(error),
    }
}

/// The implementations for the variants `enabled`: one for each distinct type tuple, in
/// the order in which the tuples first occur, each for all the variants with that tuple.
pub open spec fn conversions(
    input: TypeDeclarationView,
    ref_type: RefType,
    enabled: Seq<VariantView>,
) -> Seq<TryFromImplView> {
    Seq::new(
        distinct(type_tuples(enabled)).len(),
        |g: int|
            conversion(
                input,
                ref_type,
                chosen(enabled, has_tuple(distinct(type_tuples(enabled))[g])),
                distinct(type_tuples(enabled))[g],
            ),
    )
}

/// What deriving the conversion `trait_name` for `input` yields. The reference mode is
/// read off the name of the trait. Only an enum can be converted.
pub open spec fn expansion(input: TypeDeclarationView, trait_name: Seq<char>) -> Result<
    Seq<TryFromImplView>,
    DeriveErrorView,
> {
    let ref_type = RefType::derive_mode(trait_name).0;
    match input.data {
        DataView::Enum(variants) => match enabled_variants(variants, ref_type) {
            Ok(enabled) => Ok(conversions(input, ref_type, enabled)),
            Err(error) => Err(error),
        },
        _ => Err(
            DeriveErrorView {
                kind: ErrorKind::UnsupportedShape,
                message: "Only enums can derive TryInto"@,
            },
        ),
    }
}

/// The types of the fields of a variant.
fn tuple_of(variant: &Variant) -> (r: Vec<String>)
    ensures
        r.deep_view() == type_tuple(variant.deep_view()),
{
    get_field_types(&shape_fields(&variant.shape))
}

/// The variants whose flag holds, in order.
fn keep_variants<'a>(variants: &'a Vec<Variant>, flags: &Vec<bool>) -> (r: Vec<&'a Variant>)
    requires
        forall|j: int|
            0 <= j < variants.len() ==> (#[trigger] variants.deep_view()[j]).shape.well_formed(),
    ensures
        r.deep_view() == kept(variants.deep_view(), flags.deep_view()),
        forall|i: int| 0 <= i < r.len() ==> (#[trigger] r.deep_view()[i]).shape.well_formed(),
{
    let ghost all = variants.deep_view();
    let mut out: Vec<&Variant> = Vec::new();
    let mut i: usize = 0;
    assert(all.take(0) =~= Seq::empty());
    assert(out.deep_view() =~= Seq::empty());
    while i < variants.len()
        invariant
            i <= variants.len(),
            all == variants.deep_view(),
            forall|j: int| 0 <= j < all.len() ==> (#[trigger] all[j]).shape.well_formed(),
            out.deep_view() == kept(all.take(i as int), flags@),
            forall|k: int|
                0 <= k < out.len() ==> (#[trigger] out.deep_view()[k]).shape.well_formed(),
        decreases variants.len() - i,
    {
        assert(all.take(i + 1).drop_last() =~= all.take(i as int));
        if i < flags.len() && flags[i] {
            let ghost before = out.deep_view();
            out.push(&variants[i]);
            assert(out.deep_view() =~= before.push(all[i as int]));
        }
        i += 1;
    }
    assert(all.take(i as int) =~= all);
    assert(flags.deep_view() =~= flags@);
    out
}

/// Whether `keys` holds the tuple `key`.
fn holds_tuple(keys: &Vec<Vec<String>>, key: &Vec<String>) -> (r: bool)
    ensures
        r == keys.deep_view().contains(key.deep_view()),
{
    let mut i: usize = 0;
    while i < keys.len()
        invariant
            i <= keys.len(),
            forall|j: int| 0 <= j < i ==> keys.deep_view()[j] != key.deep_view(),
        decreases keys.len() - i,
    {
        assert(keys.deep_view()[i as int] == keys[i as int].deep_view());
        if texts_eq(&keys[i], key) {
            return true;
        }
        i += 1;
    }
    false
}

/// The distinct type tuples of the variants, in the order of their first occurrence.
fn distinct_tuples(enabled: &Vec<&Variant>) -> (r: Vec<Vec<String>>)
    ensures
        r.deep_view() == distinct(type_tuples(enabled.deep_view())),
{
    let ghost all = type_tuples(enabled.deep_view());
    let mut keys: Vec<Vec<String>> = Vec::new();
    let mut i: usize = 0;
    assert(all.take(0) =~= Seq::empty());
    assert(keys.deep_view() =~= Seq::empty());
    while i < enabled.len()
        invariant
            i <= enabled.len(),
            all == type_tuples(enabled.deep_view()),
            keys.deep_view() == distinct(all.take(i as int)),
        decreases enabled.len() - i,
    {
        assert(all.take(i + 1).drop_last() =~= all.take(i as int));
        assert(enabled.deep_view()[i as int] == enabled[i as int].deep_view());
        let key = tuple_of(enabled[i]);
        if !holds_tuple(&keys, &key) {
            let ghost before = keys.deep_view();
            keys.push(key);
            assert(keys.deep_view() =~= before.push(all[i as int]));
        }
        i += 1;
    }
    assert(all.take(i as int) =~= all);
    keys
}

/// The implementation for the variants among `enabled` that have the fields `types`.
fn conversion_for(
    input: &TypeDeclaration,
    ref_type: RefType,
    enabled: &Vec<&Variant>,
    types: &Vec<String>,
) -> (r: TryFromImpl)
    requires
        forall|i: int|
            0 <= i < enabled.len() ==> (#[trigger] enabled.deep_view()[i]).shape.well_formed(),
    ensures
        r.deep_view() == conversion(
            input.deep_view(),
            ref_type,
            chosen(enabled.deep_view(), has_tuple(types.deep_view())),
            types.deep_view(),
        ),
{
    let ghost all = enabled.deep_view();
    let ghost test = has_tuple(types.deep_view());
    let mut patterns: Vec<VariantPattern> = Vec::new();
    let mut names: Vec<String> = Vec::new();
    let mut i: usize = 0;
    assert(all.take(0) =~= Seq::empty());
    while i < enabled.len()
        invariant
            i <= enabled.len(),
            all == enabled.deep_view(),
            test == has_tuple(types.deep_view()),
            forall|j: int| 0 <= j < all.len() ==> (#[trigger] all[j]).shape.well_formed(),
            patterns.len() == chosen(all.take(i as int), test).len(),
            names.len() == patterns.len(),
            forall|j: int|
                0 <= j < patterns.len() ==> (#[trigger] patterns[j]).deep_view() == pattern_of(
                    chosen(all.take(i as int), test)[j],
                ),
            forall|j: int|
                0 <= j < names.len() ==> (#[trigger] names[j])@ == chosen(
                    all.take(i as int),
                    test,
                )[j].ident,
        decreases enabled.len() - i,
    {
        assert(all.take(i + 1).drop_last() =~= all.take(i as int));
        assert(all[i as int] == enabled[i as int].deep_view());
        let key = tuple_of(enabled[i]);
        if texts_eq(&key, types) {
            patterns.push(variant_pattern(enabled[i]));
            names.push(enabled[i].ident.clone());
        }
        i += 1;
    }
    assert(all.take(i as int) =~= all);
    let ghost members = chosen(all, test);
    assert(names.deep_view() =~= Seq::new(members.len(), |i: int| members[i].ident));
    assert(patterns.deep_view() =~= Seq::new(members.len(), |i: int| pattern_of(members[i])));
    let output_type = if types.len() == 1 {
        assert(types.deep_view()[0] == types[0]@);
        types[0].clone()
    } else {
        concat3("(", join_texts(types, ", ").as_str(), ")")
    };
    let mut message = concat2("Only ", join_texts(&names, ", ").as_str());
    message.append(" can be converted to ");
    message.append(output_type.as_str());
    let (generics, introduced) = if ref_type.is_ref() {
        (
            add_extra_generic_param(
                &input.generics,
                GenericParam::Lifetime(ref_type.lifetime().to_owned()),
            ),
            1usize,
        )
    } else {
        (input.generics.duplicate(), 0usize)
    };
    TryFromImpl {
        generics,
        introduced,
        input_type: input.ident.clone(),
        reference: ref_type,
        types: duplicate_texts(types),
        patterns,
        message,
    }
}

/// The attribute lists of the variants.
fn attr_lists_of(variants: &Vec<Variant>) -> (r: Vec<&Vec<Attribute>>)
    ensures
        r.deep_view() == variant_attr_lists(variants.deep_view()),
{
    let mut out: Vec<&Vec<Attribute>> = Vec::new();
    let mut i: usize = 0;
    while i < variants.len()
        invariant
            i <= variants.len(),
            out.len() == i,
            forall|j: int| 0 <= j < i ==> *out[j] == variants[j].attrs,
        decreases variants.len() - i,
    {
        out.push(&variants[i].attrs);
        i += 1;
    }
    assert(out.deep_view() =~= variant_attr_lists(variants.deep_view()));
    out
}

/// Derives the conversions `trait_name` from the enum `input` into the tuples of the
/// fields of its variants.
pub fn expand(input: &TypeDeclaration, trait_name: &str) -> (r: Result<Vec<TryFromImpl>, DeriveError>)
    requires
        input.deep_view().data.well_formed(),
    ensures
        result_view(r) == expansion(input.deep_view(), trait_name@),
{
    let (ref_type, _) = RefType::from_derive(trait_name);
    let marker = concat2("try_into", ref_type.attr_suffix());
    let variants = match &input.data {
        Data::Enum(variants) => variants,
        _ => {
            return Err(
                DeriveError::new(ErrorKind::UnsupportedShape, "Only enums can derive TryInto"),
            );
        },
    };
    let lists = attr_lists_of(variants);
    let flags = match resolve_enabled(marker.as_str(), &lists) {
        Ok(flags) => flags,
        Err(error) => {
            return Err(error);
        },
    };
    let enabled = keep_variants(variants, &flags);
    let ghost ev = enabled.deep_view();
    let keys = distinct_tuples(&enabled);
    let ghost expected = conversions(input.deep_view(), ref_type, ev);
    let mut tokens: Vec<TryFromImpl> = Vec::new();
    let mut g: usize = 0;
    while g < keys.len()
        invariant
            g <= keys.len(),
            ev == enabled.deep_view(),
            keys.deep_view() == distinct(type_tuples(ev)),
            expected == conversions(input.deep_view(), ref_type, ev),
            forall|i: int| 0 <= i < ev.len() ==> (#[trigger] ev[i]).shape.well_formed(),
            tokens.len() == g,
            forall|j: int| 0 <= j < g ==> (#[trigger] tokens[j]).deep_view() == expected[j],
        decreases keys.len() - g,
    {
        assert(keys.deep_view()[g as int] == keys[g as int].deep_view());
        tokens.push(conversion_for(input, ref_type, &enabled, &keys[g]));
        g += 1;
    }
    assert(tokens.deep_view() =~= expected);
    Ok(tokens)
}

} // verus!
