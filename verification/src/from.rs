//! Conversions into a newtype (`From`): a positional struct with a single field is built
//! from that field, and an enum from the field of each variant that has a single field of
//! a type that no other such variant has.

use vstd::prelude::*;
use vstd::string::*;
use crate::decl::{
    Data, DataView, FieldShape, FieldShapeView, TypeDeclaration, TypeDeclarationView, Variant,
    VariantView,
};
use crate::error::{DeriveError, DeriveErrorView, ErrorKind, result_view};
use crate::fragment::{FromImpl, FromImplView};
use crate::seqs::chosen;

verus! {

/// The test for a variant with a single positional field.
pub open spec fn is_newtype() -> spec_fn(VariantView) -> bool {
    |variant: VariantView|
        variant.shape matches FieldShapeView::Positional(fields) && fields.len() == 1
}

/// The type of the first field of a variant.
pub open spec fn source_of(variant: VariantView) -> Seq<char> {
    variant.shape.fields()[0].ty
}

/// The test for the variants that are built from the type `ty`.
pub open spec fn has_source(ty: Seq<char>) -> spec_fn(VariantView) -> bool {
    |variant: VariantView| source_of(variant) == ty
}

/// How many of the variants `newtypes` are built from the type `ty`.
pub open spec fn occurrences(newtypes: Seq<VariantView>, ty: Seq<char>) -> nat {
    chosen(newtypes, has_source(ty)).len()
}

/// The test for a variant whose type no other of the variants `newtypes` has.
pub open spec fn is_unambiguous(newtypes: Seq<VariantView>) -> spec_fn(VariantView) -> bool {
    |variant: VariantView| occurrences(newtypes, source_of(variant)) == 1
}

/// The conversion from the type `source` into `input_type`, or into its variant.
pub open spec fn conversion(
    input_type: Seq<char>,
    source: Seq<char>,
    variant: Option<Seq<char>>,
) -> FromImplView {
    FromImplView { input_type, source, variant }
}

/// The variants of an enum that a conversion is derived for: those with a single
/// positional field whose type occurs once among them, in the order of the variants.
pub open spec fn converting_variants(variants: Seq<VariantView>) -> Seq<VariantView> {
    chosen(chosen(variants, is_newtype()), is_unambiguous(chosen(variants, is_newtype())))
}

/// The conversions into an enum.
pub open spec fn enum_conversions(enum_ident: Seq<char>, variants: Seq<VariantView>) -> Seq<
    FromImplView,
> {
    Seq::new(
        converting_variants(variants).len(),
        |i: int|
            conversion(
                enum_ident,
                source_of(converting_variants(variants)[i]),
                Some(converting_variants(variants)[i].ident),
            ),
    )
}

/// The refusal of a declaration of another shape.
pub open spec fn unsupported(message: Seq<char>) -> DeriveErrorView {
    DeriveErrorView { kind: ErrorKind::UnsupportedShape, message }
}

/// What deriving `From` for `input` yields: one conversion for a newtype struct, the
/// conversions of its variants for an enum, and a refusal for everything else.
pub open spec fn expansion(input: TypeDeclarationView) -> Result<Seq<FromImplView>, DeriveErrorView> {
    match input.data {
        DataView::Struct(FieldShapeView::Positional(fields)) => if fields.len() == 1 {
            Ok(seq![conversion(input.ident, fields[0].ty, None)])
        } else {
            Err(unsupported("Only Tuple structs with a single field can derive From"@))
        },
        DataView::Enum(variants) => Ok(enum_conversions(input.ident, variants)),
        _ => Err(unsupported("Only newtype structs can derive From"@)),
    }
}

/// Derives `From` for `input`. The name of the trait plays no part.
pub fn expand(input: &TypeDeclaration, _trait_name: &str) -> (r: Result<Vec<FromImpl>, DeriveError>)
    ensures
        result_view(r) == expansion(input.deep_view()),
{
    match &input.data {
        Data::Struct(FieldShape::Positional(fields)) => {
            if fields.len() == 1 {
                assert(fields.deep_view()[0] == fields[0].deep_view());
                let mut out: Vec<FromImpl> = Vec::new();
                out.push(newtype_from(input.ident.as_str(), fields[0].ty.as_str()));
                assert(out.deep_view() =~= seq![
                    conversion(input.deep_view().ident, fields.deep_view()[0].ty, None),
                ]);
                Ok(out)
            } else {
                Err(
                    DeriveError::new(
                        ErrorKind::UnsupportedShape,
                        "Only Tuple structs with a single field can derive From",
                    ),
                )
            }
        },
        Data::Enum(variants) => Ok(enum_from(input.ident.as_str(), variants)),
        _ => Err(
            DeriveError::new(ErrorKind::UnsupportedShape, "Only newtype structs can derive From"),
        ),
    }
}

/// The conversion from `old_type` into the newtype struct `new_type`.
pub fn newtype_from(new_type: &str, old_type: &str) -> (r: FromImpl)
    ensures
        r.deep_view() == conversion(new_type@, old_type@, None),
{
    FromImpl { input_type: new_type.to_owned(), source: old_type.to_owned(), variant: None }
}

/// The type of the single field of a newtype variant.
fn newtype_source(variant: &Variant) -> (r: &String)
    requires
        is_newtype()(variant.deep_view()),
    ensures
        r@ == source_of(variant.deep_view()),
{
    match &variant.shape {
        FieldShape::Positional(fields) => {
            assert(fields.deep_view()[0] == fields[0].deep_view());
            &fields[0].ty
        },
        _ => &variant.ident,
    }
}

/// How many of the newtype variants are built from the type `ty`.
fn count_source(newtypes: &Vec<&Variant>, ty: &String) -> (r: usize)
    requires
        forall|k: int| 0 <= k < newtypes.len() ==> is_newtype()(#[trigger] newtypes.deep_view()[k]),
    ensures
        r == occurrences(newtypes.deep_view(), ty@),
{
    let ghost all = newtypes.deep_view();
    let mut count: usize = 0;
    let mut i: usize = 0;
    assert(all.take(0) =~= Seq::empty());
    while i < newtypes.len()
        invariant
            i <= newtypes.len(),
            all == newtypes.deep_view(),
            forall|k: int| 0 <= k < all.len() ==> is_newtype()(#[trigger] all[k]),
            count <= i,
            count == chosen(all.take(i as int), has_source(ty@)).len(),
        decreases newtypes.len() - i,
    {
        assert(all.take(i + 1).drop_last() =~= all.take(i as int));
        assert(all[i as int] == newtypes[i as int].deep_view());
        if *newtype_source(newtypes[i]) == *ty {
            count += 1;
        }
        i += 1;
    }
    assert(all.take(i as int) =~= all);
    count
}

/// The conversions into the enum `enum_ident`: one for each variant with a single
/// positional field, unless another such variant has a field of the same type, since the
/// conversion would then be ambiguous.
pub fn enum_from(enum_ident: &str, variants: &Vec<Variant>) -> (r: Vec<FromImpl>)
    ensures
        r.deep_view() == enum_conversions(enum_ident@, variants.deep_view()),
{
    let ghost all = variants.deep_view();
    let mut newtypes: Vec<&Variant> = Vec::new();
    let mut i: usize = 0;
    assert(all.take(0) =~= Seq::empty());
    assert(newtypes.deep_view() =~= Seq::empty());
    while i < variants.len()
        invariant
            i <= variants.len(),
            all == variants.deep_view(),
            newtypes.deep_view() == chosen(all.take(i as int), is_newtype()),
            forall|k: int|
                0 <= k < newtypes.len() ==> is_newtype()(#[trigger] newtypes.deep_view()[k]),
        decreases variants.len() - i,
    {
        assert(all.take(i + 1).drop_last() =~= all.take(i as int));
        assert(all[i as int] == variants[i as int].deep_view());
        let single = match &variants[i].shape {
            FieldShape::Positional(structs) => structs.len() == 1,
            _ => false,
        };
        if single {
            let ghost before = newtypes.deep_view();
            newtypes.push(&variants[i]);
            assert(newtypes.deep_view() =~= before.push(all[i as int]));
        }
        i += 1;
    }
    assert(all.take(i as int) =~= all);
    let ghost found = newtypes.deep_view();
    let ghost test = is_unambiguous(found);
    let mut tokens: Vec<FromImpl> = Vec::new();
    let mut k: usize = 0;
    assert(found.take(0) =~= Seq::empty());
    while k < newtypes.len()
        invariant
            k <= newtypes.len(),
            found == newtypes.deep_view(),
            test == is_unambiguous(found),
            forall|j: int| 0 <= j < found.len() ==> is_newtype()(#[trigger] found[j]),
            tokens.len() == chosen(found.take(k as int), test).len(),
            forall|j: int|
                0 <= j < tokens.len() ==> (#[trigger] tokens[j]).deep_view() == conversion(
                    enum_ident@,
                    source_of(chosen(found.take(k as int), test)[j]),
                    Some(chosen(found.take(k as int), test)[j].ident),
                ),
        decreases newtypes.len() - k,
    {
        assert(found.take(k + 1).drop_last() =~= found.take(k as int));
        assert(found[k as int] == newtypes[k as int].deep_view());
        let old_type = newtype_source(newtypes[k]);
        if count_source(&newtypes, old_type) == 1 {
            // With more than one newtype of this type the conversion would be ambiguous.
            tokens.push(
                FromImpl {
                    input_type: enum_ident.to_owned(),
                    source: old_type.clone(),
                    variant: Some(newtypes[k].ident.clone()),
                },
            );
        }
        k += 1;
    }
    assert(found.take(k as int) =~= found);
    assert(tokens.deep_view() =~= enum_conversions(enum_ident@, all));
    tokens
}

} // verus!
