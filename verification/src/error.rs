//! Why a derivation is refused.

use vstd::prelude::*;
use vstd::string::*;

verus! {

/// The classes of refusal.
#[derive(Clone, Copy, Debug, PartialEq, Eq, Structural)]
pub enum ErrorKind {
    /// The declaration has a shape that the trait cannot be derived for.
    UnsupportedShape,
    /// The trait needs exactly one participating field and the markers do not single one out.
    AmbiguousField,
    /// A marker of the trait's family carries a payload other than a lone `ignore`.
    MalformedAttribute,
    /// More than one marker of the trait's family stands on one field or variant.
    TooManyDeclarations,
}

/// A refusal: its class and the text of the diagnostic.
#[derive(Clone, Debug, PartialEq, Eq)]
pub struct DeriveError {
    pub kind: ErrorKind,
    pub message: String,
}

/// The mathematical view of `DeriveError`.
pub ghost struct DeriveErrorView {
    pub kind: ErrorKind,
    pub message: Seq<char>,
}

impl DeepView for DeriveError {
    type V = DeriveErrorView;

    open spec fn deep_view(&self) -> DeriveErrorView {
        DeriveErrorView { kind: self.kind, message: self.message@ }
    }
}

/// The views of both sides of a result.
pub open spec fn result_view<T: DeepView, E: DeepView>(r: Result<T, E>) -> Result<T::V, E::V> {
    match r {
        Ok(value) => Ok(value.deep_view()),
        Err(error) => Err(error.deep_view()),
    }
}

/// The diagnostic of a trait that forwards to a single field, for a declaration in which
/// the markers do not leave exactly one.
pub open spec fn one_field_message(trait_name: Seq<char>, trait_attr: Seq<char>) -> Seq<char> {
    "derive("@ + trait_name + ") only works when forwarding to a single field. Try putting #["@
        + trait_attr + "] or #["@ + trait_attr + "(ignore)] on the fields in the struct"@
}

impl DeriveError {
    /// A refusal of class `kind` with the diagnostic `message`.
    pub fn new(kind: ErrorKind, message: &str) -> (e: DeriveError)
        ensures
            e.deep_view() == (DeriveErrorView { kind, message: message@ }),
    {
        DeriveError { kind, message: message.to_owned() }
    }

    /// The diagnostic text.
    pub fn to_string(&self) -> (s: String)
        ensures
            s@ == self.message@,
    {
        self.message.clone()
    }
}

/// Builds the diagnostic of a trait that forwards to a single field.
pub fn one_field_text(trait_name: &str, trait_attr: &str) -> (r: String)
    ensures
        r@ == one_field_message(trait_name@, trait_attr@),
{
    let mut out = String::new();
    out.append("derive(");
    out.append(trait_name);
    out.append(") only works when forwarding to a single field. Try putting #[");
    out.append(trait_attr);
    out.append("] or #[");
    out.append(trait_attr);
    out.append("(ignore)] on the fields in the struct");
    assert(out@ =~= one_field_message(trait_name@, trait_attr@));
    out
}

} // verus!
