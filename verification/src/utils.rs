//! The analysis that the synthesisers share: reference modes, field lists, the extension of
//! generics, and the resolution of enablement markers.

use vstd::prelude::*;
use vstd::string::*;
use crate::decl::{
    Attribute, AttributeView, Bound, BoundArgument, BoundArgumentView, BoundView, Data, DataView,
    Field, FieldShape, FieldShapeView, FieldView, GenericParam, GenericParamView, Generics,
    GenericsView, Meta, MetaView, NestedMeta, NestedMetaView, TypeDeclaration, TypeDeclarationView,
    WherePredicate, WherePredicateView, all_named, duplicate_bounds, duplicate_params,
    duplicate_predicates, names_of, types_of,
};
use crate::fragment::{Member, MemberView};
use crate::pieces::member_of;
use crate::seqs::{first_where, kept, lemma_first_where_at, lemma_first_where_none, lemma_kept_len};
use crate::error::{
    DeriveError, DeriveErrorView, ErrorKind, one_field_message, one_field_text, result_view,
};
use crate::text::{
    concat2, concat3, decimal, decimal_string, ends_with, str_ends_with, str_eq, str_trim_end,
    trim_end,
};

verus! {

/// How a derived conversion hands out the fields: by value, by shared reference or by
/// mutable reference.
#[derive(Clone, Copy, Debug, PartialEq, Eq, Structural)]
pub enum RefType {
    No,
    Ref,
    Mut,
}

impl DeepView for RefType {
    type V = RefType;

    open spec fn deep_view(&self) -> RefType {
        *self
    }
}

impl RefType {
    /// The mode that the name of a derivable trait asks for, and the name without the
    /// suffix that asked for it.
    pub open spec fn derive_mode(trait_name: Seq<char>) -> (RefType, Seq<char>) {
        if ends_with(trait_name, "RefMut"@) {
            (RefType::Mut, trim_end(trait_name, "RefMut"@))
        } else if ends_with(trait_name, "Ref"@) {
            (RefType::Ref, trim_end(trait_name, "Ref"@))
        } else {
            (RefType::No, trait_name)
        }
    }

    /// The name of the lifetime parameter that a reference mode introduces.
    pub open spec fn lifetime_text(self) -> Seq<char> {
        match self {
            RefType::No => ""@,
            _ => "'__deriveMoreLifetime"@,
        }
    }

    /// The reference operator of the mode.
    pub open spec fn reference_text(self) -> Seq<char> {
        match self {
            RefType::No => ""@,
            RefType::Ref => "&"@,
            RefType::Mut => "&mut"@,
        }
    }

    /// The mutability keyword of the mode.
    pub open spec fn mutability_text(self) -> Seq<char> {
        match self {
            RefType::Mut => "mut"@,
            _ => ""@,
        }
    }

    /// The binding mode of a pattern that takes a field in this mode.
    pub open spec fn pattern_ref_text(self) -> Seq<char> {
        match self {
            RefType::Ref => "ref"@,
            RefType::Mut => "ref mut"@,
            RefType::No => ""@,
        }
    }

    /// The reference operator with the introduced lifetime, and the mutability behind it.
    pub open spec fn reference_with_lifetime_text(self) -> Seq<char> {
        match self {
            RefType::No => ""@,
            RefType::Ref => "&'__deriveMoreLifetime"@,
            RefType::Mut => "&'__deriveMoreLifetime mut"@,
        }
    }

    /// What the mode appends to the name of a marker.
    pub open spec fn attr_suffix_text(self) -> Seq<char> {
        match self {
            RefType::No => ""@,
            RefType::Ref => "_ref"@,
            RefType::Mut => "_ref_mut"@,
        }
    }

    /// Reads the reference mode off the name of a derivable trait: a name that ends in
    /// `RefMut` asks for mutable references, one that ends in `Ref` for shared ones. The
    /// second component is the name with every trailing repetition of that suffix removed.
    pub fn from_derive(trait_name: &str) -> (r: (RefType, &str))
        ensures
            r.0 == Self::derive_mode(trait_name@).0,
            r.1@ == Self::derive_mode(trait_name@).1,
    {
        if str_ends_with(trait_name, "RefMut") {
            (RefType::Mut, str_trim_end(trait_name, "RefMut"))
        } else if str_ends_with(trait_name, "Ref") {
            (RefType::Ref, str_trim_end(trait_name, "Ref"))
        } else {
            (RefType::No, trait_name)
        }
    }

    /// The lifetime that the mode introduces: none by value.
    pub fn lifetime(self) -> (r: &'static str)
        ensures
            r@ == self.lifetime_text(),
    {
        match self {
            RefType::No => "",
            _ => "'__deriveMoreLifetime",
        }
    }

    /// The reference operator of the mode.
    pub fn reference(self) -> (r: &'static str)
        ensures
            r@ == self.reference_text(),
    {
        match self {
            RefType::No => "",
            RefType::Ref => "&",
            RefType::Mut => "&mut",
        }
    }

    /// `mut` for mutable references, nothing otherwise.
    pub fn mutability(self) -> (r: &'static str)
        ensures
            r@ == self.mutability_text(),
    {
        match self {
            RefType::Mut => "mut",
            _ => "",
        }
    }

    /// The binding mode with which a pattern takes a field in this mode.
    pub fn pattern_ref(self) -> (r: &'static str)
        ensures
            r@ == self.pattern_ref_text(),
    {
        match self {
            RefType::Ref => "ref",
            RefType::Mut => "ref mut",
            _ => "",
        }
    }

    /// The reference operator together with the introduced lifetime.
    pub fn reference_with_lifetime(self) -> (r: &'static str)
        ensures
            r@ == self.reference_with_lifetime_text(),
    {
        if !self.is_ref() {
            return "";
        }
        match self {
            RefType::Mut => "&'__deriveMoreLifetime mut",
            _ => "&'__deriveMoreLifetime",
        }
    }

    /// Whether the mode hands out references.
    pub fn is_ref(self) -> (r: bool)
        ensures
            r == (self != RefType::No),
    {
        match self {
            RefType::No => false,
            _ => true,
        }
    }

    /// What the mode appends to the name of a marker.
    pub fn attr_suffix(self) -> (r: &'static str)
        ensures
            r@ == self.attr_suffix_text(),
    {
        match self {
            RefType::No => "",
            RefType::Ref => "_ref",
            RefType::Mut => "_ref_mut",
        }
    }
}

/// The two forms of an enablement marker.
#[derive(Clone, Copy, Debug, PartialEq, Eq, Structural)]
pub enum IgnoreMeta {
    /// `#[marker]`: the item takes part.
    Enabled,
    /// `#[marker(ignore)]`: the item is left out.
    Ignored,
}

impl DeepView for IgnoreMeta {
    type V = IgnoreMeta;

    open spec fn deep_view(&self) -> IgnoreMeta {
        *self
    }
}

/// The attribute is of a structured form and the first segment of its path is `name`.
pub open spec fn is_marker(attr: AttributeView, name: Seq<char>) -> bool {
    attr.meta matches Some(meta) && meta.name() == Some(name)
}

/// The markers named `name` among `attrs`, in order.
pub open spec fn markers(attrs: Seq<AttributeView>, name: Seq<char>) -> Seq<MetaView>
    decreases attrs.len(),
{
    if attrs.len() == 0 {
        Seq::empty()
    } else {
        let before = markers(attrs.drop_last(), name);
        if is_marker(attrs.last(), name) {
            before.push(attrs.last().meta->0)
        } else {
            before
        }
    }
}

/// The refusal of a malformed marker.
pub open spec fn malformed(message: Seq<char>) -> DeriveErrorView {
    DeriveErrorView { kind: ErrorKind::MalformedAttribute, message }
}

/// What a single marker says: a bare path enables, a list that holds the lone path
/// `ignore` disables, and every other form is malformed.
pub open spec fn marker_form(meta: MetaView) -> Result<IgnoreMeta, DeriveErrorView> {
    match meta {
        MetaView::Path(_) => Ok(IgnoreMeta::Enabled),
        MetaView::NameValue(_) => Err(malformed("Attribute format not supported1"@)),
        MetaView::List(_, nested) => if nested.len() != 1 {
            Err(malformed("Attribute format not supported2"@))
        } else {
            match nested[0] {
                NestedMetaView::Literal => Err(malformed("Attribute format not supported3"@)),
                NestedMetaView::Other => Err(malformed("Attribute format not supported4"@)),
                NestedMetaView::Path(None) => Err(malformed("Attribute format not supported5"@)),
                NestedMetaView::Path(Some(word)) => if word == "ignore"@ {
                    Ok(IgnoreMeta::Ignored)
                } else {
                    Err(malformed("Attribute format not supported6"@))
                },
            }
        },
    }
}

/// The marker of family `name` that a list of attributes carries: none, one, or a refusal
/// where there are several or the one is malformed.
pub open spec fn marker_of(attrs: Seq<AttributeView>, name: Seq<char>) -> Result<
    Option<IgnoreMeta>,
    DeriveErrorView,
> {
    let found = markers(attrs, name);
    if found.len() == 0 {
        Ok(None)
    } else if found.len() > 1 {
        Err(
            DeriveErrorView {
                kind: ErrorKind::TooManyDeclarations,
                message: "Too many formats given"@,
            },
        )
    } else {
        match marker_form(found[0]) {
            Ok(form) => Ok(Some(form)),
            Err(error) => Err(error),
        }
    }
}

/// Whether an item takes part, given its own marker and the form of the first marker
/// found among its siblings: a marked item goes by its marker; an unmarked one takes part
/// unless the first marker enables explicitly.
pub open spec fn flag_of(marker: Option<IgnoreMeta>, first_match: IgnoreMeta) -> bool {
    match marker {
        Some(form) => form == IgnoreMeta::Enabled,
        None => first_match != IgnoreMeta::Enabled,
    }
}

/// Whether `attr` is a marker named `name`.
pub fn attribute_is_marker(attr: &Attribute, name: &str) -> (r: bool)
    ensures
        r == is_marker(attr.deep_view(), name@),
{
    match &attr.meta {
        Some(meta) => {
            let own = match meta {
                Meta::Path(own) => own,
                Meta::List(own, _) => own,
                Meta::NameValue(own) => own,
            };
            match own {
                Some(word) => str_eq(word.as_str(), name),
                None => false,
            }
        },
        None => false,
    }
}

/// Some attribute of the list is a marker named `name`.
pub open spec fn has_marker(attrs: Seq<AttributeView>, name: Seq<char>) -> bool {
    exists|i: int| 0 <= i < attrs.len() && is_marker(#[trigger] attrs[i], name)
}

/// Checks whether `attrs` hold the simple attribute `attr` (such as `#[as_ref]`), in any
/// structured form.
pub fn has_simple_attr(attrs: &Vec<Attribute>, attr: &str) -> (r: bool)
    ensures
        r == has_marker(attrs.deep_view(), attr@),
{
    let mut i: usize = 0;
    while i < attrs.len()
        invariant
            i <= attrs.len(),
            forall|j: int| 0 <= j < i ==> !is_marker(#[trigger] attrs.deep_view()[j], attr@),
        decreases attrs.len() - i,
    {
        if attribute_is_marker(&attrs[i], attr) {
            assert(is_marker(attrs.deep_view()[i as int], attr@));
            return true;
        }
        i += 1;
    }
    false
}

fn malformed_error(message: &str) -> (e: DeriveError)
    ensures
        e.deep_view() == malformed(message@),
{
    DeriveError::new(ErrorKind::MalformedAttribute, message)
}

/// Reads a single marker.
fn read_marker(meta: &Meta) -> (r: Result<IgnoreMeta, DeriveError>)
    ensures
        result_view(r) == marker_form(meta.deep_view()),
{
    match meta {
        Meta::Path(_) => Ok(IgnoreMeta::Enabled),
        Meta::NameValue(_) => Err(malformed_error("Attribute format not supported1")),
        Meta::List(_, nested) => {
            if nested.len() != 1 {
                return Err(malformed_error("Attribute format not supported2"));
            }
            assert(nested.deep_view()[0] == nested[0].deep_view());
            match &nested[0] {
                NestedMeta::Literal => Err(malformed_error("Attribute format not supported3")),
                NestedMeta::Other => Err(malformed_error("Attribute format not supported4")),
                NestedMeta::Path(None) => Err(malformed_error("Attribute format not supported5")),
                NestedMeta::Path(Some(word)) => {
                    if str_eq(word.as_str(), "ignore") {
                        Ok(IgnoreMeta::Ignored)
                    } else {
                        Err(malformed_error("Attribute format not supported6"))
                    }
                },
            }
        },
    }
}

/// Finds the marker named `trait_attr` among `attrs`. No marker gives `None`. Two or more
/// are refused as too many, whatever their form. A single one is read: bare it enables,
/// with the lone payload `ignore` it disables, and in any other form it is refused as
/// malformed.
pub fn get_ignore_meta(trait_attr: &str, attrs: &Vec<Attribute>) -> (r: Result<
    Option<IgnoreMeta>,
    DeriveError,
>)
    ensures
        result_view(r) == marker_of(attrs.deep_view(), trait_attr@),
{
    let ghost all = attrs.deep_view();
    let mut count: usize = 0;
    let mut first: usize = 0;
    let mut i: usize = 0;
    assert(all.take(0) =~= Seq::empty());
    while i < attrs.len()
        invariant
            i <= attrs.len(),
            all == attrs.deep_view(),
            count <= i,
            count == markers(all.take(i as int), trait_attr@).len(),
            count > 0 ==> first < i && attrs[first as int].meta is Some && markers(
                all.take(i as int),
                trait_attr@,
            )[0] == attrs[first as int].meta->0.deep_view(),
        decreases attrs.len() - i,
    {
        assert(all.take(i + 1).drop_last() =~= all.take(i as int));
        assert(all.take(i + 1).last() == attrs[i as int].deep_view());
        if attribute_is_marker(&attrs[i], trait_attr) {
            if count == 0 {
                first = i;
            }
            count += 1;
        }
        i += 1;
    }
    assert(all.take(i as int) =~= all);
    if count == 0 {
        Ok(None)
    } else if count > 1 {
        Err(DeriveError::new(ErrorKind::TooManyDeclarations, "Too many formats given"))
    } else {
        match &attrs[first].meta {
            Some(meta) => match read_marker(meta) {
                Ok(form) => Ok(Some(form)),
                Err(error) => Err(error),
            },
            None => Ok(None),
        }
    }
}

/// Whether an item with the attributes `attrs` takes part, where `first_match` is the
/// form of the first marker found among the item and its siblings.
pub fn is_enabled(trait_attr: &str, attrs: &Vec<Attribute>, first_match: IgnoreMeta) -> (r: Result<
    bool,
    DeriveError,
>)
    ensures
        match marker_of(attrs.deep_view(), trait_attr@) {
            Ok(marker) => r is Ok && r->Ok_0 == flag_of(marker, first_match),
            Err(error) => r is Err && r->Err_0.deep_view() == error,
        },
{
    match get_ignore_meta(trait_attr, attrs) {
        Ok(Some(form)) => Ok(form == IgnoreMeta::Enabled),
        Ok(None) => Ok(first_match != IgnoreMeta::Enabled),
        Err(error) => Err(error),
    }
}

/// The test for a refused marker.
pub open spec fn is_failure() -> spec_fn(Result<Option<IgnoreMeta>, DeriveErrorView>) -> bool {
    |r: Result<Option<IgnoreMeta>, DeriveErrorView>| r is Err
}

/// The test for a marker that is present and well-formed.
pub open spec fn is_marked() -> spec_fn(Result<Option<IgnoreMeta>, DeriveErrorView>) -> bool {
    |r: Result<Option<IgnoreMeta>, DeriveErrorView>| r matches Ok(Some(_))
}

/// The marker of family `name` of each item, the items given by their attribute lists.
pub open spec fn marker_results(lists: Seq<Seq<AttributeView>>, name: Seq<char>) -> Seq<
    Result<Option<IgnoreMeta>, DeriveErrorView>,
> {
    Seq::new(lists.len(), |i: int| marker_of(lists[i], name))
}

/// Which of the items take part in a derivation whose markers are named `name`.
///
/// The first refused marker, in the order of the items, refuses them all. Without any
/// marker every item takes part. Otherwise the form of the first marker decides about the
/// unmarked items: they take part where it is the ignoring form and are left out where it
/// is the enabling form. A marked item goes by its own marker.
pub open spec fn enabled_flags(lists: Seq<Seq<AttributeView>>, name: Seq<char>) -> Result<
    Seq<bool>,
    DeriveErrorView,
> {
    let results = marker_results(lists, name);
    let failed = first_where(results, is_failure());
    let marked = first_where(results, is_marked());
    if failed < results.len() {
        Err(results[failed]->Err_0)
    } else if marked < results.len() {
        Ok(Seq::new(results.len(), |i: int| flag_of(results[i]->Ok_0, results[marked]->Ok_0->0)))
    } else {
        Ok(Seq::new(results.len(), |i: int| true))
    }
}

/// Resolves which items take part, from the attribute lists of the items.
pub fn resolve_enabled(trait_attr: &str, lists: &Vec<&Vec<Attribute>>) -> (r: Result<
    Vec<bool>,
    DeriveError,
>)
    ensures
        result_view(r) == enabled_flags(lists.deep_view(), trait_attr@),
{
    let ghost results = marker_results(lists.deep_view(), trait_attr@);
    let mut found: Vec<Option<IgnoreMeta>> = Vec::new();
    let mut i: usize = 0;
    while i < lists.len()
        invariant
            i <= lists.len(),
            found.len() == i,
            results == marker_results(lists.deep_view(), trait_attr@),
            forall|j: int| 0 <= j < i ==> #[trigger] results[j] == Ok::<
                Option<IgnoreMeta>,
                DeriveErrorView,
            >(found[j]),
        decreases lists.len() - i,
    {
        assert(lists.deep_view()[i as int] == lists[i as int].deep_view());
        match get_ignore_meta(trait_attr, lists[i]) {
            Ok(marker) => {
                found.push(marker);
            },
            Err(error) => {
                proof {
                    lemma_first_where_at(results, is_failure(), i as int);
                }
                return Err(error);
            },
        }
        i += 1;
    }
    proof {
        lemma_first_where_none(results, is_failure());
    }
    let mut k: usize = 0;
    let mut first_match: Option<IgnoreMeta> = None;
    while k < found.len() && first_match.is_none()
        invariant
            k <= found.len(),
            found.len() == results.len(),
            forall|j: int| 0 <= j < found.len() ==> #[trigger] results[j] == Ok::<
                Option<IgnoreMeta>,
                DeriveErrorView,
            >(found[j]),
            first_match is None ==> forall|j: int| 0 <= j < k ==> (#[trigger] found[j]) is None,
            first_match is Some ==> 0 < k && first_where(results, is_marked()) == k - 1
                && first_match == found[k - 1],
        decreases found.len() - k,
    {
        if let Some(form) = found[k] {
            first_match = Some(form);
            proof {
                lemma_first_where_at(results, is_marked(), k as int);
            }
        }
        k += 1;
    }
    let mut flags: Vec<bool> = Vec::new();
    match first_match {
        None => {
            proof {
                lemma_first_where_none(results, is_marked());
            }
            let mut j: usize = 0;
            while j < found.len()
                invariant
                    j <= found.len(),
                    flags.len() == j,
                    forall|t: int| 0 <= t < j ==> flags[t],
                decreases found.len() - j,
            {
                flags.push(true);
                j += 1;
            }
            assert(flags.deep_view() =~= Seq::new(results.len(), |i: int| true));
        },
        Some(form) => {
            let mut j: usize = 0;
            while j < found.len()
                invariant
                    j <= found.len(),
                    flags.len() == j,
                    forall|t: int| 0 <= t < j ==> flags[t] == flag_of(found[t], form),
                decreases found.len() - j,
            {
                let flag = match found[j] {
                    Some(own) => own == IgnoreMeta::Enabled,
                    None => form != IgnoreMeta::Enabled,
                };
                flags.push(flag);
                j += 1;
            }
            assert(flags.deep_view() =~= Seq::new(
                results.len(),
                |i: int| flag_of(results[i]->Ok_0, form),
            ));
        },
    }
    Ok(flags)
}

/// The attribute lists of a list of fields.
pub open spec fn attr_lists(fields: Seq<FieldView>) -> Seq<Seq<AttributeView>> {
    Seq::new(fields.len(), |i: int| fields[i].attrs)
}

/// How each field of a list is addressed: by its name in a named list, by its position
/// otherwise.
pub open spec fn members_of(fields: Seq<FieldView>, named: bool) -> Seq<MemberView> {
    Seq::new(
        fields.len(),
        |i: int|
            if named {
                MemberView::Named(fields[i].ident->0)
            } else {
                MemberView::Index(i as usize)
            },
    )
}

/// The positional fields of a shape; none where the shape is not positional.
pub fn unnamed_to_vec(fields: &FieldShape) -> (r: Vec<&Field>)
    ensures
        r.deep_view() == (match fields.deep_view() {
            FieldShapeView::Positional(list) => list,
            _ => Seq::empty(),
        }),
{
    match fields {
        FieldShape::Positional(list) => references(list),
        _ => {
            let r: Vec<&Field> = Vec::new();
            assert(r.deep_view() =~= Seq::empty());
            r
        },
    }
}

/// The named fields of a shape; none where the shape is not named.
pub fn named_to_vec(fields: &FieldShape) -> (r: Vec<&Field>)
    ensures
        r.deep_view() == (match fields.deep_view() {
            FieldShapeView::Named(list) => list,
            _ => Seq::empty(),
        }),
{
    match fields {
        FieldShape::Named(list) => references(list),
        _ => {
            let r: Vec<&Field> = Vec::new();
            assert(r.deep_view() =~= Seq::empty());
            r
        },
    }
}

/// References to the fields of a list, in order.
pub fn references(list: &Vec<Field>) -> (r: Vec<&Field>)
    ensures
        r.deep_view() == list.deep_view(),
        r.len() == list.len(),
        forall|i: int| 0 <= i < r.len() ==> *r[i] == list[i],
{
    let mut out: Vec<&Field> = Vec::new();
    let mut i: usize = 0;
    while i < list.len()
        invariant
            i <= list.len(),
            out.len() == i,
            forall|j: int| 0 <= j < i ==> *out[j] == list[j],
        decreases list.len() - i,
    {
        out.push(&list[i]);
        i += 1;
    }
    assert(out.deep_view() =~= list.deep_view());
    out
}

/// What a derivation knows of a struct before it synthesises anything: the trait, the
/// name of its markers, the fields, and which of them take part.
#[derive(Clone, Debug, PartialEq, Eq)]
pub struct State<'a> {
    pub trait_name: String,
    pub trait_module: String,
    pub trait_path: String,
    pub trait_attr: String,
    pub named: bool,
    pub fields: Vec<&'a Field>,
    pub enabled: Vec<bool>,
}

/// The mathematical view of `State`.
pub ghost struct StateView {
    pub trait_name: Seq<char>,
    pub trait_module: Seq<char>,
    pub trait_path: Seq<char>,
    pub trait_attr: Seq<char>,
    pub named: bool,
    pub fields: Seq<FieldView>,
    pub enabled: Seq<bool>,
}

impl<'a> DeepView for State<'a> {
    type V = StateView;

    open spec fn deep_view(&self) -> StateView {
        StateView {
            trait_name: self.trait_name@,
            trait_module: self.trait_module@,
            trait_path: self.trait_path@,
            trait_attr: self.trait_attr@,
            named: self.named,
            fields: self.fields.deep_view(),
            enabled: self.enabled.deep_view(),
        }
    }
}

impl StateView {
    /// There is a flag for each field, and in a named struct every field carries its name.
    pub open spec fn well_formed(self) -> bool {
        &&& self.enabled.len() == self.fields.len()
        &&& self.named ==> all_named(self.fields)
    }

    /// The fields that take part, in order.
    pub open spec fn enabled_fields(self) -> Seq<FieldView> {
        kept(self.fields, self.enabled)
    }

    /// How the fields are addressed.
    pub open spec fn field_idents(self) -> Seq<MemberView> {
        members_of(self.fields, self.named)
    }

    /// How the fields that take part are addressed. A positional field keeps the position
    /// that it has among all fields.
    pub open spec fn enabled_fields_idents(self) -> Seq<MemberView> {
        kept(self.field_idents(), self.enabled)
    }

    /// The diagnostic of a derivation that needs a single field.
    pub open spec fn one_field_error(self, kind: ErrorKind) -> DeriveErrorView {
        DeriveErrorView { kind, message: one_field_message(self.trait_name, self.trait_attr) }
    }

    /// The one field that takes part, with how it is addressed. A struct without fields is
    /// refused as unsupported; one in which the markers leave no field, or several, as
    /// ambiguous.
    pub open spec fn single_enabled_field(self) -> Result<(FieldView, MemberView), DeriveErrorView> {
        if self.fields.len() == 0 {
            Err(self.one_field_error(ErrorKind::UnsupportedShape))
        } else if self.enabled_fields().len() != 1 {
            Err(self.one_field_error(ErrorKind::AmbiguousField))
        } else {
            Ok((self.enabled_fields()[0], self.enabled_fields_idents()[0]))
        }
    }
}

/// The state of a derivation of the trait `trait_name` of the module `trait_module`, with
/// markers named `trait_attr`, for the declaration `input`. Only a struct has one.
pub open spec fn state_of(
    input: TypeDeclarationView,
    trait_name: Seq<char>,
    trait_module: Seq<char>,
    trait_attr: Seq<char>,
) -> Result<StateView, DeriveErrorView> {
    match input.data {
        DataView::Struct(shape) => match enabled_flags(attr_lists(shape.fields()), trait_attr) {
            Ok(enabled) => Ok(
                StateView {
                    trait_name,
                    trait_module,
                    trait_path: trait_module + "::"@ + trait_name,
                    trait_attr,
                    named: shape is Named,
                    fields: shape.fields(),
                    enabled,
                },
            ),
            Err(error) => Err(error),
        },
        _ => Err(
            DeriveErrorView {
                kind: ErrorKind::UnsupportedShape,
                message: one_field_message(trait_name, trait_attr),
            },
        ),
    }
}

/// The attribute lists of the fields.
fn field_attr_lists<'a>(fields: &Vec<&'a Field>) -> (r: Vec<&'a Vec<Attribute>>)
    ensures
        r.deep_view() == attr_lists(fields.deep_view()),
{
    let mut out: Vec<&Vec<Attribute>> = Vec::new();
    let mut i: usize = 0;
    while i < fields.len()
        invariant
            i <= fields.len(),
            out.len() == i,
            forall|j: int| 0 <= j < i ==> *out[j] == fields[j].attrs,
        decreases fields.len() - i,
    {
        out.push(&fields[i].attrs);
        i += 1;
    }
    assert(out.deep_view() =~= attr_lists(fields.deep_view()));
    out
}

/// The items of `items` whose flag holds, in order.
fn keep_fields<'a>(items: &Vec<&'a Field>, flags: &Vec<bool>) -> (r: Vec<&'a Field>)
    ensures
        r.deep_view() == kept(items.deep_view(), flags.deep_view()),
        r@ == kept(items@, flags@),
{
    let mut out: Vec<&Field> = Vec::new();
    let mut i: usize = 0;
    assert(items@.take(0) =~= Seq::empty());
    while i < items.len()
        invariant
            i <= items.len(),
            out@ == kept(items@.take(i as int), flags@),
        decreases items.len() - i,
    {
        assert(items@.take(i + 1).drop_last() =~= items@.take(i as int));
        if i < flags.len() && flags[i] {
            out.push(items[i]);
        }
        i += 1;
    }
    assert(items@.take(i as int) =~= items@);
    proof {
        lemma_kept_view(items@, flags@);
        assert(flags.deep_view() =~= flags@);
        assert(items.deep_view() =~= Seq::new(items@.len(), |i: int| items@[i].deep_view()));
        assert(out.deep_view() =~= Seq::new(out@.len(), |i: int| out@[i].deep_view()));
    }
    out
}

/// Keeping commutes with taking the view of each field.
proof fn lemma_kept_view(items: Seq<&Field>, flags: Seq<bool>)
    ensures
        Seq::new(kept(items, flags).len(), |i: int| kept(items, flags)[i].deep_view()) == kept(
            Seq::new(items.len(), |i: int| items[i].deep_view()),
            flags,
        ),
    decreases items.len(),
{
    let views = Seq::new(items.len(), |i: int| items[i].deep_view());
    if items.len() > 0 {
        lemma_kept_view(items.drop_last(), flags);
        assert(views.drop_last() =~= Seq::new(
            items.drop_last().len(),
            |i: int| items.drop_last()[i].deep_view(),
        ));
    }
    assert(Seq::new(kept(items, flags).len(), |i: int| kept(items, flags)[i].deep_view())
        =~= kept(views, flags));
}

impl<'a> State<'a> {
    /// Sets up the derivation of `trait_name` for a struct and resolves which of its
    /// fields take part. A declaration that is no struct is refused as unsupported, with
    /// the diagnostic of a derivation that needs a single field; a refused marker refuses
    /// the derivation.
    pub fn new(
        input: &'a TypeDeclaration,
        trait_name: &str,
        trait_module: &str,
        trait_attr: String,
    ) -> (r: Result<State<'a>, DeriveError>)
        ensures
            result_view(r) == state_of(
                input.deep_view(),
                trait_name@,
                trait_module@,
                trait_attr@,
            ),
            r matches Ok(state) ==> state.enabled.len() == state.fields.len(),
    {
        let trait_path = concat3(trait_module, "::", trait_name);
        let named;
        let fields = match &input.data {
            Data::Struct(shape) => match shape {
                FieldShape::Positional(_) => {
                    named = false;
                    unnamed_to_vec(shape)
                },
                FieldShape::Named(_) => {
                    named = true;
                    named_to_vec(shape)
                },
                FieldShape::Unit => {
                    named = false;
                    let none: Vec<&Field> = Vec::new();
                    assert(none.deep_view() =~= Seq::empty());
                    none
                },
            },
            _ => {
                return Err(
                    DeriveError {
                        kind: ErrorKind::UnsupportedShape,
                        message: one_field_text(trait_name, trait_attr.as_str()),
                    },
                );
            },
        };
        let lists = field_attr_lists(&fields);
        let enabled = match resolve_enabled(trait_attr.as_str(), &lists) {
            Ok(enabled) => enabled,
            Err(error) => {
                return Err(error);
            },
        };
        assert(enabled.deep_view().len() == enabled.len());
        assert(fields.deep_view().len() == fields.len());
        Ok(
            State {
                trait_name: trait_name.to_owned(),
                trait_module: trait_module.to_owned(),
                trait_path,
                trait_attr,
                named,
                fields,
                enabled,
            },
        )
    }

    /// The fields that take part, in order.
    pub fn enabled_fields(&self) -> (r: Vec<&'a Field>)
        ensures
            r.deep_view() == self.deep_view().enabled_fields(),
            r@ == kept(self.fields@, self.enabled@),
    {
        keep_fields(&self.fields, &self.enabled)
    }

    /// How the field at position `i` is addressed.
    fn member_at(&self, i: usize) -> (r: Member)
        requires
            self.deep_view().well_formed(),
            i < self.fields.len(),
        ensures
            r.deep_view() == self.deep_view().field_idents()[i as int],
    {
        assert(self.fields.deep_view()[i as int] == self.fields[i as int].deep_view());
        if self.named {
            match &self.fields[i].ident {
                Some(name) => Member::Named(name.clone()),
                None => Member::Index(i),
            }
        } else {
            Member::Index(i)
        }
    }

    /// How the fields are addressed: by name in a named struct, by position otherwise.
    pub fn field_idents(&self) -> (r: Vec<Member>)
        requires
            self.deep_view().well_formed(),
        ensures
            r.deep_view() == self.deep_view().field_idents(),
    {
        let mut out: Vec<Member> = Vec::new();
        let mut i: usize = 0;
        while i < self.fields.len()
            invariant
                i <= self.fields.len(),
                out.len() == i,
                self.deep_view().well_formed(),
                forall|j: int|
                    0 <= j < i ==> (#[trigger] out[j]).deep_view()
                        == self.deep_view().field_idents()[j],
            decreases self.fields.len() - i,
        {
            out.push(self.member_at(i));
            i += 1;
        }
        assert(out.deep_view() =~= self.deep_view().field_idents());
        out
    }

    /// How the fields that take part are addressed.
    pub fn enabled_fields_idents(&self) -> (r: Vec<Member>)
        requires
            self.deep_view().well_formed(),
        ensures
            r.deep_view() == self.deep_view().enabled_fields_idents(),
    {
        let ghost members = self.deep_view().field_idents();
        let mut out: Vec<Member> = Vec::new();
        let mut i: usize = 0;
        assert(members.take(0) =~= Seq::empty());
        assert(out.deep_view() =~= Seq::empty());
        while i < self.fields.len()
            invariant
                i <= self.fields.len(),
                self.deep_view().well_formed(),
                self.enabled.len() == self.fields.len(),
                members == self.deep_view().field_idents(),
                members.len() == self.fields.len(),
                out.deep_view() == kept(members.take(i as int), self.enabled@),
            decreases self.fields.len() - i,
        {
            assert(members.take(i + 1).drop_last() =~= members.take(i as int));
            if self.enabled[i] {
                let member = self.member_at(i);
                let ghost before = out.deep_view();
                out.push(member);
                assert(out.deep_view() =~= before.push(members[i as int]));
            }
            i += 1;
        }
        assert(members.take(i as int) =~= members);
        assert(self.enabled.deep_view() =~= self.enabled@);
        out
    }

    /// The one field that takes part, its type, and how it is addressed; or the refusal of
    /// a derivation that needs exactly one such field, whose diagnostic names the trait
    /// and the marker to put on the fields.
    pub fn assert_single_enabled_field(&self) -> (r: Result<
        (&'a Field, &'a String, Member),
        DeriveError,
    >)
        requires
            self.deep_view().well_formed(),
        ensures
            match self.deep_view().single_enabled_field() {
                Ok((field, member)) => r is Ok && r->Ok_0.0.deep_view() == field && r->Ok_0.1@
                    == field.ty && r->Ok_0.2.deep_view() == member,
                Err(error) => r is Err && r->Err_0.deep_view() == error,
            },
    {
        let enabled_fields = self.enabled_fields();
        if self.fields.len() == 0 {
            return Err(
                DeriveError {
                    kind: ErrorKind::UnsupportedShape,
                    message: one_field_text(self.trait_name.as_str(), self.trait_attr.as_str()),
                },
            );
        }
        if enabled_fields.len() != 1 {
            return Err(
                DeriveError {
                    kind: ErrorKind::AmbiguousField,
                    message: one_field_text(self.trait_name.as_str(), self.trait_attr.as_str()),
                },
            );
        }
        let mut field_idents = self.enabled_fields_idents();
        proof {
            lemma_kept_len(
                self.deep_view().fields,
                self.deep_view().field_idents(),
                self.deep_view().enabled,
            );
            assert(enabled_fields.deep_view()[0] == enabled_fields[0].deep_view());
        }
        let ghost members = field_idents.deep_view();
        let member = field_idents.remove(0);
        assert(member.deep_view() == members[0]);
        Ok((enabled_fields[0], &enabled_fields[0].ty, member))
    }
}

/// The path of the operator trait `trait_ident`.
pub open spec fn operator_path(trait_ident: Seq<char>) -> Seq<char> {
    "::core::ops::"@ + trait_ident
}

/// The bound that asks a type to implement the operator trait `trait_ident` with
/// `type_ident` as the output.
pub open spec fn op_output_bound(trait_ident: Seq<char>, type_ident: Seq<char>) -> BoundView {
    BoundView { path: operator_path(trait_ident), argument: BoundArgumentView::Output(type_ident) }
}

/// The generics in which every type parameter has one bound more: the operator trait
/// `trait_ident` with the parameter itself as the output. Nothing else changes.
pub open spec fn with_op_output_bounds(generics: GenericsView, trait_ident: Seq<char>) -> GenericsView {
    GenericsView {
        params: Seq::new(
            generics.params.len(),
            |i: int|
                match generics.params[i] {
                    GenericParamView::Type(ident, bounds) => GenericParamView::Type(
                        ident,
                        bounds.push(op_output_bound(trait_ident, ident)),
                    ),
                    other => other,
                },
        ),
        predicates: generics.predicates,
    }
}

/// The generics in which every type parameter has `bound` as one bound more.
pub open spec fn with_bound(generics: GenericsView, bound: BoundView) -> GenericsView {
    GenericsView {
        params: Seq::new(
            generics.params.len(),
            |i: int|
                match generics.params[i] {
                    GenericParamView::Type(ident, bounds) => GenericParamView::Type(
                        ident,
                        bounds.push(bound),
                    ),
                    other => other,
                },
        ),
        predicates: generics.predicates,
    }
}

/// The names of the type parameters among `params`, in order.
pub open spec fn type_param_idents(params: Seq<GenericParamView>) -> Seq<Seq<char>>
    decreases params.len(),
{
    if params.len() == 0 {
        Seq::empty()
    } else {
        let before = type_param_idents(params.drop_last());
        match params.last() {
            GenericParamView::Type(ident, _) => before.push(ident),
            _ => before,
        }
    }
}

/// For each type named, the predicate that puts `bound` on a reference to it.
pub open spec fn reference_predicates(
    idents: Seq<Seq<char>>,
    bound: BoundView,
    ref_type: RefType,
) -> Seq<WherePredicateView> {
    Seq::new(
        idents.len(),
        |i: int| WherePredicateView { reference: ref_type, bounded: idents[i], bound },
    )
}

/// The generics with `clauses` in front of the predicates of the where clause.
pub open spec fn with_where_clauses(
    generics: GenericsView,
    clauses: Seq<WherePredicateView>,
) -> GenericsView {
    GenericsView { params: generics.params, predicates: clauses + generics.predicates }
}

/// The generics with `bound` on every type parameter: by value as a bound of the
/// parameter, in a reference mode as a predicate on the reference to it.
pub open spec fn with_bound_ref(
    generics: GenericsView,
    bound: BoundView,
    ref_type: RefType,
) -> GenericsView {
    if ref_type == RefType::No {
        with_bound(generics, bound)
    } else {
        with_where_clauses(
            generics,
            reference_predicates(type_param_idents(generics.params), bound, ref_type),
        )
    }
}

/// The generics with `param` as the last parameter.
pub open spec fn with_param(generics: GenericsView, param: GenericParamView) -> GenericsView {
    GenericsView { params: generics.params.push(param), predicates: generics.predicates }
}

/// The type parameter that stands for a scalar operand: it must be copyable where it is
/// handed to more than one field.
pub open spec fn new_ident_param(fields: nat, type_ident: Seq<char>) -> GenericParamView {
    GenericParamView::Type(
        type_ident,
        if fields > 1 {
            seq![BoundView { path: "::core::marker::Copy"@, argument: BoundArgumentView::Absent }]
        } else {
            Seq::empty()
        },
    )
}

/// Adds to every type parameter the bound that it implements the operator trait
/// `trait_ident` with itself as the output.
pub fn add_extra_type_param_bound_op_output(generics: &Generics, trait_ident: &str) -> (r: Generics)
    ensures
        r.deep_view() == with_op_output_bounds(generics.deep_view(), trait_ident@),
{
    let mut params: Vec<GenericParam> = Vec::new();
    let mut i: usize = 0;
    while i < generics.params.len()
        invariant
            i <= generics.params.len(),
            params.len() == i,
            forall|j: int|
                0 <= j < i ==> (#[trigger] params[j]).deep_view() == with_op_output_bounds(
                    generics.deep_view(),
                    trait_ident@,
                ).params[j],
        decreases generics.params.len() - i,
    {
        assert(generics.params.deep_view()[i as int] == generics.params[i as int].deep_view());
        let param = match &generics.params[i] {
            GenericParam::Type(ident, bounds) => {
                let mut extended = duplicate_bounds(bounds);
                let ghost before = extended.deep_view();
                let bound = Bound {
                    path: concat2("::core::ops::", trait_ident),
                    argument: BoundArgument::Output(ident.clone()),
                };
                extended.push(bound);
                assert(extended.deep_view() =~= before.push(
                    op_output_bound(trait_ident@, ident@),
                ));
                GenericParam::Type(ident.clone(), extended)
            },
            other => other.duplicate(),
        };
        params.push(param);
        i += 1;
    }
    let r = Generics { params, predicates: duplicate_predicates(&generics.predicates) };
    assert(r.deep_view().params =~= with_op_output_bounds(
        generics.deep_view(),
        trait_ident@,
    ).params);
    r
}

/// Adds to every type parameter the bound that it implements the operator trait
/// `trait_ident`.
pub fn add_extra_ty_param_bound_op(generics: &Generics, trait_ident: &str) -> (r: Generics)
    ensures
        r.deep_view() == with_bound(
            generics.deep_view(),
            BoundView { path: operator_path(trait_ident@), argument: BoundArgumentView::Absent },
        ),
{
    add_extra_ty_param_bound(generics, &Bound::plain(concat2("::core::ops::", trait_ident)))
}

/// Adds `bound` to every type parameter.
pub fn add_extra_ty_param_bound(generics: &Generics, bound: &Bound) -> (r: Generics)
    ensures
        r.deep_view() == with_bound(generics.deep_view(), bound.deep_view()),
{
    let mut params: Vec<GenericParam> = Vec::new();
    let mut i: usize = 0;
    while i < generics.params.len()
        invariant
            i <= generics.params.len(),
            params.len() == i,
            forall|j: int|
                0 <= j < i ==> (#[trigger] params[j]).deep_view() == with_bound(
                    generics.deep_view(),
                    bound.deep_view(),
                ).params[j],
        decreases generics.params.len() - i,
    {
        assert(generics.params.deep_view()[i as int] == generics.params[i as int].deep_view());
        let param = match &generics.params[i] {
            GenericParam::Type(ident, bounds) => {
                let mut extended = duplicate_bounds(bounds);
                let ghost before = extended.deep_view();
                extended.push(bound.duplicate());
                assert(extended.deep_view() =~= before.push(bound.deep_view()));
                GenericParam::Type(ident.clone(), extended)
            },
            other => other.duplicate(),
        };
        params.push(param);
        i += 1;
    }
    let r = Generics { params, predicates: duplicate_predicates(&generics.predicates) };
    assert(r.deep_view().params =~= with_bound(generics.deep_view(), bound.deep_view()).params);
    r
}

/// Adds `bound` to every type parameter in the way of the reference mode: by value as a
/// bound of the parameter itself; by reference as predicates of the where clause, one for
/// the reference to each type parameter, in front of the predicates already there.
pub fn add_extra_ty_param_bound_ref(generics: &Generics, bound: &Bound, ref_type: RefType) -> (r:
    Generics)
    ensures
        r.deep_view() == with_bound_ref(generics.deep_view(), bound.deep_view(), ref_type),
{
    match ref_type {
        RefType::No => add_extra_ty_param_bound(generics, bound),
        _ => {
            let ghost all = generics.params.deep_view();
            let mut clauses: Vec<WherePredicate> = Vec::new();
            let mut i: usize = 0;
            assert(all.take(0) =~= Seq::empty());
            assert(clauses.deep_view() =~= reference_predicates(
                type_param_idents(all.take(0)),
                bound.deep_view(),
                ref_type,
            ));
            while i < generics.params.len()
                invariant
                    i <= generics.params.len(),
                    all == generics.params.deep_view(),
                    clauses.deep_view() == reference_predicates(
                        type_param_idents(all.take(i as int)),
                        bound.deep_view(),
                        ref_type,
                    ),
                decreases generics.params.len() - i,
            {
                assert(all.take(i + 1).drop_last() =~= all.take(i as int));
                assert(all[i as int] == generics.params[i as int].deep_view());
                if let GenericParam::Type(ident, _) = &generics.params[i] {
                    let ghost before = clauses.deep_view();
                    let clause = WherePredicate {
                        reference: ref_type,
                        bounded: ident.clone(),
                        bound: bound.duplicate(),
                    };
                    clauses.push(clause);
                    assert(clauses.deep_view() =~= before.push(clause.deep_view()));
                    assert(clauses.deep_view() =~= reference_predicates(
                        type_param_idents(all.take(i + 1)),
                        bound.deep_view(),
                        ref_type,
                    ));
                }
                i += 1;
            }
            assert(all.take(i as int) =~= all);
            add_extra_where_clauses(generics, clauses)
        },
    }
}

/// Adds `generic_param` behind the parameters.
pub fn add_extra_generic_param(generics: &Generics, generic_param: GenericParam) -> (r: Generics)
    ensures
        r.deep_view() == with_param(generics.deep_view(), generic_param.deep_view()),
{
    let mut params = duplicate_params(&generics.params);
    let ghost before = params.deep_view();
    params.push(generic_param);
    assert(params.deep_view() =~= before.push(generic_param.deep_view()));
    Generics { params, predicates: duplicate_predicates(&generics.predicates) }
}

/// Puts `type_where_clauses` in front of the predicates of the where clause.
pub fn add_extra_where_clauses(generics: &Generics, type_where_clauses: Vec<WherePredicate>) -> (r:
    Generics)
    ensures
        r.deep_view() == with_where_clauses(generics.deep_view(), type_where_clauses.deep_view()),
{
    let mut predicates = type_where_clauses;
    let mut i: usize = 0;
    while i < generics.predicates.len()
        invariant
            i <= generics.predicates.len(),
            predicates.deep_view() == type_where_clauses.deep_view()
                + generics.predicates.deep_view().take(i as int),
        decreases generics.predicates.len() - i,
    {
        let ghost before = predicates.deep_view();
        predicates.push(generics.predicates[i].duplicate());
        assert(predicates.deep_view() =~= before.push(generics.predicates[i as int].deep_view()));
        assert(generics.predicates.deep_view().take(i + 1) =~= generics.predicates.deep_view().take(
            i as int,
        ).push(generics.predicates[i as int].deep_view()));
        i += 1;
    }
    assert(generics.predicates.deep_view().take(i as int) =~= generics.predicates.deep_view());
    Generics { params: duplicate_params(&generics.params), predicates }
}

/// Extends the generics for an operand of a new type `type_ident`: the clauses go in
/// front of the where clause, and the type becomes the last parameter, bound to be
/// copyable where the struct has more than one field.
pub fn add_where_clauses_for_new_ident(
    generics: &Generics,
    fields: &Vec<&Field>,
    type_ident: &str,
    type_where_clauses: Vec<WherePredicate>,
) -> (r: Generics)
    ensures
        r.deep_view() == with_param(
            with_where_clauses(generics.deep_view(), type_where_clauses.deep_view()),
            new_ident_param(fields.len() as nat, type_ident@),
        ),
{
    let mut bounds: Vec<Bound> = Vec::new();
    if fields.len() > 1 {
        bounds.push(Bound::plain("::core::marker::Copy".to_owned()));
        assert(bounds.deep_view() =~= seq![
            BoundView { path: "::core::marker::Copy"@, argument: BoundArgumentView::Absent },
        ]);
    } else {
        assert(bounds.deep_view() =~= Seq::empty());
    }
    let generic_param = GenericParam::Type(type_ident.to_owned(), bounds);
    let generics = add_extra_where_clauses(generics, type_where_clauses);
    add_extra_generic_param(&generics, generic_param)
}

/// The name of the variable numbered `index` in the family `prefix`.
pub open spec fn numbered_var(prefix: Seq<char>, index: nat) -> Seq<char> {
    "__"@ + prefix + decimal(index)
}

/// The names of `count` variables of the family `prefix`: two underscores, the prefix and
/// the position in decimal.
pub fn numbered_vars(count: usize, prefix: &str) -> (r: Vec<String>)
    ensures
        r.deep_view() == Seq::new(count as nat, |i: int| numbered_var(prefix@, i as nat)),
{
    let mut out: Vec<String> = Vec::new();
    let mut i: usize = 0;
    while i < count
        invariant
            i <= count,
            out.len() == i,
            forall|j: int| 0 <= j < i ==> (#[trigger] out[j])@ == numbered_var(prefix@, j as nat),
        decreases count - i,
    {
        let number = decimal_string(i);
        out.push(concat3("__", prefix, number.as_str()));
        i += 1;
    }
    assert(out.deep_view() =~= Seq::new(count as nat, |i: int| numbered_var(prefix@, i as nat)));
    out
}

/// The positions `0` to `count - 1`, by which the fields of a positional shape are
/// addressed.
pub fn number_idents(count: usize) -> (r: Vec<usize>)
    ensures
        r@ == Seq::new(count as nat, |i: int| i as usize),
{
    let mut out: Vec<usize> = Vec::new();
    let mut i: usize = 0;
    while i < count
        invariant
            i <= count,
            out.len() == i,
            forall|j: int| 0 <= j < i ==> out[j] == j,
        decreases count - i,
    {
        out.push(i);
        i += 1;
    }
    assert(out@ =~= Seq::new(count as nat, |i: int| i as usize));
    out
}

/// The names of the fields of a named shape.
pub fn field_idents(fields: &Vec<&Field>) -> (r: Vec<String>)
    requires
        all_named(fields.deep_view()),
    ensures
        r.deep_view() == names_of(fields.deep_view()),
{
    let mut out: Vec<String> = Vec::new();
    let mut i: usize = 0;
    while i < fields.len()
        invariant
            i <= fields.len(),
            out.len() == i,
            all_named(fields.deep_view()),
            forall|j: int|
                0 <= j < i ==> (#[trigger] out[j])@ == fields.deep_view()[j].ident->0,
        decreases fields.len() - i,
    {
        assert(fields.deep_view()[i as int] == fields[i as int].deep_view());
        match &fields[i].ident {
            Some(name) => {
                out.push(name.clone());
            },
            None => {
                assert(false);
            },
        }
        i += 1;
    }
    assert(out.deep_view() =~= names_of(fields.deep_view()));
    out
}

/// The type of the field at position `index`; nothing behind the last field.
pub fn get_field_types_iter<'a>(fields: &Vec<&'a Field>, index: usize) -> (r: Option<&'a String>)
    ensures
        index < fields.len() ==> r is Some && r->0@ == types_of(fields.deep_view())[index as int],
        index >= fields.len() ==> r is None,
{
    if index < fields.len() {
        assert(fields.deep_view()[index as int] == fields[index as int].deep_view());
        Some(&fields[index].ty)
    } else {
        None
    }
}

/// The types of the fields, in order.
pub fn get_field_types(fields: &Vec<&Field>) -> (r: Vec<String>)
    ensures
        r.deep_view() == types_of(fields.deep_view()),
{
    let mut out: Vec<String> = Vec::new();
    let mut i: usize = 0;
    while i < fields.len()
        invariant
            i <= fields.len(),
            out.len() == i,
            forall|j: int|
                0 <= j < i ==> (#[trigger] out[j])@ == types_of(fields.deep_view())[j],
        decreases fields.len() - i,
    {
        match get_field_types_iter(fields, i) {
            Some(ty) => {
                out.push(ty.clone());
            },
            None => {
                assert(false);
            },
        }
        i += 1;
    }
    assert(out.deep_view() =~= types_of(fields.deep_view()));
    out
}

/// The fields of a shape, in order.
pub fn shape_fields(shape: &FieldShape) -> (r: Vec<&Field>)
    ensures
        r.deep_view() == shape.deep_view().fields(),
{
    match shape {
        FieldShape::Unit => {
            let none: Vec<&Field> = Vec::new();
            assert(none.deep_view() =~= Seq::empty());
            none
        },
        FieldShape::Positional(fields) => references(fields),
        FieldShape::Named(fields) => references(fields),
    }
}

/// Which fields a derivation by a simple attribute reads: the sole field of a struct with
/// one field, and otherwise the fields that carry the attribute.
pub open spec fn simple_flags(fields: Seq<FieldView>, attr: Seq<char>) -> Seq<bool> {
    Seq::new(fields.len(), |i: int| fields.len() == 1 || has_marker(fields[i].attrs, attr))
}

/// The positions `0` to `count - 1` as members.
pub open spec fn counted_members(count: nat) -> Seq<MemberView> {
    Seq::new(count, |i: int| MemberView::Index(i as usize))
}

/// The types of the fields that a derivation by the simple attribute `attr` reads, and
/// how those fields are addressed: by name in a named struct; in a positional struct by
/// the number that the field has among the fields read.
pub open spec fn field_info(data: DataView, attr: Seq<char>) -> Result<
    (Seq<Seq<char>>, Seq<MemberView>),
    DeriveErrorView,
> {
    match data {
        DataView::Struct(FieldShapeView::Named(fields)) => Ok(
            (
                kept(types_of(fields), simple_flags(fields, attr)),
                kept(members_of(fields, true), simple_flags(fields, attr)),
            ),
        ),
        DataView::Struct(FieldShapeView::Positional(fields)) => Ok(
            (
                kept(types_of(fields), simple_flags(fields, attr)),
                counted_members(kept(types_of(fields), simple_flags(fields, attr)).len()),
            ),
        ),
        DataView::Struct(FieldShapeView::Unit) => Err(
            DeriveErrorView {
                kind: ErrorKind::UnsupportedShape,
                message: "struct must have one or more fields"@,
            },
        ),
        _ => Err(
            DeriveErrorView {
                kind: ErrorKind::UnsupportedShape,
                message: "only structs may derive this trait"@,
            },
        ),
    }
}

/// Extracts the types and the members of the fields of a struct that a derivation by the
/// simple attribute `attr` reads. If the struct has more than one field, only the fields
/// decorated with `attr` are considered. A struct without fields is refused, and so is
/// what is no struct.
pub fn extract_field_info(data: &Data, attr: &str) -> (r: Result<
    (Vec<String>, Vec<Member>),
    DeriveError,
>)
    requires
        data.deep_view().well_formed(),
    ensures
        match field_info(data.deep_view(), attr@) {
            Ok(info) => r is Ok && r->Ok_0.0.deep_view() == info.0 && r->Ok_0.1.deep_view()
                == info.1,
            Err(error) => r is Err && r->Err_0.deep_view() == error,
        },
{
    let (named, fields) = match data {
        Data::Struct(shape) => match shape {
            FieldShape::Named(fields) => (true, fields),
            FieldShape::Positional(fields) => (false, fields),
            FieldShape::Unit => {
                return Err(
                    DeriveError::new(
                        ErrorKind::UnsupportedShape,
                        "struct must have one or more fields",
                    ),
                );
            },
        },
        _ => {
            return Err(
                DeriveError::new(ErrorKind::UnsupportedShape, "only structs may derive this trait"),
            );
        },
    };
    let ghost all = fields.deep_view();
    let ghost flags = simple_flags(all, attr@);
    let ghost all_types = types_of(all);
    let ghost all_members = members_of(all, true);
    let len = fields.len();
    let mut types: Vec<String> = Vec::new();
    let mut members: Vec<Member> = Vec::new();
    let mut i: usize = 0;
    assert(all_types.take(0) =~= Seq::empty());
    assert(all_members.take(0) =~= Seq::empty());
    assert(types.deep_view() =~= Seq::empty());
    assert(members.deep_view() =~= Seq::empty());
    assert(counted_members(0) =~= Seq::empty());
    while i < len
        invariant
            i <= len,
            len == fields.len(),
            all == fields.deep_view(),
            flags == simple_flags(all, attr@),
            all_types == types_of(all),
            all_members == members_of(all, true),
            named ==> all_named(all),
            types.deep_view() == kept(all_types.take(i as int), flags),
            named ==> members.deep_view() == kept(all_members.take(i as int), flags),
            !named ==> members.deep_view() == counted_members(types.len() as nat),
            types.len() <= i,
        decreases len - i,
    {
        assert(all_types.take(i + 1).drop_last() =~= all_types.take(i as int));
        assert(all_members.take(i + 1).drop_last() =~= all_members.take(i as int));
        assert(all[i as int] == fields[i as int].deep_view());
        if len == 1 || has_simple_attr(&fields[i].attrs, attr) {
            let member = member_of(&fields[i], types.len(), named);
            let ghost types_before = types.deep_view();
            let ghost members_before = members.deep_view();
            types.push(fields[i].ty.clone());
            members.push(member);
            assert(types.deep_view() =~= types_before.push(all_types[i as int]));
            assert(members.deep_view() =~= members_before.push(member.deep_view()));
            if !named {
                assert(members.deep_view() =~= counted_members(types.len() as nat));
            }
        }
        i += 1;
    }
    assert(all_types.take(i as int) =~= all_types);
    assert(all_members.take(i as int) =~= all_members);
    Ok((types, members))
}

} // verus!
