//! The parsed type declaration that a derivation reads: plain data, with a mathematical
//! view of each type. Types, lifetimes and bounds that the declaration carries are held
//! as the text in which they were written.

use vstd::prelude::*;
use vstd::string::*;
use crate::utils::RefType;

verus! {

/// One item inside the parentheses of a list attribute.
#[derive(Clone, Debug, PartialEq, Eq)]
pub enum NestedMeta {
    /// A literal.
    Literal,
    /// A bare path, with the identifier of its first segment.
    Path(Option<String>),
    /// A nested list or a name with a value.
    Other,
}

/// The mathematical view of `NestedMeta`.
pub ghost enum NestedMetaView {
    Literal,
    Path(Option<Seq<char>>),
    Other,
}

impl DeepView for NestedMeta {
    type V = NestedMetaView;

    open spec fn deep_view(&self) -> NestedMetaView {
        match self {
            NestedMeta::Literal => NestedMetaView::Literal,
            NestedMeta::Path(name) => NestedMetaView::Path(name.deep_view()),
            NestedMeta::Other => NestedMetaView::Other,
        }
    }
}

/// The structured content of an attribute. Each form carries the identifier of the first
/// segment of the attribute's path, where the path has one.
#[derive(Clone, Debug, PartialEq, Eq)]
pub enum Meta {
    /// `#[name]`
    Path(Option<String>),
    /// `#[name(items)]`
    List(Option<String>, Vec<NestedMeta>),
    /// `#[name = value]`
    NameValue(Option<String>),
}

/// The mathematical view of `Meta`.
pub ghost enum MetaView {
    Path(Option<Seq<char>>),
    List(Option<Seq<char>>, Seq<NestedMetaView>),
    NameValue(Option<Seq<char>>),
}

impl DeepView for Meta {
    type V = MetaView;

    open spec fn deep_view(&self) -> MetaView {
        match self {
            Meta::Path(name) => MetaView::Path(name.deep_view()),
            Meta::List(name, nested) => MetaView::List(name.deep_view(), nested.deep_view()),
            Meta::NameValue(name) => MetaView::NameValue(name.deep_view()),
        }
    }
}

impl MetaView {
    /// The identifier of the first segment of the attribute's path.
    pub open spec fn name(self) -> Option<Seq<char>> {
        match self {
            MetaView::Path(name) => name,
            MetaView::List(name, _) => name,
            MetaView::NameValue(name) => name,
        }
    }
}

/// An attribute on a field or a variant: its structured content, or nothing where the
/// attribute is not of a structured form.
#[derive(Clone, Debug, PartialEq, Eq)]
pub struct Attribute {
    pub meta: Option<Meta>,
}

/// The mathematical view of `Attribute`.
pub ghost struct AttributeView {
    pub meta: Option<MetaView>,
}

impl DeepView for Attribute {
    type V = AttributeView;

    open spec fn deep_view(&self) -> AttributeView {
        AttributeView { meta: self.meta.deep_view() }
    }
}

/// A field: its name where it has one, the text of its type, and its attributes.
#[derive(Clone, Debug, PartialEq, Eq)]
pub struct Field {
    pub ident: Option<String>,
    pub ty: String,
    pub attrs: Vec<Attribute>,
}

/// The mathematical view of `Field`.
pub ghost struct FieldView {
    pub ident: Option<Seq<char>>,
    pub ty: Seq<char>,
    pub attrs: Seq<AttributeView>,
}

impl DeepView for Field {
    type V = FieldView;

    open spec fn deep_view(&self) -> FieldView {
        FieldView {
            ident: self.ident.deep_view(),
            ty: self.ty@,
            attrs: self.attrs.deep_view(),
        }
    }
}

/// The structural kind of a list of fields. The order of the fields is significant.
#[derive(Clone, Debug, PartialEq, Eq)]
pub enum FieldShape {
    /// No fields.
    Unit,
    /// Unnamed slots, addressed by position.
    Positional(Vec<Field>),
    /// Named fields.
    Named(Vec<Field>),
}

/// The mathematical view of `FieldShape`.
pub ghost enum FieldShapeView {
    Unit,
    Positional(Seq<FieldView>),
    Named(Seq<FieldView>),
}

impl DeepView for FieldShape {
    type V = FieldShapeView;

    open spec fn deep_view(&self) -> FieldShapeView {
        match self {
            FieldShape::Unit => FieldShapeView::Unit,
            FieldShape::Positional(fields) => FieldShapeView::Positional(fields.deep_view()),
            FieldShape::Named(fields) => FieldShapeView::Named(fields.deep_view()),
        }
    }
}

/// Every field of the list carries a name.
pub open spec fn all_named(fields: Seq<FieldView>) -> bool {
    forall|i: int| 0 <= i < fields.len() ==> (#[trigger] fields[i]).ident is Some
}

/// The names of a list of fields in which every field carries one.
pub open spec fn names_of(fields: Seq<FieldView>) -> Seq<Seq<char>> {
    Seq::new(fields.len(), |i: int| fields[i].ident->0)
}

/// The types of a list of fields.
pub open spec fn types_of(fields: Seq<FieldView>) -> Seq<Seq<char>> {
    Seq::new(fields.len(), |i: int| fields[i].ty)
}

impl FieldShapeView {
    /// The fields in order; none for the unit shape.
    pub open spec fn fields(self) -> Seq<FieldView> {
        match self {
            FieldShapeView::Unit => Seq::empty(),
            FieldShapeView::Positional(fields) => fields,
            FieldShapeView::Named(fields) => fields,
        }
    }

    /// In the named shape every field carries its name.
    pub open spec fn well_formed(self) -> bool {
        self matches FieldShapeView::Named(fields) ==> all_named(fields)
    }
}

/// A variant of an enum.
#[derive(Clone, Debug, PartialEq, Eq)]
pub struct Variant {
    pub ident: String,
    pub attrs: Vec<Attribute>,
    pub shape: FieldShape,
}

/// The mathematical view of `Variant`.
pub ghost struct VariantView {
    pub ident: Seq<char>,
    pub attrs: Seq<AttributeView>,
    pub shape: FieldShapeView,
}

impl DeepView for Variant {
    type V = VariantView;

    open spec fn deep_view(&self) -> VariantView {
        VariantView {
            ident: self.ident@,
            attrs: self.attrs.deep_view(),
            shape: self.shape.deep_view(),
        }
    }
}

/// The body of a declaration.
#[derive(Clone, Debug, PartialEq, Eq)]
pub enum Data {
    Struct(FieldShape),
    Enum(Vec<Variant>),
    Union,
}

/// The mathematical view of `Data`.
pub ghost enum DataView {
    Struct(FieldShapeView),
    Enum(Seq<VariantView>),
    Union,
}

impl DeepView for Data {
    type V = DataView;

    open spec fn deep_view(&self) -> DataView {
        match self {
            Data::Struct(shape) => DataView::Struct(shape.deep_view()),
            Data::Enum(variants) => DataView::Enum(variants.deep_view()),
            Data::Union => DataView::Union,
        }
    }
}

impl DataView {
    /// Every named shape of the declaration is well-formed.
    pub open spec fn well_formed(self) -> bool {
        match self {
            DataView::Struct(shape) => shape.well_formed(),
            DataView::Enum(variants) => forall|i: int|
                0 <= i < variants.len() ==> (#[trigger] variants[i]).shape.well_formed(),
            DataView::Union => true,
        }
    }
}

/// What stands in the angle brackets behind the path of a bound.
#[derive(Clone, Debug, PartialEq, Eq)]
pub enum BoundArgument {
    /// Nothing: the bound is the path alone.
    Absent,
    /// A type: `path<ty>`.
    Type(String),
    /// The associated output type: `path<Output = ty>`.
    Output(String),
}

/// The mathematical view of `BoundArgument`.
pub ghost enum BoundArgumentView {
    Absent,
    Type(Seq<char>),
    Output(Seq<char>),
}

impl DeepView for BoundArgument {
    type V = BoundArgumentView;

    open spec fn deep_view(&self) -> BoundArgumentView {
        match self {
            BoundArgument::Absent => BoundArgumentView::Absent,
            BoundArgument::Type(ty) => BoundArgumentView::Type(ty@),
            BoundArgument::Output(ty) => BoundArgumentView::Output(ty@),
        }
    }
}

/// A bound on a type: a path, or whatever else the declaration wrote in its place, and
/// the argument that a derivation adds to it.
#[derive(Clone, Debug, PartialEq, Eq)]
pub struct Bound {
    pub path: String,
    pub argument: BoundArgument,
}

/// The mathematical view of `Bound`.
pub ghost struct BoundView {
    pub path: Seq<char>,
    pub argument: BoundArgumentView,
}

impl DeepView for Bound {
    type V = BoundView;

    open spec fn deep_view(&self) -> BoundView {
        BoundView { path: self.path@, argument: self.argument.deep_view() }
    }
}

/// A generic parameter. Lifetime and const parameters are carried as written.
#[derive(Clone, Debug, PartialEq, Eq)]
pub enum GenericParam {
    Lifetime(String),
    Type(String, Vec<Bound>),
    Const(String),
}

/// The mathematical view of `GenericParam`.
pub ghost enum GenericParamView {
    Lifetime(Seq<char>),
    Type(Seq<char>, Seq<BoundView>),
    Const(Seq<char>),
}

impl DeepView for GenericParam {
    type V = GenericParamView;

    open spec fn deep_view(&self) -> GenericParamView {
        match self {
            GenericParam::Lifetime(text) => GenericParamView::Lifetime(text@),
            GenericParam::Type(ident, bounds) => GenericParamView::Type(
                ident@,
                bounds.deep_view(),
            ),
            GenericParam::Const(text) => GenericParamView::Const(text@),
        }
    }
}

/// A predicate of a where clause: the bounded type, behind a reference where
/// `reference` asks for one, and its bound.
#[derive(Clone, Debug, PartialEq, Eq)]
pub struct WherePredicate {
    pub reference: RefType,
    pub bounded: String,
    pub bound: Bound,
}

/// The mathematical view of `WherePredicate`.
pub ghost struct WherePredicateView {
    pub reference: RefType,
    pub bounded: Seq<char>,
    pub bound: BoundView,
}

impl DeepView for WherePredicate {
    type V = WherePredicateView;

    open spec fn deep_view(&self) -> WherePredicateView {
        WherePredicateView {
            reference: self.reference,
            bounded: self.bounded@,
            bound: self.bound.deep_view(),
        }
    }
}

/// The generic parameters of a declaration and the predicates of its where clause.
#[derive(Clone, Debug, PartialEq, Eq)]
pub struct Generics {
    pub params: Vec<GenericParam>,
    pub predicates: Vec<WherePredicate>,
}

/// The mathematical view of `Generics`.
pub ghost struct GenericsView {
    pub params: Seq<GenericParamView>,
    pub predicates: Seq<WherePredicateView>,
}

impl DeepView for Generics {
    type V = GenericsView;

    open spec fn deep_view(&self) -> GenericsView {
        GenericsView {
            params: self.params.deep_view(),
            predicates: self.predicates.deep_view(),
        }
    }
}

/// A parsed type declaration: the input of every derivation.
#[derive(Clone, Debug, PartialEq, Eq)]
pub struct TypeDeclaration {
    pub ident: String,
    pub generics: Generics,
    pub data: Data,
}

/// The mathematical view of `TypeDeclaration`.
pub ghost struct TypeDeclarationView {
    pub ident: Seq<char>,
    pub generics: GenericsView,
    pub data: DataView,
}

impl DeepView for TypeDeclaration {
    type V = TypeDeclarationView;

    open spec fn deep_view(&self) -> TypeDeclarationView {
        TypeDeclarationView {
            ident: self.ident@,
            generics: self.generics.deep_view(),
            data: self.data.deep_view(),
        }
    }
}

/// A copy of a list of texts.
pub fn duplicate_texts(list: &Vec<String>) -> (r: Vec<String>)
    ensures
        r.deep_view() == list.deep_view(),
{
    let mut out: Vec<String> = Vec::new();
    let mut i: usize = 0;
    while i < list.len()
        invariant
            i <= list.len(),
            out.len() == i,
            forall|j: int| 0 <= j < i ==> out[j]@ == list[j]@,
        decreases list.len() - i,
    {
        out.push(list[i].clone());
        i += 1;
    }
    assert(out.deep_view() =~= list.deep_view());
    out
}

impl Bound {
    /// A bound that is the path alone.
    pub fn plain(path: String) -> (r: Bound)
        ensures
            r.deep_view() == (BoundView { path: path@, argument: BoundArgumentView::Absent }),
    {
        Bound { path, argument: BoundArgument::Absent }
    }

    /// A copy of the bound.
    pub fn duplicate(&self) -> (r: Bound)
        ensures
            r.deep_view() == self.deep_view(),
    {
        let argument = match &self.argument {
            BoundArgument::Absent => BoundArgument::Absent,
            BoundArgument::Type(ty) => BoundArgument::Type(ty.clone()),
            BoundArgument::Output(ty) => BoundArgument::Output(ty.clone()),
        };
        Bound { path: self.path.clone(), argument }
    }
}

/// A copy of a list of bounds.
pub fn duplicate_bounds(list: &Vec<Bound>) -> (r: Vec<Bound>)
    ensures
        r.deep_view() == list.deep_view(),
{
    let mut out: Vec<Bound> = Vec::new();
    let mut i: usize = 0;
    while i < list.len()
        invariant
            i <= list.len(),
            out.len() == i,
            forall|j: int| 0 <= j < i ==> out[j].deep_view() == list[j].deep_view(),
        decreases list.len() - i,
    {
        out.push(list[i].duplicate());
        i += 1;
    }
    assert(out.deep_view() =~= list.deep_view());
    out
}

impl GenericParam {
    /// A copy of the parameter.
    pub fn duplicate(&self) -> (r: GenericParam)
        ensures
            r.deep_view() == self.deep_view(),
    {
        match self {
            GenericParam::Lifetime(text) => GenericParam::Lifetime(text.clone()),
            GenericParam::Type(ident, bounds) => GenericParam::Type(
                ident.clone(),
                duplicate_bounds(bounds),
            ),
            GenericParam::Const(text) => GenericParam::Const(text.clone()),
        }
    }
}

impl WherePredicate {
    /// A copy of the predicate.
    pub fn duplicate(&self) -> (r: WherePredicate)
        ensures
            r.deep_view() == self.deep_view(),
    {
        WherePredicate {
            reference: self.reference,
            bounded: self.bounded.clone(),
            bound: self.bound.duplicate(),
        }
    }
}

/// A copy of a list of parameters.
pub fn duplicate_params(list: &Vec<GenericParam>) -> (r: Vec<GenericParam>)
    ensures
        r.deep_view() == list.deep_view(),
{
    let mut out: Vec<GenericParam> = Vec::new();
    let mut i: usize = 0;
    while i < list.len()
        invariant
            i <= list.len(),
            out.len() == i,
            forall|j: int| 0 <= j < i ==> out[j].deep_view() == list[j].deep_view(),
        decreases list.len() - i,
    {
        out.push(list[i].duplicate());
        i += 1;
    }
    assert(out.deep_view() =~= list.deep_view());
    out
}

/// A copy of a list of predicates.
pub fn duplicate_predicates(list: &Vec<WherePredicate>) -> (r: Vec<WherePredicate>)
    ensures
        r.deep_view() == list.deep_view(),
{
    let mut out: Vec<WherePredicate> = Vec::new();
    let mut i: usize = 0;
    while i < list.len()
        invariant
            i <= list.len(),
            out.len() == i,
            forall|j: int| 0 <= j < i ==> out[j].deep_view() == list[j].deep_view(),
        decreases list.len() - i,
    {
        out.push(list[i].duplicate());
        i += 1;
    }
    assert(out.deep_view() =~= list.deep_view());
    out
}

impl Generics {
    /// A copy of the generics.
    pub fn duplicate(&self) -> (r: Generics)
        ensures
            r.deep_view() == self.deep_view(),
    {
        Generics {
            params: duplicate_params(&self.params),
            predicates: duplicate_predicates(&self.predicates),
        }
    }
}

impl TypeDeclaration {
    /// Whether every field of every named shape of the declaration carries its name.
    pub fn is_well_formed(&self) -> (r: bool)
        ensures
            r == self.deep_view().data.well_formed(),
    {
        match &self.data {
            Data::Struct(shape) => shape.is_well_formed(),
            Data::Enum(variants) => {
                let mut i: usize = 0;
                while i < variants.len()
                    invariant
                        i <= variants.len(),
                        self.deep_view().data == DataView::Enum(variants.deep_view()),
                        forall|j: int|
                            0 <= j < i ==> (#[trigger] variants.deep_view()[j]).shape.well_formed(),
                    decreases variants.len() - i,
                {
                    assert(variants.deep_view()[i as int] == variants[i as int].deep_view());
                    if !variants[i].shape.is_well_formed() {
                        assert(!variants.deep_view()[i as int].shape.well_formed());
                        return false;
                    }
                    i += 1;
                }
                true
            },
            Data::Union => true,
        }
    }
}

impl FieldShape {
    /// Whether, in the named shape, every field carries its name.
    pub fn is_well_formed(&self) -> (r: bool)
        ensures
            r == self.deep_view().well_formed(),
    {
        match self {
            FieldShape::Named(fields) => {
                let mut i: usize = 0;
                while i < fields.len()
                    invariant
                        i <= fields.len(),
                        self.deep_view() == FieldShapeView::Named(fields.deep_view()),
                        forall|j: int|
                            0 <= j < i ==> (#[trigger] fields.deep_view()[j]).ident is Some,
                    decreases fields.len() - i,
                {
                    assert(fields.deep_view()[i as int] == fields[i as int].deep_view());
                    if fields[i].ident.is_none() {
                        assert(fields.deep_view()[i as int].ident is None);
                        assert(!all_named(fields.deep_view()));
                        return false;
                    }
                    i += 1;
                }
                true
            },
            _ => true,
        }
    }
}

} // verus!
