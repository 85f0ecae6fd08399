//! The code fragments that the derivations produce: implementation blocks as data, with a
//! mathematical view of each type. Variables that a pattern binds are identified by their
//! position; their names follow from it.

use vstd::prelude::*;
use vstd::string::*;
use crate::decl::{Generics, GenericsView};
use crate::utils::RefType;

verus! {

/// How a field is addressed: by name, or by position.
#[derive(Clone, Debug, PartialEq, Eq)]
pub enum Member {
    Named(String),
    Index(usize),
}

/// The mathematical view of `Member`.
pub ghost enum MemberView {
    Named(Seq<char>),
    Index(usize),
}

impl DeepView for Member {
    type V = MemberView;

    open spec fn deep_view(&self) -> MemberView {
        match self {
            Member::Named(name) => MemberView::Named(name@),
            Member::Index(index) => MemberView::Index(*index),
        }
    }
}

/// A value that a generated expression reads.
#[derive(Clone, Debug, PartialEq, Eq)]
pub enum Operand {
    /// A field of `self`.
    Own(Member),
    /// The same field of the right-hand operand `rhs`.
    Other(Member),
    /// The right-hand operand `rhs` as a whole.
    Scalar,
    /// The variable that the pattern of the left operand binds at this position.
    Left(usize),
    /// The variable that the pattern of the right operand binds at this position.
    Right(usize),
    /// The variable that the pattern of a sole operand binds at this position.
    Bound(usize),
}

/// The mathematical view of `Operand`.
pub ghost enum OperandView {
    Own(MemberView),
    Other(MemberView),
    Scalar,
    Left(usize),
    Right(usize),
    Bound(usize),
}

impl DeepView for Operand {
    type V = OperandView;

    open spec fn deep_view(&self) -> OperandView {
        match self {
            Operand::Own(member) => OperandView::Own(member.deep_view()),
            Operand::Other(member) => OperandView::Other(member.deep_view()),
            Operand::Scalar => OperandView::Scalar,
            Operand::Left(index) => OperandView::Left(*index),
            Operand::Right(index) => OperandView::Right(*index),
            Operand::Bound(index) => OperandView::Bound(*index),
        }
    }
}

/// A call `receiver.method(argument)`, or `receiver.method()` without an argument.
#[derive(Clone, Debug, PartialEq, Eq)]
pub struct MethodCall {
    pub receiver: Operand,
    pub method: String,
    pub argument: Option<Operand>,
}

/// The mathematical view of `MethodCall`.
pub ghost struct MethodCallView {
    pub receiver: OperandView,
    pub method: Seq<char>,
    pub argument: Option<OperandView>,
}

impl DeepView for MethodCall {
    type V = MethodCallView;

    open spec fn deep_view(&self) -> MethodCallView {
        MethodCallView {
            receiver: self.receiver.deep_view(),
            method: self.method@,
            argument: self.argument.deep_view(),
        }
    }
}

/// The initialiser of one field in a constructed value.
#[derive(Clone, Debug, PartialEq, Eq)]
pub struct FieldInit {
    pub member: Member,
    pub value: MethodCall,
}

/// The mathematical view of `FieldInit`.
pub ghost struct FieldInitView {
    pub member: MemberView,
    pub value: MethodCallView,
}

impl DeepView for FieldInit {
    type V = FieldInitView;

    open spec fn deep_view(&self) -> FieldInitView {
        FieldInitView { member: self.member.deep_view(), value: self.value.deep_view() }
    }
}

/// The syntax with which fields are listed: not at all, in parentheses, or in braces with
/// their names.
#[derive(Clone, Copy, Debug, PartialEq, Eq, Structural)]
pub enum ShapeKind {
    Unit,
    Positional,
    Named,
}

impl DeepView for ShapeKind {
    type V = ShapeKind;

    open spec fn deep_view(&self) -> ShapeKind {
        *self
    }
}

/// An expression that builds a value of the input type: of the struct itself, or of the
/// variant named.
#[derive(Clone, Debug, PartialEq, Eq)]
pub struct Construction {
    pub variant: Option<String>,
    pub kind: ShapeKind,
    pub inits: Vec<FieldInit>,
}

/// The mathematical view of `Construction`.
pub ghost struct ConstructionView {
    pub variant: Option<Seq<char>>,
    pub kind: ShapeKind,
    pub inits: Seq<FieldInitView>,
}

impl DeepView for Construction {
    type V = ConstructionView;

    open spec fn deep_view(&self) -> ConstructionView {
        ConstructionView {
            variant: self.variant.deep_view(),
            kind: self.kind,
            inits: self.inits.deep_view(),
        }
    }
}

/// A pattern that matches one variant and binds a variable to each member listed: the
/// variable at position `i` to `members[i]`.
#[derive(Clone, Debug, PartialEq, Eq)]
pub struct VariantPattern {
    pub variant: String,
    pub kind: ShapeKind,
    pub members: Vec<Member>,
}

/// The mathematical view of `VariantPattern`.
pub ghost struct VariantPatternView {
    pub variant: Seq<char>,
    pub kind: ShapeKind,
    pub members: Seq<MemberView>,
}

impl DeepView for VariantPattern {
    type V = VariantPatternView;

    open spec fn deep_view(&self) -> VariantPatternView {
        VariantPatternView {
            variant: self.variant@,
            kind: self.kind,
            members: self.members.deep_view(),
        }
    }
}

/// What a match arm evaluates to.
#[derive(Clone, Debug, PartialEq, Eq)]
pub enum ArmResult {
    /// The constructed value itself.
    Value(Construction),
    /// The constructed value, wrapped as success.
    Success(Construction),
    /// A failure with this message.
    Failure(String),
}

/// The mathematical view of `ArmResult`.
pub ghost enum ArmResultView {
    Value(ConstructionView),
    Success(ConstructionView),
    Failure(Seq<char>),
}

impl DeepView for ArmResult {
    type V = ArmResultView;

    open spec fn deep_view(&self) -> ArmResultView {
        match self {
            ArmResult::Value(built) => ArmResultView::Value(built.deep_view()),
            ArmResult::Success(built) => ArmResultView::Success(built.deep_view()),
            ArmResult::Failure(message) => ArmResultView::Failure(message@),
        }
    }
}

/// An arm of the match over the operands. With a pattern, the arm takes operands that are
/// all of the pattern's variant; without one it is the wildcard arm and takes anything.
#[derive(Clone, Debug, PartialEq, Eq)]
pub struct Arm {
    pub pattern: Option<VariantPattern>,
    pub result: ArmResult,
}

/// The mathematical view of `Arm`.
pub ghost struct ArmView {
    pub pattern: Option<VariantPatternView>,
    pub result: ArmResultView,
}

impl DeepView for Arm {
    type V = ArmView;

    open spec fn deep_view(&self) -> ArmView {
        ArmView { pattern: self.pattern.deep_view(), result: self.result.deep_view() }
    }
}

/// The body of a derived operator method.
#[derive(Clone, Debug, PartialEq, Eq)]
pub enum OperatorBody {
    /// For a struct: the value built field by field.
    Construct(Construction),
    /// For an enum: a match over the operands, its arms tried in order.
    Match(Vec<Arm>),
}

/// The mathematical view of `OperatorBody`.
pub ghost enum OperatorBodyView {
    Construct(ConstructionView),
    Match(Seq<ArmView>),
}

impl DeepView for OperatorBody {
    type V = OperatorBodyView;

    open spec fn deep_view(&self) -> OperatorBodyView {
        match self {
            OperatorBody::Construct(built) => OperatorBodyView::Construct(built.deep_view()),
            OperatorBody::Match(arms) => OperatorBodyView::Match(arms.deep_view()),
        }
    }
}

/// The implementation of an operator trait for the input type: one method, which takes
/// `self` and, where `binary` holds, a right-hand operand of the same type. Its output is
/// the input type, wrapped in a result with a message as its error where `fallible` holds.
#[derive(Clone, Debug, PartialEq, Eq)]
pub struct OperatorImpl {
    pub generics: Generics,
    pub trait_path: String,
    pub input_type: String,
    pub method: String,
    pub binary: bool,
    pub inline: bool,
    pub fallible: bool,
    pub body: OperatorBody,
}

/// The mathematical view of `OperatorImpl`.
pub ghost struct OperatorImplView {
    pub generics: GenericsView,
    pub trait_path: Seq<char>,
    pub input_type: Seq<char>,
    pub method: Seq<char>,
    pub binary: bool,
    pub inline: bool,
    pub fallible: bool,
    pub body: OperatorBodyView,
}

impl DeepView for OperatorImpl {
    type V = OperatorImplView;

    open spec fn deep_view(&self) -> OperatorImplView {
        OperatorImplView {
            generics: self.generics.deep_view(),
            trait_path: self.trait_path@,
            input_type: self.input_type@,
            method: self.method@,
            binary: self.binary,
            inline: self.inline,
            fallible: self.fallible,
            body: self.body.deep_view(),
        }
    }
}

/// The implementation of a compound-assignment trait against a scalar: the method takes
/// `&mut self` and a right-hand operand of the type `scalar`, and runs the statements in
/// order. The last `introduced` parameters of `generics` belong to the implementation
/// alone; the input type is applied to the others.
#[derive(Clone, Debug, PartialEq, Eq)]
pub struct AssignImpl {
    pub generics: Generics,
    pub introduced: usize,
    pub trait_path: String,
    pub scalar: String,
    pub input_type: String,
    pub method: String,
    pub statements: Vec<MethodCall>,
}

/// The mathematical view of `AssignImpl`.
pub ghost struct AssignImplView {
    pub generics: GenericsView,
    pub introduced: usize,
    pub trait_path: Seq<char>,
    pub scalar: Seq<char>,
    pub input_type: Seq<char>,
    pub method: Seq<char>,
    pub statements: Seq<MethodCallView>,
}

impl DeepView for AssignImpl {
    type V = AssignImplView;

    open spec fn deep_view(&self) -> AssignImplView {
        AssignImplView {
            generics: self.generics.deep_view(),
            introduced: self.introduced,
            trait_path: self.trait_path@,
            scalar: self.scalar@,
            input_type: self.input_type@,
            method: self.method@,
            statements: self.statements.deep_view(),
        }
    }
}

/// The implementation of a dereference trait that delegates to one field: the target is
/// the field's type and the method returns a reference to the field.
#[derive(Clone, Debug, PartialEq, Eq)]
pub struct DerefImpl {
    pub generics: Generics,
    pub trait_path: String,
    pub input_type: String,
    pub target: String,
    pub member: Member,
}

/// The mathematical view of `DerefImpl`.
pub ghost struct DerefImplView {
    pub generics: GenericsView,
    pub trait_path: Seq<char>,
    pub input_type: Seq<char>,
    pub target: Seq<char>,
    pub member: MemberView,
}

impl DeepView for DerefImpl {
    type V = DerefImplView;

    open spec fn deep_view(&self) -> DerefImplView {
        DerefImplView {
            generics: self.generics.deep_view(),
            trait_path: self.trait_path@,
            input_type: self.input_type@,
            target: self.target@,
            member: self.member.deep_view(),
        }
    }
}

/// A conversion from the type `source` into the input type: into the newtype struct
/// itself, or into the variant named.
#[derive(Clone, Debug, PartialEq, Eq)]
pub struct FromImpl {
    pub input_type: String,
    pub source: String,
    pub variant: Option<String>,
}

/// The mathematical view of `FromImpl`.
pub ghost struct FromImplView {
    pub input_type: Seq<char>,
    pub source: Seq<char>,
    pub variant: Option<Seq<char>>,
}

impl DeepView for FromImpl {
    type V = FromImplView;

    open spec fn deep_view(&self) -> FromImplView {
        FromImplView {
            input_type: self.input_type@,
            source: self.source@,
            variant: self.variant.deep_view(),
        }
    }
}

/// A fallible conversion from the input enum into the tuple of `types`: the variants of
/// `patterns` convert, each handing out its fields in the mode `reference`; every other
/// value fails with `message`. The last `introduced` parameters of `generics` belong to
/// the implementation alone.
#[derive(Clone, Debug, PartialEq, Eq)]
pub struct TryFromImpl {
    pub generics: Generics,
    pub introduced: usize,
    pub input_type: String,
    pub reference: RefType,
    pub types: Vec<String>,
    pub patterns: Vec<VariantPattern>,
    pub message: String,
}

/// The mathematical view of `TryFromImpl`.
pub ghost struct TryFromImplView {
    pub generics: GenericsView,
    pub introduced: usize,
    pub input_type: Seq<char>,
    pub reference: RefType,
    pub types: Seq<Seq<char>>,
    pub patterns: Seq<VariantPatternView>,
    pub message: Seq<char>,
}

impl DeepView for TryFromImpl {
    type V = TryFromImplView;

    open spec fn deep_view(&self) -> TryFromImplView {
        TryFromImplView {
            generics: self.generics.deep_view(),
            introduced: self.introduced,
            input_type: self.input_type@,
            reference: self.reference,
            types: self.types.deep_view(),
            patterns: self.patterns.deep_view(),
            message: self.message@,
        }
    }
}

} // verus!
