//! The pieces that several derivations emit: calls on fields and on bound variables,
//! constructions, patterns and match arms.

use vstd::prelude::*;
use vstd::string::*;
use crate::decl::{Field, FieldShape, FieldShapeView, Variant, VariantView, all_named};
use crate::fragment::{
    Arm, ArmResult, ArmResultView, ArmView, Construction, ConstructionView, FieldInit,
    FieldInitView, Member, MemberView, MethodCall, MethodCallView, Operand, OperandView, ShapeKind,
    VariantPattern, VariantPatternView,
};
use crate::text::concat3;
use crate::utils::{members_of, references};

verus! {

/// What a call on a field of `self` takes as its argument.
#[derive(Clone, Copy, Debug, PartialEq, Eq, Structural)]
pub enum Arity {
    /// Nothing.
    Unary,
    /// The same field of the right-hand operand.
    Pairwise,
    /// The right-hand operand as a whole.
    Scalar,
}

/// The call of `method` on the field `member` of `self`.
pub open spec fn field_call(member: MemberView, method: Seq<char>, arity: Arity) -> MethodCallView {
    MethodCallView {
        receiver: OperandView::Own(member),
        method,
        argument: match arity {
            Arity::Unary => None,
            Arity::Pairwise => Some(OperandView::Other(member)),
            Arity::Scalar => Some(OperandView::Scalar),
        },
    }
}

/// The call of `method` on each of the fields addressed by `members`.
pub open spec fn field_calls(members: Seq<MemberView>, method: Seq<char>, arity: Arity) -> Seq<
    MethodCallView,
> {
    Seq::new(members.len(), |i: int| field_call(members[i], method, arity))
}

/// The call of `method` on the variable bound at position `index`: of the left operand
/// with that of the right one as the argument, or of the sole operand.
pub open spec fn variable_call(index: usize, method: Seq<char>, binary: bool) -> MethodCallView {
    if binary {
        MethodCallView {
            receiver: OperandView::Left(index),
            method,
            argument: Some(OperandView::Right(index)),
        }
    } else {
        MethodCallView { receiver: OperandView::Bound(index), method, argument: None }
    }
}

/// The syntax of a shape.
pub open spec fn shape_kind(shape: FieldShapeView) -> ShapeKind {
    match shape {
        FieldShapeView::Unit => ShapeKind::Unit,
        FieldShapeView::Positional(_) => ShapeKind::Positional,
        FieldShapeView::Named(_) => ShapeKind::Named,
    }
}

/// How the fields of a shape are addressed.
pub open spec fn shape_members(shape: FieldShapeView) -> Seq<MemberView> {
    members_of(shape.fields(), shape is Named)
}

/// The value of the struct's own shape in which each field is the call of `method` on
/// that field of `self`.
pub open spec fn field_construction(
    kind: ShapeKind,
    members: Seq<MemberView>,
    method: Seq<char>,
    arity: Arity,
) -> ConstructionView {
    ConstructionView {
        variant: None,
        kind,
        inits: Seq::new(
            members.len(),
            |i: int|
                FieldInitView { member: members[i], value: field_call(members[i], method, arity) },
        ),
    }
}

/// The value of a variant in which each field is the call of `method` on the variable
/// bound to that field.
pub open spec fn variable_construction(
    variant: VariantView,
    method: Seq<char>,
    binary: bool,
) -> ConstructionView {
    ConstructionView {
        variant: Some(variant.ident),
        kind: shape_kind(variant.shape),
        inits: Seq::new(
            shape_members(variant.shape).len(),
            |i: int|
                FieldInitView {
                    member: shape_members(variant.shape)[i],
                    value: variable_call(i as usize, method, binary),
                },
        ),
    }
}

/// The pattern that takes a variant apart: it binds one variable to each field, in the
/// order of the fields.
pub open spec fn pattern_of(variant: VariantView) -> VariantPatternView {
    VariantPatternView {
        variant: variant.ident,
        kind: shape_kind(variant.shape),
        members: shape_members(variant.shape),
    }
}

/// The failure that the generated code reports for a variant without fields.
pub open spec fn unit_message(method: Seq<char>) -> Seq<char> {
    "Cannot "@ + method + "() unit variants"@
}

/// The failure that the generated code reports for operands of different variants.
pub open spec fn mismatch_message(method: Seq<char>) -> Seq<char> {
    "Trying to "@ + method + " mismatched enum variants"@
}

/// The arm for one variant: a variant without fields fails; any other is rebuilt from
/// the calls of `method` on its bound variables, wrapped as success where `wrap` holds.
pub open spec fn variant_arm(variant: VariantView, method: Seq<char>, binary: bool, wrap: bool) -> ArmView {
    ArmView {
        pattern: Some(pattern_of(variant)),
        result: if variant.shape is Unit {
            ArmResultView::Failure(unit_message(method))
        } else if wrap {
            ArmResultView::Success(variable_construction(variant, method, binary))
        } else {
            ArmResultView::Value(variable_construction(variant, method, binary))
        },
    }
}

/// Some variant has no fields.
pub open spec fn has_unit_variant(variants: Seq<VariantView>) -> bool {
    exists|i: int| 0 <= i < variants.len() && (#[trigger] variants[i]).shape is Unit
}

/// How `field`, at position `index` of its list, is addressed.
pub fn member_of(field: &Field, index: usize, named: bool) -> (r: Member)
    requires
        named ==> field.ident is Some,
    ensures
        r.deep_view() == (if named {
            MemberView::Named(field.deep_view().ident->0)
        } else {
            MemberView::Index(index)
        }),
{
    if named {
        match &field.ident {
            Some(name) => Member::Named(name.clone()),
            None => Member::Index(index),
        }
    } else {
        Member::Index(index)
    }
}

/// How the fields of a list are addressed.
pub fn field_members(fields: &Vec<&Field>, named: bool) -> (r: Vec<Member>)
    requires
        named ==> all_named(fields.deep_view()),
    ensures
        r.deep_view() == members_of(fields.deep_view(), named),
{
    let mut out: Vec<Member> = Vec::new();
    let mut i: usize = 0;
    while i < fields.len()
        invariant
            i <= fields.len(),
            out.len() == i,
            named ==> all_named(fields.deep_view()),
            forall|j: int|
                0 <= j < i ==> (#[trigger] out[j]).deep_view() == members_of(
                    fields.deep_view(),
                    named,
                )[j],
        decreases fields.len() - i,
    {
        assert(fields.deep_view()[i as int] == fields[i as int].deep_view());
        out.push(member_of(fields[i], i, named));
        i += 1;
    }
    assert(out.deep_view() =~= members_of(fields.deep_view(), named));
    out
}

/// The call of `method` on the field of `self` at position `index`.
pub fn build_field_call(field: &Field, index: usize, named: bool, method: &str, arity: Arity) -> (r:
    MethodCall)
    requires
        named ==> field.ident is Some,
    ensures
        r.deep_view() == field_call(
            if named {
                MemberView::Named(field.deep_view().ident->0)
            } else {
                MemberView::Index(index)
            },
            method@,
            arity,
        ),
{
    let argument = match arity {
        Arity::Unary => None,
        Arity::Pairwise => Some(Operand::Other(member_of(field, index, named))),
        Arity::Scalar => Some(Operand::Scalar),
    };
    MethodCall {
        receiver: Operand::Own(member_of(field, index, named)),
        method: method.to_owned(),
        argument,
    }
}

/// The call of `method` on each field of `self`, in the order of the fields.
pub fn build_field_calls(fields: &Vec<&Field>, named: bool, method: &str, arity: Arity) -> (r: Vec<
    MethodCall,
>)
    requires
        named ==> all_named(fields.deep_view()),
    ensures
        r.deep_view() == field_calls(members_of(fields.deep_view(), named), method@, arity),
{
    let mut out: Vec<MethodCall> = Vec::new();
    let mut i: usize = 0;
    while i < fields.len()
        invariant
            i <= fields.len(),
            out.len() == i,
            named ==> all_named(fields.deep_view()),
            forall|j: int|
                0 <= j < i ==> (#[trigger] out[j]).deep_view() == field_calls(
                    members_of(fields.deep_view(), named),
                    method@,
                    arity,
                )[j],
        decreases fields.len() - i,
    {
        assert(fields.deep_view()[i as int] == fields[i as int].deep_view());
        out.push(build_field_call(fields[i], i, named, method, arity));
        i += 1;
    }
    assert(out.deep_view() =~= field_calls(members_of(fields.deep_view(), named), method@, arity));
    out
}

/// The value of the struct's own shape, each field the call of `method` on that field of
/// `self`.
pub fn build_field_construction(fields: &Vec<&Field>, named: bool, method: &str, arity: Arity) -> (r:
    Construction)
    requires
        named ==> all_named(fields.deep_view()),
    ensures
        r.deep_view() == field_construction(
            if named {
                ShapeKind::Named
            } else {
                ShapeKind::Positional
            },
            members_of(fields.deep_view(), named),
            method@,
            arity,
        ),
{
    let ghost members = members_of(fields.deep_view(), named);
    let mut inits: Vec<FieldInit> = Vec::new();
    let mut i: usize = 0;
    while i < fields.len()
        invariant
            i <= fields.len(),
            inits.len() == i,
            named ==> all_named(fields.deep_view()),
            members == members_of(fields.deep_view(), named),
            forall|j: int|
                0 <= j < i ==> (#[trigger] inits[j]).deep_view() == (FieldInitView {
                    member: members[j],
                    value: field_call(members[j], method@, arity),
                }),
        decreases fields.len() - i,
    {
        assert(fields.deep_view()[i as int] == fields[i as int].deep_view());
        inits.push(
            FieldInit {
                member: member_of(fields[i], i, named),
                value: build_field_call(fields[i], i, named, method, arity),
            },
        );
        i += 1;
    }
    let kind = if named {
        ShapeKind::Named
    } else {
        ShapeKind::Positional
    };
    let r = Construction { variant: None, kind, inits };
    assert(r.deep_view().inits =~= field_construction(kind, members, method@, arity).inits);
    r
}

/// The syntax of a shape.
pub fn kind_of(shape: &FieldShape) -> (r: ShapeKind)
    ensures
        r == shape_kind(shape.deep_view()),
{
    match shape {
        FieldShape::Unit => ShapeKind::Unit,
        FieldShape::Positional(_) => ShapeKind::Positional,
        FieldShape::Named(_) => ShapeKind::Named,
    }
}

/// How the fields of a shape are addressed.
pub fn members_of_shape(shape: &FieldShape) -> (r: Vec<Member>)
    requires
        shape.deep_view().well_formed(),
    ensures
        r.deep_view() == shape_members(shape.deep_view()),
{
    match shape {
        FieldShape::Unit => {
            let r: Vec<Member> = Vec::new();
            assert(r.deep_view() =~= shape_members(shape.deep_view()));
            r
        },
        FieldShape::Positional(fields) => field_members(&references(fields), false),
        FieldShape::Named(fields) => field_members(&references(fields), true),
    }
}

/// The pattern that takes `variant` apart.
pub fn variant_pattern(variant: &Variant) -> (r: VariantPattern)
    requires
        variant.deep_view().shape.well_formed(),
    ensures
        r.deep_view() == pattern_of(variant.deep_view()),
{
    VariantPattern {
        variant: variant.ident.clone(),
        kind: kind_of(&variant.shape),
        members: members_of_shape(&variant.shape),
    }
}

/// The call of `method` on the variable bound at position `index`.
pub fn build_variable_call(index: usize, method: &str, binary: bool) -> (r: MethodCall)
    ensures
        r.deep_view() == variable_call(index, method@, binary),
{
    if binary {
        MethodCall {
            receiver: Operand::Left(index),
            method: method.to_owned(),
            argument: Some(Operand::Right(index)),
        }
    } else {
        MethodCall { receiver: Operand::Bound(index), method: method.to_owned(), argument: None }
    }
}

/// The initialisers that rebuild the fields of a variant from its bound variables.
fn variable_inits(fields: &Vec<Field>, named: bool, method: &str, binary: bool) -> (r: Vec<FieldInit>)
    requires
        named ==> all_named(fields.deep_view()),
    ensures
        r.deep_view() == Seq::new(
            fields.len() as nat,
            |i: int|
                FieldInitView {
                    member: members_of(fields.deep_view(), named)[i],
                    value: variable_call(i as usize, method@, binary),
                },
        ),
{
    let mut inits: Vec<FieldInit> = Vec::new();
    let mut i: usize = 0;
    while i < fields.len()
        invariant
            i <= fields.len(),
            inits.len() == i,
            named ==> all_named(fields.deep_view()),
            forall|j: int|
                0 <= j < i ==> (#[trigger] inits[j]).deep_view() == (FieldInitView {
                    member: members_of(fields.deep_view(), named)[j],
                    value: variable_call(j as usize, method@, binary),
                }),
        decreases fields.len() - i,
    {
        assert(fields.deep_view()[i as int] == fields[i as int].deep_view());
        inits.push(
            FieldInit {
                member: member_of(&fields[i], i, named),
                value: build_variable_call(i, method, binary),
            },
        );
        i += 1;
    }
    assert(inits.deep_view() =~= Seq::new(
        fields.len() as nat,
        |i: int|
            FieldInitView {
                member: members_of(fields.deep_view(), named)[i],
                value: variable_call(i as usize, method@, binary),
            },
    ));
    inits
}

/// The value of `variant` rebuilt from the calls of `method` on its bound variables.
pub fn build_variable_construction(variant: &Variant, method: &str, binary: bool) -> (r: Construction)
    requires
        variant.deep_view().shape.well_formed(),
    ensures
        r.deep_view() == variable_construction(variant.deep_view(), method@, binary),
{
    let inits = match &variant.shape {
        FieldShape::Unit => {
            let none: Vec<FieldInit> = Vec::new();
            none
        },
        FieldShape::Positional(fields) => variable_inits(fields, false, method, binary),
        FieldShape::Named(fields) => variable_inits(fields, true, method, binary),
    };
    let r = Construction {
        variant: Some(variant.ident.clone()),
        kind: kind_of(&variant.shape),
        inits,
    };
    assert(r.deep_view().inits =~= variable_construction(
        variant.deep_view(),
        method@,
        binary,
    ).inits);
    r
}

/// The arm for `variant`.
pub fn build_variant_arm(variant: &Variant, method: &str, binary: bool, wrap: bool) -> (r: Arm)
    requires
        variant.deep_view().shape.well_formed(),
    ensures
        r.deep_view() == variant_arm(variant.deep_view(), method@, binary, wrap),
{
    let pattern = Some(variant_pattern(variant));
    let result = match &variant.shape {
        FieldShape::Unit => ArmResult::Failure(concat3("Cannot ", method, "() unit variants")),
        _ => {
            let built = build_variable_construction(variant, method, binary);
            if wrap {
                ArmResult::Success(built)
            } else {
                ArmResult::Value(built)
            }
        },
    };
    Arm { pattern, result }
}

/// Whether some variant has no fields.
pub fn any_unit_variant(variants: &Vec<Variant>) -> (r: bool)
    ensures
        r == has_unit_variant(variants.deep_view()),
{
    let mut i: usize = 0;
    while i < variants.len()
        invariant
            i <= variants.len(),
            forall|j: int| 0 <= j < i ==> !((#[trigger] variants.deep_view()[j]).shape is Unit),
        decreases variants.len() - i,
    {
        assert(variants.deep_view()[i as int] == variants[i as int].deep_view());
        if let FieldShape::Unit = &variants[i].shape {
            assert(variants.deep_view()[i as int].shape is Unit);
            return true;
        }
        i += 1;
    }
    false
}

} // verus!
