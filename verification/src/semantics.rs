//! What the generated operator code computes, over abstract field values.
//!
//! A value of the input type is an `Instance`: the position of its variant and the values
//! of its fields in the order of the declaration. The methods of the field types are
//! given from outside, as functions on those values. A fragment that the evaluation
//! cannot make sense of (a member that the declaration lacks, a match without an arm for
//! the operands) has no outcome.

use vstd::prelude::*;
use crate::decl::{FieldView, VariantView};
use crate::fragment::{
    ArmResultView, ArmView, ConstructionView, MemberView, MethodCallView, OperandView,
    TryFromImplView, VariantPatternView,
};
use crate::seqs::first_where;

verus! {

/// A value of the input type. A struct is its own single variant, at position 0.
pub ghost struct Instance<V> {
    pub variant: int,
    pub fields: Seq<V>,
}

/// The methods that the field types offer, by name.
#[verifier::reject_recursive_types(V)]
pub ghost struct Methods<V> {
    pub unary: spec_fn(Seq<char>, V) -> V,
    pub binary: spec_fn(Seq<char>, V, V) -> V,
}

/// The values that the operands of a generated expression stand for.
pub ghost struct Bindings<V> {
    /// The fields of `self`.
    pub own: Seq<V>,
    /// The fields of `rhs`.
    pub other: Seq<V>,
    /// `rhs` as a whole.
    pub scalar: Option<V>,
    /// The variables bound by the pattern of the left operand.
    pub left: Seq<V>,
    /// The variables bound by the pattern of the right operand.
    pub right: Seq<V>,
    /// The variables bound by the pattern of a sole operand.
    pub bound: Seq<V>,
}

/// What a derived method returns.
pub ghost enum Outcome<V> {
    /// A value of the input type.
    Value(Instance<V>),
    /// A value of the input type, wrapped as success.
    Success(Instance<V>),
    /// A failure with this message.
    Failure(Seq<char>),
}

/// The test for the field named `name`.
pub open spec fn is_named(name: Seq<char>) -> spec_fn(FieldView) -> bool {
    |field: FieldView| field.ident == Some(name)
}

/// The test for the variant named `name`.
pub open spec fn is_called(name: Seq<char>) -> spec_fn(VariantView) -> bool {
    |variant: VariantView| variant.ident == name
}

/// The position of the field that `member` addresses: the first field of that name, or
/// the index itself. The length of the list where there is no such field.
pub open spec fn position(fields: Seq<FieldView>, member: MemberView) -> int {
    match member {
        MemberView::Named(name) => first_where(fields, is_named(name)),
        MemberView::Index(index) => if index < fields.len() {
            index as int
        } else {
            fields.len() as int
        },
    }
}

/// The value at position `index`, where there is one.
pub open spec fn at<V>(values: Seq<V>, index: int) -> Option<V> {
    if 0 <= index < values.len() {
        Some(values[index])
    } else {
        None
    }
}

/// The value of an operand. The members of `self` and `rhs` are resolved against
/// `fields`.
pub open spec fn operand_value<V>(
    fields: Seq<FieldView>,
    operand: OperandView,
    bindings: Bindings<V>,
) -> Option<V> {
    match operand {
        OperandView::Own(member) => at(bindings.own, position(fields, member)),
        OperandView::Other(member) => at(bindings.other, position(fields, member)),
        OperandView::Scalar => bindings.scalar,
        OperandView::Left(index) => at(bindings.left, index as int),
        OperandView::Right(index) => at(bindings.right, index as int),
        OperandView::Bound(index) => at(bindings.bound, index as int),
    }
}

/// The value of a call: the method of that name applied to the values of the receiver
/// and of the argument.
pub open spec fn call_value<V>(
    fields: Seq<FieldView>,
    call: MethodCallView,
    bindings: Bindings<V>,
    methods: Methods<V>,
) -> Option<V> {
    match (operand_value(fields, call.receiver, bindings), call.argument) {
        (Some(receiver), None) => Some((methods.unary)(call.method, receiver)),
        (Some(receiver), Some(operand)) => match operand_value(fields, operand, bindings) {
            Some(argument) => Some((methods.binary)(call.method, receiver, argument)),
            None => None,
        },
        (None, _) => None,
    }
}

/// The values of the fields that a construction builds, in the order of `fields`, the
/// fields of what is built. The construction has to initialise each field once, in the
/// order of the declaration.
pub open spec fn built_fields<V>(
    fields: Seq<FieldView>,
    built: ConstructionView,
    own_fields: Seq<FieldView>,
    bindings: Bindings<V>,
    methods: Methods<V>,
) -> Option<Seq<V>> {
    if built.inits.len() == fields.len() && (forall|i: int|
        0 <= i < built.inits.len() ==> position(fields, (#[trigger] built.inits[i]).member) == i
            && call_value(own_fields, built.inits[i].value, bindings, methods) is Some) {
        Some(
            Seq::new(
                fields.len(),
                |i: int| call_value(own_fields, built.inits[i].value, bindings, methods)->0,
            ),
        )
    } else {
        None
    }
}

/// The values of the variables that a pattern binds when it takes apart a value with the
/// fields `values`.
pub open spec fn bound_values<V>(
    fields: Seq<FieldView>,
    pattern: VariantPatternView,
    values: Seq<V>,
) -> Option<Seq<V>> {
    if forall|i: int|
        0 <= i < pattern.members.len() ==> 0 <= position(fields, #[trigger] pattern.members[i])
            < values.len() {
        Some(
            Seq::new(pattern.members.len(), |i: int| values[position(fields, pattern.members[i])]),
        )
    } else {
        None
    }
}

/// `value` is a value of one of the variants, with a value for each field.
pub open spec fn instance_of<V>(value: Instance<V>, variants: Seq<VariantView>) -> bool {
    &&& 0 <= value.variant < variants.len()
    &&& value.fields.len() == variants[value.variant].shape.fields().len()
}

/// Whether an arm takes the operands: the wildcard arm takes any, an arm with a pattern
/// those that are all of the pattern's variant.
pub open spec fn arm_takes<V>(
    variants: Seq<VariantView>,
    arm: ArmView,
    lhs: Instance<V>,
    rhs: Option<Instance<V>>,
) -> bool {
    match arm.pattern {
        None => true,
        Some(pattern) => variants[lhs.variant].ident == pattern.variant && (rhs matches Some(other)
            ==> variants[other.variant].ident == pattern.variant),
    }
}

/// The variables that the pattern of an arm binds for the operands.
pub open spec fn arm_bindings<V>(
    variants: Seq<VariantView>,
    pattern: VariantPatternView,
    lhs: Instance<V>,
    rhs: Option<Instance<V>>,
) -> Option<Bindings<V>> {
    match (bound_values(variants[lhs.variant].shape.fields(), pattern, lhs.fields), rhs) {
        (Some(bound), None) => Some(
            Bindings {
                own: Seq::empty(),
                other: Seq::empty(),
                scalar: None,
                left: Seq::empty(),
                right: Seq::empty(),
                bound,
            },
        ),
        (Some(left), Some(other)) => match bound_values(
            variants[other.variant].shape.fields(),
            pattern,
            other.fields,
        ) {
            Some(right) => Some(
                Bindings {
                    own: Seq::empty(),
                    other: Seq::empty(),
                    scalar: None,
                    left,
                    right,
                    bound: Seq::empty(),
                },
            ),
            None => None,
        },
        (None, _) => None,
    }
}

/// The value of the variant that an arm builds.
pub open spec fn arm_instance<V>(
    variants: Seq<VariantView>,
    arm: ArmView,
    built: ConstructionView,
    lhs: Instance<V>,
    rhs: Option<Instance<V>>,
    methods: Methods<V>,
) -> Option<Instance<V>> {
    match (arm.pattern, built.variant) {
        (Some(pattern), Some(name)) => {
            let variant = first_where(variants, is_called(name));
            match arm_bindings(variants, pattern, lhs, rhs) {
                Some(bindings) => if variant < variants.len() {
                    match built_fields(
                        variants[variant].shape.fields(),
                        built,
                        Seq::empty(),
                        bindings,
                        methods,
                    ) {
                        Some(fields) => Some(Instance { variant, fields }),
                        None => None,
                    }
                } else {
                    None
                },
                None => None,
            }
        },
        _ => None,
    }
}

/// What an arm that takes the operands evaluates to.
pub open spec fn arm_outcome<V>(
    variants: Seq<VariantView>,
    arm: ArmView,
    lhs: Instance<V>,
    rhs: Option<Instance<V>>,
    methods: Methods<V>,
) -> Option<Outcome<V>> {
    match arm.result {
        ArmResultView::Failure(message) => Some(Outcome::Failure(message)),
        ArmResultView::Value(built) => match arm_instance(variants, arm, built, lhs, rhs, methods) {
            Some(value) => Some(Outcome::Value(value)),
            None => None,
        },
        ArmResultView::Success(built) => match arm_instance(
            variants,
            arm,
            built,
            lhs,
            rhs,
            methods,
        ) {
            Some(value) => Some(Outcome::Success(value)),
            None => None,
        },
    }
}

/// What a match evaluates to, its arms tried in order from the arm at `from`: the
/// outcome of the first arm that takes the operands.
pub open spec fn match_outcome<V>(
    variants: Seq<VariantView>,
    arms: Seq<ArmView>,
    from: int,
    lhs: Instance<V>,
    rhs: Option<Instance<V>>,
    methods: Methods<V>,
) -> Option<Outcome<V>>
    decreases arms.len() - from,
{
    if from < 0 || from >= arms.len() {
        None
    } else if arm_takes(variants, arms[from], lhs, rhs) {
        arm_outcome(variants, arms[from], lhs, rhs, methods)
    } else {
        match_outcome(variants, arms, from + 1, lhs, rhs, methods)
    }
}

/// The bindings of a method of a struct: the fields of `self`, and those of `rhs` where
/// there is one.
pub open spec fn struct_bindings<V>(own: Seq<V>, other: Seq<V>, scalar: Option<V>) -> Bindings<V> {
    Bindings {
        own,
        other,
        scalar,
        left: Seq::empty(),
        right: Seq::empty(),
        bound: Seq::empty(),
    }
}

/// The test for the patterns of the variant named `name`.
pub open spec fn matches_variant(name: Seq<char>) -> spec_fn(VariantPatternView) -> bool {
    |pattern: VariantPatternView| pattern.variant == name
}

/// What a derived narrowing conversion yields for a value of the enum: the values that
/// the first pattern of the value's variant binds, as the tuple; or, where no pattern is
/// of that variant, the failure with the conversion's message.
pub open spec fn conversion_outcome<V>(
    conversion: TryFromImplView,
    variants: Seq<VariantView>,
    value: Instance<V>,
) -> Option<Result<Seq<V>, Seq<char>>> {
    let found = first_where(
        conversion.patterns,
        matches_variant(variants[value.variant].ident),
    );
    if found < conversion.patterns.len() {
        match bound_values(
            variants[value.variant].shape.fields(),
            conversion.patterns[found],
            value.fields,
        ) {
            Some(tuple) => Some(Ok(tuple)),
            None => None,
        }
    } else {
        Some(Err(conversion.message))
    }
}

} // verus!
