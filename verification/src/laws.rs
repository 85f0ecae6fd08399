//! What holds of every derivation.
//!
//! The generated operator code, evaluated over any field values and any methods of the
//! field types, computes the operator field by field. The markers decide as documented
//! which fields take part. The narrowing conversions divide the variants of an enum among
//! them.

use vstd::prelude::*;
use crate::decl::{AttributeView, FieldShapeView, TypeDeclarationView, VariantView};
use crate::error::{DeriveErrorView, ErrorKind, one_field_message};
use crate::fragment::ArmView;
use crate::pieces::{
    Arity, field_construction, has_unit_variant, mismatch_message, pattern_of, shape_kind,
    shape_members, unit_message, variable_construction, variant_arm,
};
use crate::semantics::{
    Instance, Methods, Outcome, arm_bindings, arm_outcome, arm_takes, bound_values, built_fields,
    call_value, conversion_outcome, instance_of, is_called, is_named, match_outcome,
    matches_variant, position, struct_bindings,
};
use crate::seqs::{
    chosen, distinct, first_where, kept, lemma_chosen, lemma_distinct, lemma_first_where,
    lemma_first_where_at, lemma_first_where_none, lemma_kept, lemma_kept_all, lemma_kept_single,
};
use crate::text::lowercase;
use crate::try_into::{has_tuple, type_tuple, type_tuples, variant_attr_lists};
use crate::utils::{
    IgnoreMeta, RefType, attr_lists, enabled_flags, is_failure, is_marked, marker_of,
    marker_results, markers, members_of,
};

verus! {

/// A list of fields as a declaration can hold it: in a named shape every field has a
/// name of its own, and the fields can be counted.
pub open spec fn fields_valid(shape: FieldShapeView) -> bool {
    &&& shape.well_formed()
    &&& shape.fields().len() <= usize::MAX
    &&& shape is Named ==> forall|i: int, j: int|
        0 <= i < j < shape.fields().len() ==> shape.fields()[i].ident != shape.fields()[j].ident
}

/// The variants of an enum as a declaration can hold them: every variant has a name of
/// its own and a valid list of fields.
pub open spec fn variants_valid(variants: Seq<VariantView>) -> bool {
    &&& forall|i: int| 0 <= i < variants.len() ==> fields_valid((#[trigger] variants[i]).shape)
    &&& forall|i: int, j: int|
        0 <= i < j < variants.len() ==> variants[i].ident != variants[j].ident
}

/// The fields of `lhs` and `rhs` combined one by one by the binary method `method`.
pub open spec fn combined<V>(method: Seq<char>, lhs: Seq<V>, rhs: Seq<V>, methods: Methods<V>) -> Seq<
    V,
> {
    Seq::new(lhs.len(), |i: int| (methods.binary)(method, lhs[i], rhs[i]))
}

/// The unary method `method` applied to each of the fields `own`.
pub open spec fn applied<V>(method: Seq<char>, own: Seq<V>, methods: Methods<V>) -> Seq<V> {
    Seq::new(own.len(), |i: int| (methods.unary)(method, own[i]))
}

/// In a valid list of fields, the member by which a field is addressed leads back to the
/// position of that field.
pub proof fn lemma_member_position(shape: FieldShapeView, i: int)
    requires
        fields_valid(shape),
        0 <= i < shape.fields().len(),
    ensures
        position(shape.fields(), shape_members(shape)[i]) == i,
{
    let fields = shape.fields();
    if shape is Named {
        let name = fields[i].ident->0;
        assert(is_named(name)(fields[i]));
        assert forall|j: int| 0 <= j < i implies !is_named(name)(#[trigger] fields[j]) by {
            assert(fields[j].ident != fields[i].ident);
        }
        lemma_first_where_at(fields, is_named(name), i);
    }
}

/// In a valid enum, the name of a variant leads back to the position of that variant.
pub proof fn lemma_variant_position(variants: Seq<VariantView>, k: int)
    requires
        variants_valid(variants),
        0 <= k < variants.len(),
    ensures
        first_where(variants, is_called(variants[k].ident)) == k,
{
    let name = variants[k].ident;
    assert(is_called(name)(variants[k]));
    assert forall|j: int| 0 <= j < k implies !is_called(name)(#[trigger] variants[j]) by {
        assert(variants[j].ident != variants[k].ident);
    }
    lemma_first_where_at(variants, is_called(name), k);
}

/// For a struct with fields, the derived binary operator applies the operator of each
/// field to that field of both operands and builds the struct from the results, in the
/// order of the fields. It cannot fail.
pub proof fn lemma_struct_operator_is_fieldwise<V>(
    input: TypeDeclarationView,
    trait_name: Seq<char>,
    lhs: Seq<V>,
    rhs: Seq<V>,
    methods: Methods<V>,
)
    requires
        input.data is Struct,
        !(input.data->Struct_0 is Unit),
        fields_valid(input.data->Struct_0),
        lhs.len() == input.data->Struct_0.fields().len(),
        rhs.len() == input.data->Struct_0.fields().len(),
    ensures
        crate::add_like::expansion(input, trait_name) is Ok,
        !crate::add_like::expansion(input, trait_name)->Ok_0.fallible,
        crate::add_like::expansion(input, trait_name)->Ok_0.body is Construct,
        built_fields(
            input.data->Struct_0.fields(),
            crate::add_like::expansion(input, trait_name)->Ok_0.body->Construct_0,
            input.data->Struct_0.fields(),
            struct_bindings(lhs, rhs, None),
            methods,
        ) == Some(combined(lowercase(trait_name), lhs, rhs, methods)),
{
    let shape = input.data->Struct_0;
    let fields = shape.fields();
    let method = lowercase(trait_name);
    let built = field_construction(shape_kind(shape), shape_members(shape), method, Arity::Pairwise);
    let bindings = struct_bindings(lhs, rhs, None);
    let expected = combined(method, lhs, rhs, methods);
    assert forall|i: int| 0 <= i < built.inits.len() implies position(
        fields,
        (#[trigger] built.inits[i]).member,
    ) == i && call_value(fields, built.inits[i].value, bindings, methods) == Some(expected[i]) by {
        lemma_member_position(shape, i);
    }
    assert(built_fields(fields, built, fields, bindings, methods)->0 =~= expected);
}

/// The derived binary operator of a struct inherits the commutativity of the operators of
/// its fields: where these do not depend on the order of their operands, neither does the
/// derived one.
pub proof fn lemma_struct_operator_inherits_commutativity<V>(
    input: TypeDeclarationView,
    trait_name: Seq<char>,
    lhs: Seq<V>,
    rhs: Seq<V>,
    methods: Methods<V>,
)
    requires
        input.data is Struct,
        !(input.data->Struct_0 is Unit),
        fields_valid(input.data->Struct_0),
        lhs.len() == input.data->Struct_0.fields().len(),
        rhs.len() == input.data->Struct_0.fields().len(),
        forall|a: V, b: V| #[trigger]
            (methods.binary)(lowercase(trait_name), a, b) == (methods.binary)(
                lowercase(trait_name),
                b,
                a,
            ),
    ensures
        built_fields(
            input.data->Struct_0.fields(),
            crate::add_like::expansion(input, trait_name)->Ok_0.body->Construct_0,
            input.data->Struct_0.fields(),
            struct_bindings(lhs, rhs, None),
            methods,
        ) == built_fields(
            input.data->Struct_0.fields(),
            crate::add_like::expansion(input, trait_name)->Ok_0.body->Construct_0,
            input.data->Struct_0.fields(),
            struct_bindings(rhs, lhs, None),
            methods,
        ),
{
    let method = lowercase(trait_name);
    lemma_struct_operator_is_fieldwise(input, trait_name, lhs, rhs, methods);
    lemma_struct_operator_is_fieldwise(input, trait_name, rhs, lhs, methods);
    assert(combined(method, lhs, rhs, methods) =~= combined(method, rhs, lhs, methods));
}

/// The derived binary operator of a struct inherits the associativity of the operators of
/// its fields: where these may be grouped freely, so may the derived one.
pub proof fn lemma_struct_operator_inherits_associativity<V>(
    input: TypeDeclarationView,
    trait_name: Seq<char>,
    a: Seq<V>,
    b: Seq<V>,
    c: Seq<V>,
    methods: Methods<V>,
)
    requires
        input.data is Struct,
        !(input.data->Struct_0 is Unit),
        fields_valid(input.data->Struct_0),
        a.len() == input.data->Struct_0.fields().len(),
        b.len() == input.data->Struct_0.fields().len(),
        c.len() == input.data->Struct_0.fields().len(),
        forall|x: V, y: V, z: V|
            (methods.binary)(
                lowercase(trait_name),
                #[trigger] (methods.binary)(lowercase(trait_name), x, y),
                z,
            ) == (methods.binary)(
                lowercase(trait_name),
                x,
                #[trigger] (methods.binary)(lowercase(trait_name), y, z),
            ),
    ensures
        built_fields(
            input.data->Struct_0.fields(),
            crate::add_like::expansion(input, trait_name)->Ok_0.body->Construct_0,
            input.data->Struct_0.fields(),
            struct_bindings(combined(lowercase(trait_name), a, b, methods), c, None),
            methods,
        ) == built_fields(
            input.data->Struct_0.fields(),
            crate::add_like::expansion(input, trait_name)->Ok_0.body->Construct_0,
            input.data->Struct_0.fields(),
            struct_bindings(a, combined(lowercase(trait_name), b, c, methods), None),
            methods,
        ),
{
    let method = lowercase(trait_name);
    let ab = combined(method, a, b, methods);
    let bc = combined(method, b, c, methods);
    lemma_struct_operator_is_fieldwise(input, trait_name, ab, c, methods);
    lemma_struct_operator_is_fieldwise(input, trait_name, a, bc, methods);
    assert(combined(method, ab, c, methods) =~= combined(method, a, bc, methods));
}

/// For a struct with fields, the derived compound assignment hands the scalar to each
/// field in turn: the statement at each position calls the method on the field at that
/// position, with the scalar as the argument.
pub proof fn lemma_scalar_assignment_is_fieldwise<V>(
    input: TypeDeclarationView,
    trait_name: Seq<char>,
    own: Seq<V>,
    scalar: V,
    methods: Methods<V>,
    i: int,
)
    requires
        input.data is Struct,
        !(input.data->Struct_0 is Unit),
        fields_valid(input.data->Struct_0),
        own.len() == input.data->Struct_0.fields().len(),
        0 <= i < own.len(),
    ensures
        crate::mul_assign_like::expansion(input, trait_name) is Ok,
        crate::mul_assign_like::expansion(input, trait_name)->Ok_0.statements.len() == own.len(),
        call_value(
            input.data->Struct_0.fields(),
            crate::mul_assign_like::expansion(input, trait_name)->Ok_0.statements[i],
            struct_bindings(own, Seq::empty(), Some(scalar)),
            methods,
        ) == Some(
            (methods.binary)(crate::mul_assign_like::assign_method(trait_name), own[i], scalar),
        ),
{
    lemma_member_position(input.data->Struct_0, i);
}

/// For a struct with fields, the derived unary operator applies the operator of each
/// field to that field of `self` and builds the struct from the results. It cannot fail.
pub proof fn lemma_struct_unary_operator_is_fieldwise<V>(
    input: TypeDeclarationView,
    trait_name: Seq<char>,
    own: Seq<V>,
    methods: Methods<V>,
)
    requires
        input.data is Struct,
        !(input.data->Struct_0 is Unit),
        fields_valid(input.data->Struct_0),
        own.len() == input.data->Struct_0.fields().len(),
    ensures
        crate::not_like::expansion(input, trait_name) is Ok,
        !crate::not_like::expansion(input, trait_name)->Ok_0.fallible,
        crate::not_like::expansion(input, trait_name)->Ok_0.body is Construct,
        built_fields(
            input.data->Struct_0.fields(),
            crate::not_like::expansion(input, trait_name)->Ok_0.body->Construct_0,
            input.data->Struct_0.fields(),
            struct_bindings(own, Seq::empty(), None),
            methods,
        ) == Some(applied(lowercase(trait_name), own, methods)),
{
    let shape = input.data->Struct_0;
    let fields = shape.fields();
    let method = lowercase(trait_name);
    let built = field_construction(shape_kind(shape), shape_members(shape), method, Arity::Unary);
    let bindings = struct_bindings(own, Seq::<V>::empty(), None);
    let expected = applied(method, own, methods);
    assert forall|i: int| 0 <= i < built.inits.len() implies position(
        fields,
        (#[trigger] built.inits[i]).member,
    ) == i && call_value(fields, built.inits[i].value, bindings, methods) == Some(expected[i]) by {
        lemma_member_position(shape, i);
    }
    assert(built_fields(fields, built, fields, bindings, methods)->0 =~= expected);
}

/// What the arm of a variant yields for operands of that variant: a failure for a variant
/// without fields, and otherwise the variant rebuilt from the method applied to the
/// fields, wrapped as success where `wrap` holds.
pub open spec fn variant_outcome<V>(
    variant: VariantView,
    k: int,
    method: Seq<char>,
    wrap: bool,
    lhs: Instance<V>,
    rhs: Option<Instance<V>>,
    methods: Methods<V>,
) -> Outcome<V> {
    let fields = match rhs {
        Some(other) => combined(method, lhs.fields, other.fields, methods),
        None => applied(method, lhs.fields, methods),
    };
    if variant.shape is Unit {
        Outcome::Failure(unit_message(method))
    } else if wrap {
        Outcome::Success(Instance { variant: k, fields })
    } else {
        Outcome::Value(Instance { variant: k, fields })
    }
}

/// The pattern of a variant binds, for a value of that variant, the values of its fields
/// in their order.
pub proof fn lemma_pattern_binds_fields<V>(variant: VariantView, values: Seq<V>)
    requires
        fields_valid(variant.shape),
        values.len() == variant.shape.fields().len(),
    ensures
        bound_values(variant.shape.fields(), pattern_of(variant), values) == Some(values),
{
    let fields = variant.shape.fields();
    let pattern = pattern_of(variant);
    assert forall|i: int| 0 <= i < pattern.members.len() implies position(
        fields,
        #[trigger] pattern.members[i],
    ) == i by {
        lemma_member_position(variant.shape, i);
    }
    assert(bound_values(fields, pattern, values)->0 =~= values);
}

/// The arm of the variant at position `k` yields, for operands of that variant, the
/// outcome of that variant.
pub proof fn lemma_variant_arm<V>(
    variants: Seq<VariantView>,
    k: int,
    method: Seq<char>,
    wrap: bool,
    lhs: Instance<V>,
    rhs: Option<Instance<V>>,
    methods: Methods<V>,
)
    requires
        variants_valid(variants),
        instance_of(lhs, variants),
        lhs.variant == k,
        rhs matches Some(other) ==> instance_of(other, variants) && other.variant == k,
    ensures
        arm_outcome(variants, variant_arm(variants[k], method, rhs is Some, wrap), lhs, rhs, methods)
            == Some(variant_outcome(variants[k], k, method, wrap, lhs, rhs, methods)),
{
    let variant = variants[k];
    let fields = variant.shape.fields();
    let binary = rhs is Some;
    let arm = variant_arm(variant, method, binary, wrap);
    if !(variant.shape is Unit) {
        let built = variable_construction(variant, method, binary);
        lemma_pattern_binds_fields(variant, lhs.fields);
        if rhs is Some {
            lemma_pattern_binds_fields(variant, rhs->0.fields);
        }
        lemma_variant_position(variants, k);
        let bindings = arm_bindings(variants, pattern_of(variant), lhs, rhs)->0;
        let expected = match rhs {
            Some(other) => combined(method, lhs.fields, other.fields, methods),
            None => applied(method, lhs.fields, methods),
        };
        assert forall|i: int| 0 <= i < built.inits.len() implies position(
            fields,
            (#[trigger] built.inits[i]).member,
        ) == i && call_value(Seq::empty(), built.inits[i].value, bindings, methods) == Some(
            expected[i],
        ) by {
            lemma_member_position(variant.shape, i);
            assert((i as usize) as int == i);
        }
        assert(built_fields(fields, built, Seq::empty(), bindings, methods)->0 =~= expected);
    }
}

/// A match passes over arms that do not take the operands.
pub proof fn lemma_match_skips<V>(
    variants: Seq<VariantView>,
    arms: Seq<ArmView>,
    from: int,
    to: int,
    lhs: Instance<V>,
    rhs: Option<Instance<V>>,
    methods: Methods<V>,
)
    requires
        0 <= from <= to <= arms.len(),
        forall|j: int| from <= j < to ==> !arm_takes(variants, #[trigger] arms[j], lhs, rhs),
    ensures
        match_outcome(variants, arms, from, lhs, rhs, methods) == match_outcome(
            variants,
            arms,
            to,
            lhs,
            rhs,
            methods,
        ),
    decreases to - from,
{
    if from < to {
        lemma_match_skips(variants, arms, from + 1, to, lhs, rhs, methods);
    }
}

/// The arm of a variant takes the operands exactly where they are all of that variant.
pub proof fn lemma_arm_takes<V>(
    variants: Seq<VariantView>,
    j: int,
    method: Seq<char>,
    wrap: bool,
    lhs: Instance<V>,
    rhs: Option<Instance<V>>,
)
    requires
        variants_valid(variants),
        0 <= j < variants.len(),
        instance_of(lhs, variants),
        rhs matches Some(other) ==> instance_of(other, variants),
    ensures
        arm_takes(variants, variant_arm(variants[j], method, rhs is Some, wrap), lhs, rhs) <==> (
        lhs.variant == j && (rhs matches Some(other) ==> other.variant == j)),
{
    assert(variants[lhs.variant].ident == variants[j].ident <==> lhs.variant == j);
    if rhs is Some {
        assert(variants[rhs->0.variant].ident == variants[j].ident <==> rhs->0.variant == j);
    }
}

/// What the derived binary operator of an enum computes.
///
/// Operands of different variants fail with the message of mismatched variants. Operands
/// of the same variant without fields fail with the message of unit variants. Operands
/// of the same variant with fields give that variant, each field the operator of the
/// fields of both operands; the result is wrapped as success exactly where the operator
/// can fail at all: where the enum has more than one variant or a variant without fields.
pub proof fn lemma_enum_operator<V>(
    input: TypeDeclarationView,
    trait_name: Seq<char>,
    lhs: Instance<V>,
    rhs: Instance<V>,
    methods: Methods<V>,
)
    requires
        input.data is Enum,
        variants_valid(input.data->Enum_0),
        instance_of(lhs, input.data->Enum_0),
        instance_of(rhs, input.data->Enum_0),
    ensures
        crate::add_like::expansion(input, trait_name) is Ok,
        crate::add_like::expansion(input, trait_name)->Ok_0.body is Match,
        crate::add_like::expansion(input, trait_name)->Ok_0.fallible == crate::add_like::can_fail(
            input.data->Enum_0,
        ),
        match_outcome(
            input.data->Enum_0,
            crate::add_like::expansion(input, trait_name)->Ok_0.body->Match_0,
            0,
            lhs,
            Some(rhs),
            methods,
        ) == Some(
            if lhs.variant != rhs.variant {
                Outcome::Failure(mismatch_message(lowercase(trait_name)))
            } else {
                variant_outcome(
                    input.data->Enum_0[lhs.variant],
                    lhs.variant,
                    lowercase(trait_name),
                    crate::add_like::can_fail(input.data->Enum_0),
                    lhs,
                    Some(rhs),
                    methods,
                )
            },
        ),
{
    let variants = input.data->Enum_0;
    let method = lowercase(trait_name);
    let wrap = crate::add_like::can_fail(variants);
    let arms = crate::add_like::enum_arms(variants, method);
    let target = if lhs.variant == rhs.variant {
        lhs.variant
    } else {
        variants.len() as int
    };
    assert forall|j: int| 0 <= j < target implies !arm_takes(
        variants,
        #[trigger] arms[j],
        lhs,
        Some(rhs),
    ) by {
        lemma_arm_takes(variants, j, method, wrap, lhs, Some(rhs));
    }
    lemma_match_skips(variants, arms, 0, target, lhs, Some(rhs), methods);
    if lhs.variant == rhs.variant {
        lemma_arm_takes(variants, target, method, wrap, lhs, Some(rhs));
        lemma_variant_arm(variants, target, method, wrap, lhs, Some(rhs), methods);
    } else {
        assert(variants.len() > 1);
        assert(arms[target] == crate::add_like::wildcard_arm(method));
    }
}

/// For an enum with at least two variants the derived binary operator is fallible, and:
/// operands of different variants always yield the failure of mismatched variants;
/// operands of the same variant without fields always yield the failure of unit variants;
/// operands of the same variant with fields always yield success, wrapping that variant
/// with the operator applied field by field.
pub proof fn lemma_enum_operator_outcomes<V>(
    input: TypeDeclarationView,
    trait_name: Seq<char>,
    lhs: Instance<V>,
    rhs: Instance<V>,
    methods: Methods<V>,
)
    requires
        input.data is Enum,
        input.data->Enum_0.len() >= 2,
        variants_valid(input.data->Enum_0),
        instance_of(lhs, input.data->Enum_0),
        instance_of(rhs, input.data->Enum_0),
    ensures
        crate::add_like::expansion(input, trait_name) is Ok,
        crate::add_like::expansion(input, trait_name)->Ok_0.fallible,
        crate::add_like::expansion(input, trait_name)->Ok_0.body is Match,
        match_outcome(
            input.data->Enum_0,
            crate::add_like::expansion(input, trait_name)->Ok_0.body->Match_0,
            0,
            lhs,
            Some(rhs),
            methods,
        ) == Some(
            if lhs.variant != rhs.variant {
                Outcome::Failure(mismatch_message(lowercase(trait_name)))
            } else if input.data->Enum_0[lhs.variant].shape is Unit {
                Outcome::Failure(unit_message(lowercase(trait_name)))
            } else {
                Outcome::Success(
                    Instance {
                        variant: lhs.variant,
                        fields: combined(lowercase(trait_name), lhs.fields, rhs.fields, methods),
                    },
                )
            },
        ),
{
    lemma_enum_operator(input, trait_name, lhs, rhs, methods);
}

/// For an enum with exactly one variant, which has fields, the derived binary operator
/// never fails: its output is not fallible, and every pair of operands yields the
/// variant with the operator applied field by field. No wildcard arm is reached.
pub proof fn lemma_single_variant_never_fails<V>(
    input: TypeDeclarationView,
    trait_name: Seq<char>,
    lhs: Instance<V>,
    rhs: Instance<V>,
    methods: Methods<V>,
)
    requires
        input.data is Enum,
        input.data->Enum_0.len() == 1,
        !(input.data->Enum_0[0].shape is Unit),
        variants_valid(input.data->Enum_0),
        instance_of(lhs, input.data->Enum_0),
        instance_of(rhs, input.data->Enum_0),
    ensures
        crate::add_like::expansion(input, trait_name) is Ok,
        !crate::add_like::expansion(input, trait_name)->Ok_0.fallible,
        crate::add_like::expansion(input, trait_name)->Ok_0.body is Match,
        crate::add_like::expansion(input, trait_name)->Ok_0.body->Match_0.len() == 1,
        match_outcome(
            input.data->Enum_0,
            crate::add_like::expansion(input, trait_name)->Ok_0.body->Match_0,
            0,
            lhs,
            Some(rhs),
            methods,
        ) == Some(
            Outcome::Value(
                Instance {
                    variant: 0,
                    fields: combined(lowercase(trait_name), lhs.fields, rhs.fields, methods),
                },
            ),
        ),
{
    lemma_enum_operator(input, trait_name, lhs, rhs, methods);
}

/// What the derived unary operator of an enum computes. Its output is fallible if and
/// only if some variant has no fields. A value of a variant without fields fails with
/// the message of unit variants; any other yields its variant with the operator applied
/// to each field, wrapped as success exactly where the output is fallible.
pub proof fn lemma_enum_unary_operator<V>(
    input: TypeDeclarationView,
    trait_name: Seq<char>,
    own: Instance<V>,
    methods: Methods<V>,
)
    requires
        input.data is Enum,
        variants_valid(input.data->Enum_0),
        instance_of(own, input.data->Enum_0),
    ensures
        crate::not_like::expansion(input, trait_name) is Ok,
        crate::not_like::expansion(input, trait_name)->Ok_0.body is Match,
        crate::not_like::expansion(input, trait_name)->Ok_0.fallible <==> has_unit_variant(
            input.data->Enum_0,
        ),
        match_outcome(
            input.data->Enum_0,
            crate::not_like::expansion(input, trait_name)->Ok_0.body->Match_0,
            0,
            own,
            None,
            methods,
        ) == Some(
            variant_outcome(
                input.data->Enum_0[own.variant],
                own.variant,
                lowercase(trait_name),
                has_unit_variant(input.data->Enum_0),
                own,
                None,
                methods,
            ),
        ),
{
    let variants = input.data->Enum_0;
    let method = lowercase(trait_name);
    let wrap = has_unit_variant(variants);
    let arms = crate::not_like::enum_arms(variants, method);
    let target = own.variant;
    assert forall|j: int| 0 <= j < target implies !arm_takes(
        variants,
        #[trigger] arms[j],
        own,
        None,
    ) by {
        lemma_arm_takes(variants, j, method, wrap, own, None);
    }
    lemma_match_skips(variants, arms, 0, target, own, None, methods);
    lemma_arm_takes(variants, target, method, wrap, own, None);
    lemma_variant_arm(variants, target, method, wrap, own, None, methods);
}

/// Without any marker of the family, every item takes part.
pub proof fn lemma_unmarked_all_enabled(lists: Seq<Seq<AttributeView>>, name: Seq<char>)
    requires
        forall|i: int| 0 <= i < lists.len() ==> markers(#[trigger] lists[i], name).len() == 0,
    ensures
        enabled_flags(lists, name) == Ok::<Seq<bool>, DeriveErrorView>(
            Seq::new(lists.len(), |i: int| true),
        ),
{
    let results = marker_results(lists, name);
    assert forall|i: int| 0 <= i < results.len() implies !is_failure()(#[trigger] results[i])
        && !is_marked()(results[i]) by {
        assert(markers(lists[i], name).len() == 0);
    }
    lemma_first_where_none(results, is_failure());
    lemma_first_where_none(results, is_marked());
}

/// Where no marker is refused, the resolution succeeds with a flag for each item. An
/// item with an enabling marker takes part, one with an ignoring marker does not, and an
/// unmarked item takes part unless the first marker among the items is an enabling one.
pub proof fn lemma_enabled_by_markers(lists: Seq<Seq<AttributeView>>, name: Seq<char>, i: int)
    requires
        forall|j: int| 0 <= j < lists.len() ==> marker_of(#[trigger] lists[j], name) is Ok,
        0 <= i < lists.len(),
    ensures
        enabled_flags(lists, name) is Ok,
        enabled_flags(lists, name)->Ok_0.len() == lists.len(),
        marker_of(lists[i], name)->Ok_0 == Some(IgnoreMeta::Enabled) ==> enabled_flags(
            lists,
            name,
        )->Ok_0[i],
        marker_of(lists[i], name)->Ok_0 == Some(IgnoreMeta::Ignored) ==> !enabled_flags(
            lists,
            name,
        )->Ok_0[i],
        marker_of(lists[i], name)->Ok_0 is None ==> (enabled_flags(lists, name)->Ok_0[i] <==> !({
            let first = first_where(marker_results(lists, name), is_marked());
            first < lists.len() && marker_results(lists, name)[first]->Ok_0 == Some(
                IgnoreMeta::Enabled,
            )
        })),
{
    let results = marker_results(lists, name);
    assert forall|j: int| 0 <= j < results.len() implies !is_failure()(#[trigger] results[j]) by {
        assert(marker_of(lists[j], name) is Ok);
    }
    lemma_first_where_none(results, is_failure());
    lemma_first_where(results, is_marked());
}

/// Delegation to a single field is refused as ambiguous for every struct that has more
/// than one field and no marker on any of them.
pub proof fn lemma_unmarked_fields_are_ambiguous(input: TypeDeclarationView, trait_name: Seq<char>)
    requires
        input.data is Struct,
        input.data->Struct_0.fields().len() >= 2,
        forall|i: int|
            0 <= i < input.data->Struct_0.fields().len() ==> markers(
                (#[trigger] input.data->Struct_0.fields()[i]).attrs,
                crate::deref_to_inner::marker_name(),
            ).len() == 0,
    ensures
        crate::deref_to_inner::expansion(input, trait_name) == Err::<
            crate::fragment::DerefImplView,
            DeriveErrorView,
        >(
            DeriveErrorView {
                kind: ErrorKind::AmbiguousField,
                message: one_field_message(trait_name, crate::deref_to_inner::marker_name()),
            },
        ),
{
    let fields = input.data->Struct_0.fields();
    let name = crate::deref_to_inner::marker_name();
    let lists = attr_lists(fields);
    assert forall|i: int| 0 <= i < lists.len() implies markers(#[trigger] lists[i], name).len()
        == 0 by {
        assert(lists[i] == fields[i].attrs);
    }
    lemma_unmarked_all_enabled(lists, name);
    lemma_kept_all(fields, Seq::new(lists.len(), |i: int| true));
}

/// Delegation to a single field succeeds for every struct in which exactly one field
/// carries the enabling marker and no other field carries any: the target is the type of
/// that field, and the method refers to that field.
pub proof fn lemma_marked_field_is_target(input: TypeDeclarationView, trait_name: Seq<char>, k: int)
    requires
        input.data is Struct,
        0 <= k < input.data->Struct_0.fields().len(),
        marker_of(input.data->Struct_0.fields()[k].attrs, crate::deref_to_inner::marker_name())
            == Ok::<Option<IgnoreMeta>, DeriveErrorView>(Some(IgnoreMeta::Enabled)),
        forall|i: int|
            0 <= i < input.data->Struct_0.fields().len() && i != k ==> markers(
                (#[trigger] input.data->Struct_0.fields()[i]).attrs,
                crate::deref_to_inner::marker_name(),
            ).len() == 0,
    ensures
        crate::deref_to_inner::expansion(input, trait_name) is Ok,
        crate::deref_to_inner::expansion(input, trait_name)->Ok_0.target
            == input.data->Struct_0.fields()[k].ty,
        crate::deref_to_inner::expansion(input, trait_name)->Ok_0.member == shape_members(
            input.data->Struct_0,
        )[k],
        crate::deref_to_inner::expansion(input, trait_name)->Ok_0.input_type == input.ident,
{
    let shape = input.data->Struct_0;
    let fields = shape.fields();
    let name = crate::deref_to_inner::marker_name();
    let lists = attr_lists(fields);
    let results = marker_results(lists, name);
    assert forall|i: int| 0 <= i < results.len() implies !is_failure()(#[trigger] results[i])
        && (is_marked()(results[i]) <==> i == k) by {
        assert(lists[i] == fields[i].attrs);
        if i != k {
            assert(markers(fields[i].attrs, name).len() == 0);
        }
    }
    lemma_first_where_none(results, is_failure());
    lemma_first_where_at(results, is_marked(), k);
    let flags = enabled_flags(lists, name)->Ok_0;
    assert forall|i: int| 0 <= i < flags.len() implies (flags[i] <==> i == k) by {
        assert(lists[i] == fields[i].attrs);
        if i != k {
            assert(markers(fields[i].attrs, name).len() == 0);
        }
    }
    lemma_kept_single(fields, flags, k);
    lemma_kept_single(members_of(fields, shape is Named), flags, k);
}

/// The implementations of a narrowing conversion divide the values of the enum among
/// them by the types of their fields.
///
/// A value converts under an implementation if and only if its variant takes part and
/// has exactly the implementation's types as its fields, in order; it then yields its
/// fields. Every other value meets the failure with the implementation's message: the
/// failure is reached by values of the other variants alone.
pub proof fn lemma_conversions_divide_variants<V>(
    input: TypeDeclarationView,
    trait_name: Seq<char>,
    g: int,
    value: Instance<V>,
)
    requires
        input.data is Enum,
        variants_valid(input.data->Enum_0),
        crate::try_into::expansion(input, trait_name) is Ok,
        0 <= g < crate::try_into::expansion(input, trait_name)->Ok_0.len(),
        instance_of(value, input.data->Enum_0),
    ensures
        enabled_flags(
            variant_attr_lists(input.data->Enum_0),
            crate::try_into::marker_name(RefType::derive_mode(trait_name).0),
        ) is Ok,
        conversion_outcome(
            crate::try_into::expansion(input, trait_name)->Ok_0[g],
            input.data->Enum_0,
            value,
        ) == Some(
            if enabled_flags(
                variant_attr_lists(input.data->Enum_0),
                crate::try_into::marker_name(RefType::derive_mode(trait_name).0),
            )->Ok_0[value.variant] && type_tuple(input.data->Enum_0[value.variant])
                == crate::try_into::expansion(input, trait_name)->Ok_0[g].types {
                Ok::<Seq<V>, Seq<char>>(value.fields)
            } else {
                Err::<Seq<V>, Seq<char>>(
                    crate::try_into::expansion(input, trait_name)->Ok_0[g].message,
                )
            },
        ),
{
    let variants = input.data->Enum_0;
    let ref_type = RefType::derive_mode(trait_name).0;
    let lists = variant_attr_lists(variants);
    let flags = enabled_flags(lists, crate::try_into::marker_name(ref_type))->Ok_0;
    let enabled = kept(variants, flags);
    let keys = distinct(type_tuples(enabled));
    let members = chosen(enabled, has_tuple(keys[g]));
    let conversion = crate::try_into::expansion(input, trait_name)->Ok_0[g];
    let own = variants[value.variant];
    let test = matches_variant(own.ident);
    assert(flags.len() == variants.len()) by {
        lemma_first_where(marker_results(lists, crate::try_into::marker_name(ref_type)), is_marked());
    }
    lemma_kept(variants, flags);
    lemma_chosen(enabled, has_tuple(keys[g]));
    lemma_first_where(conversion.patterns, test);
    let found = first_where(conversion.patterns, test);
    assert(conversion.patterns.len() == members.len());
    if found < conversion.patterns.len() {
        // The pattern found belongs to a member of the group, which is the value's own
        // variant, since no two variants share a name.
        assert(conversion.patterns[found] == pattern_of(members[found]));
        assert(members.contains(members[found]));
        assert(enabled.contains(members[found]));
        let j = choose|j: int| 0 <= j < variants.len() && flags[j] && #[trigger] variants[j] == members[found];
        assert(variants[j].ident == own.ident);
        assert(j == value.variant);
        lemma_pattern_binds_fields(own, value.fields);
    } else {
        if flags[value.variant] && type_tuple(own) == conversion.types {
            assert(enabled.contains(own));
            assert(has_tuple(keys[g])(own));
            assert(members.contains(own));
            let m = choose|m: int| 0 <= m < members.len() && members[m] == own;
            assert(test(conversion.patterns[m]));
            assert(false);
        }
    }
}

/// Every variant that takes part in a narrowing conversion has exactly one
/// implementation for the types of its fields.
pub proof fn lemma_conversion_of_each_variant(
    input: TypeDeclarationView,
    trait_name: Seq<char>,
    k: int,
)
    requires
        input.data is Enum,
        crate::try_into::expansion(input, trait_name) is Ok,
        0 <= k < input.data->Enum_0.len(),
        enabled_flags(
            variant_attr_lists(input.data->Enum_0),
            crate::try_into::marker_name(RefType::derive_mode(trait_name).0),
        )->Ok_0[k],
    ensures
        exists|g: int|
            0 <= g < crate::try_into::expansion(input, trait_name)->Ok_0.len() && (
            #[trigger] crate::try_into::expansion(input, trait_name)->Ok_0[g]).types == type_tuple(
                input.data->Enum_0[k],
            ),
        forall|g: int, h: int|
            0 <= g < h < crate::try_into::expansion(input, trait_name)->Ok_0.len()
                ==> crate::try_into::expansion(input, trait_name)->Ok_0[g].types
                != crate::try_into::expansion(input, trait_name)->Ok_0[h].types,
{
    let variants = input.data->Enum_0;
    let ref_type = RefType::derive_mode(trait_name).0;
    let lists = variant_attr_lists(variants);
    let flags = enabled_flags(lists, crate::try_into::marker_name(ref_type))->Ok_0;
    let enabled = kept(variants, flags);
    let tuples = type_tuples(enabled);
    let keys = distinct(tuples);
    let impls = crate::try_into::expansion(input, trait_name)->Ok_0;
    assert(flags.len() == variants.len()) by {
        lemma_first_where(marker_results(lists, crate::try_into::marker_name(ref_type)), is_marked());
    }
    lemma_kept(variants, flags);
    lemma_distinct(tuples);
    assert(enabled.contains(variants[k]));
    let e = choose|e: int| 0 <= e < enabled.len() && enabled[e] == variants[k];
    assert(tuples[e] == type_tuple(variants[k]));
    assert(tuples.contains(type_tuple(variants[k])));
    assert(keys.contains(type_tuple(variants[k])));
    let g = choose|g: int| 0 <= g < keys.len() && keys[g] == type_tuple(variants[k]);
    assert(impls[g].types == type_tuple(variants[k]));
    assert forall|g: int, h: int| 0 <= g < h < impls.len() implies impls[g].types
        != impls[h].types by {
        assert(keys[g] != keys[h]);
    }
}

} // verus!
