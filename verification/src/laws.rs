//! Laws of the size computation, stated once for all shapes and proved.

use vstd::prelude::*;

use crate::MaxSize;
use crate::registry::{leaf_size, LeafKind};
use crate::shape::{
    data_size, field_list_size, fields_size, type_ref_size, union_list_max,
    variant_list_max, Data, Field, Fields, TypeRef, Variant,
};

verus! {

/// Every leaf row of the registry table agrees with the corresponding
/// `MaxSize` implementation.
pub proof fn lemma_registry_matches_impls()
    ensures
        <bool as MaxSize>::spec_max_size() == leaf_size(LeafKind::Bool),
        <u8 as MaxSize>::spec_max_size() == leaf_size(LeafKind::U8),
        <u16 as MaxSize>::spec_max_size() == leaf_size(LeafKind::U16),
        <u32 as MaxSize>::spec_max_size() == leaf_size(LeafKind::U32),
        <u64 as MaxSize>::spec_max_size() == leaf_size(LeafKind::U64),
        <u128 as MaxSize>::spec_max_size() == leaf_size(LeafKind::U128),
        <i8 as MaxSize>::spec_max_size() == leaf_size(LeafKind::I8),
        <i16 as MaxSize>::spec_max_size() == leaf_size(LeafKind::I16),
        <i32 as MaxSize>::spec_max_size() == leaf_size(LeafKind::I32),
        <i64 as MaxSize>::spec_max_size() == leaf_size(LeafKind::I64),
        <i128 as MaxSize>::spec_max_size() == leaf_size(LeafKind::I128),
        <() as MaxSize>::spec_max_size() == leaf_size(LeafKind::Unit),
        <char as MaxSize>::spec_max_size() == leaf_size(LeafKind::Char),
{
}

/// Registry queries are idempotent: every result of
/// [`crate::registry::leaf_max_size`] equals `leaf_size` of the queried
/// leaf, so any two queries for the same leaf agree, however often they
/// are made.
pub proof fn lemma_registry_query_idempotent(k: LeafKind, r1: usize, r2: usize)
    requires
        r1 == leaf_size(k),
        r2 == leaf_size(k),
    ensures
        r1 == r2,
{
}

/// A struct's bound is the sum of its fields' bounds, whether the fields
/// are named or positional, and a struct with no fields has bound zero.
pub proof fn lemma_struct_size_is_sum(v: Vec<Field>, params: Seq<usize>)
    ensures
        data_size(Data::Struct(Fields::Named(v)), params) == field_list_size(v@, params),
        data_size(Data::Struct(Fields::Unnamed(v)), params) == field_list_size(v@, params),
        data_size(Data::Struct(Fields::Unit), params) == 0,
        v@.len() == 0 ==> data_size(Data::Struct(Fields::Named(v)), params) == 0,
{
}

/// Appending one more field to a field list adds exactly that field's
/// bound to the sum.
pub proof fn lemma_field_list_size_push(s: Seq<Field>, f: Field, params: Seq<usize>)
    ensures
        field_list_size(s.push(f), params) == field_list_size(s, params) + type_ref_size(
            f.ty,
            params,
        ),
{
    assert(s.push(f).drop_last() =~= s);
    assert(s.push(f).last() == f);
}

proof fn variant_list_max_props(s: Seq<Variant>, params: Seq<usize>)
    ensures
        forall|j: int|
            0 <= j < s.len() ==> fields_size(s[j].fields, params) <= variant_list_max(s, params),
        s.len() > 0 ==> exists|j: int|
            0 <= j < s.len() && variant_list_max(s, params) == fields_size(s[j].fields, params),
    decreases s.len(),
{
    if s.len() > 0 {
        let d = s.drop_last();
        variant_list_max_props(d, params);
        let m = variant_list_max(s, params);
        assert forall|j: int| 0 <= j < s.len() implies fields_size(s[j].fields, params) <= m by {
            if j < s.len() - 1 {
                assert(d[j] == s[j]);
            }
        }
        if fields_size(s.last().fields, params) >= variant_list_max(d, params) {
            assert(m == fields_size(s[s.len() - 1].fields, params));
        } else {
            let j0 = choose|j: int|
                0 <= j < d.len() && variant_list_max(d, params) == fields_size(
                    d[j].fields,
                    params,
                );
            assert(d[j0] == s[j0]);
            assert(m == fields_size(s[j0].fields, params));
        }
    }
}

/// An enum's bound is the greatest of its variants' struct-shaped bounds:
/// no variant exceeds it, and some variant attains it. An enum with no
/// variants has bound zero.
pub proof fn lemma_enum_size_is_max(v: Vec<Variant>, params: Seq<usize>)
    ensures
        forall|j: int|
            0 <= j < v@.len() ==> fields_size(v@[j].fields, params) <= data_size(
                Data::Enum(v),
                params,
            ),
        v@.len() == 0 ==> data_size(Data::Enum(v), params) == 0,
        v@.len() > 0 ==> exists|j: int|
            0 <= j < v@.len() && data_size(Data::Enum(v), params) == fields_size(
                v@[j].fields,
                params,
            ),
{
    variant_list_max_props(v@, params);
}

proof fn union_list_max_props(s: Seq<Field>, params: Seq<usize>)
    ensures
        forall|j: int|
            0 <= j < s.len() ==> type_ref_size(s[j].ty, params) <= union_list_max(s, params),
        s.len() > 0 ==> exists|j: int|
            0 <= j < s.len() && union_list_max(s, params) == type_ref_size(s[j].ty, params),
    decreases s.len(),
{
    if s.len() > 0 {
        let d = s.drop_last();
        union_list_max_props(d, params);
        let m = union_list_max(s, params);
        assert forall|j: int| 0 <= j < s.len() implies type_ref_size(s[j].ty, params) <= m by {
            if j < s.len() - 1 {
                assert(d[j] == s[j]);
            }
        }
        if type_ref_size(s.last().ty, params) >= union_list_max(d, params) {
            assert(m == type_ref_size(s[s.len() - 1].ty, params));
        } else {
            let j0 = choose|j: int|
                0 <= j < d.len() && union_list_max(d, params) == type_ref_size(d[j].ty, params);
            assert(d[j0] == s[j0]);
            assert(m == type_ref_size(s[j0].ty, params));
        }
    }
}

/// A union's bound is the greatest of its alternatives' bounds: no
/// alternative exceeds it, and some alternative attains it. A union with
/// no alternatives has bound zero.
pub proof fn lemma_union_size_is_max(v: Vec<Field>, params: Seq<usize>)
    ensures
        forall|j: int|
            0 <= j < v@.len() ==> type_ref_size(v@[j].ty, params) <= data_size(
                Data::Union(v),
                params,
            ),
        v@.len() == 0 ==> data_size(Data::Union(v), params) == 0,
        v@.len() > 0 ==> exists|j: int|
            0 <= j < v@.len() && data_size(Data::Union(v), params) == type_ref_size(
                v@[j].ty,
                params,
            ),
{
    union_list_max_props(v@, params);
}

/// An optional's bound is one byte for the presence flag plus the
/// payload's bound, for every payload shape.
pub proof fn lemma_optional_size(inner: Box<TypeRef>, params: Seq<usize>)
    ensures
        type_ref_size(TypeRef::Optional(inner), params) == 1 + type_ref_size(*inner, params),
{
}

/// The bound of the `Option` implementation is one byte for the presence
/// flag plus the payload type's bound, for every payload type.
pub proof fn lemma_option_impl_size<T: MaxSize>()
    ensures
        <Option<T> as MaxSize>::spec_max_size() == 1 + T::spec_max_size(),
{
}

/// A fixed array's bound is its element count times its element's bound,
/// for every element shape.
pub proof fn lemma_array_size(n: usize, elem: Box<TypeRef>, params: Seq<usize>)
    ensures
        type_ref_size(TypeRef::Array(n, elem), params) == (n as nat) * type_ref_size(
            *elem,
            params,
        ),
{
}

/// The bound of the array implementation is the element count times the
/// element type's bound, for every element type and count.
pub proof fn lemma_array_impl_size<T: MaxSize, const N: usize>()
    ensures
        <[T; N] as MaxSize>::spec_max_size() == (N as nat) * T::spec_max_size(),
{
}

/// A bounded vector's bound is four bytes for the length plus its capacity
/// times its element's bound, for every element shape.
pub proof fn lemma_bounded_vec_size(n: usize, elem: Box<TypeRef>, params: Seq<usize>)
    ensures
        type_ref_size(TypeRef::BoundedVec(n, elem), params) == 4 + (n as nat) * type_ref_size(
            *elem,
            params,
        ),
{
}

/// The bound of the `ArrayVec` implementation is four bytes for the length
/// plus the capacity times the element type's bound.
pub proof fn lemma_bounded_vec_impl_size<T: MaxSize, const CAP: usize>()
    ensures
        <arrayvec::ArrayVec<T, CAP> as MaxSize>::spec_max_size() == 4 + (CAP as nat)
            * T::spec_max_size(),
{
}

/// Nesting is compositional: a field that holds a derived aggregate
/// contributes exactly that aggregate's own derived bound to the enclosing
/// struct's sum, not a re-expansion of its fields.
pub proof fn lemma_nesting_compositional(s: Seq<Field>, inner: Box<Data>, params: Seq<usize>)
    ensures
        type_ref_size(TypeRef::Aggregate(inner), params) == data_size(*inner, params),
        field_list_size(s.push((Field { ty: TypeRef::Aggregate(inner) })), params)
            == field_list_size(s, params) + data_size(*inner, params),
{
    lemma_field_list_size_push(s, (Field { ty: TypeRef::Aggregate(inner) }), params);
}

} // verus!
