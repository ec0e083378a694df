//! The type-shape description model and the structural size computation.
//!
//! A [`Data`] value describes one declared aggregate type: a struct with a
//! field list, an enum with a variant list, or a union with a flat list of
//! alternatives. Each field references another type through a [`TypeRef`]:
//! a registry leaf, a type parameter of the aggregate, an optional, a
//! fixed-size array, a bounded vector, or a nested aggregate.
//!
//! [`overall_max_size`] walks such a description and returns the maximum
//! serialized size of the described type: the sum of the field sizes for a
//! struct, the maximum over the variants for an enum, and the maximum over
//! the alternatives for a union. A type parameter contributes the size bound
//! supplied for it by the caller; a parameter index with no supplied bound is
//! the one failure, [`SizeError::MissingCapability`].

use vstd::prelude::*;

use crate::registry::{leaf_size, leaf_max_size, LeafKind};

verus! {

/// A reference to a type, as it appears in a field position.
#[derive(Debug)]
pub enum TypeRef {
    /// A leaf type whose size the registry supplies.
    Leaf(LeafKind),
    /// The type parameter of the aggregate with this index. Its size bound
    /// must be supplied by the caller of the size computation.
    Param(usize),
    /// An optional of the inner type: a presence flag plus the payload.
    Optional(Box<TypeRef>),
    /// A fixed-size array of the given element count.
    Array(usize, Box<TypeRef>),
    /// A bounded dynamic vector of the given capacity: a four-byte length
    /// plus, at worst, a full payload per slot.
    BoundedVec(usize, Box<TypeRef>),
    /// A nested aggregate, described by its own shape.
    Aggregate(Box<Data>),
}

/// One field of an aggregate. Only the referenced type matters for the size
/// computation; a field is identified by its position.
#[derive(Debug)]
pub struct Field {
    /// The type the field holds.
    pub ty: TypeRef,
}

/// The field list of a struct or of one enum variant.
#[derive(Debug)]
pub enum Fields {
    /// Named fields, in declaration order.
    Named(Vec<Field>),
    /// Unnamed (tuple-like) fields, in positional order.
    Unnamed(Vec<Field>),
    /// No fields at all.
    Unit,
}

/// One variant of an enum, carrying its own field list.
#[derive(Debug)]
pub struct Variant {
    /// The fields of the variant.
    pub fields: Fields,
}

/// The shape of one declared aggregate type.
#[derive(Debug)]
pub enum Data {
    /// A struct with a field list.
    Struct(Fields),
    /// An enum with a variant list.
    Enum(Vec<Variant>),
    /// A union with a flat list of named alternatives.
    Union(Vec<Field>),
}

/// The one failure of the size computation.
#[derive(Debug, Clone, Copy, PartialEq, Eq, Structural)]
pub enum SizeError {
    /// A field, element, or alternative references the type parameter with
    /// this index, but no size bound was supplied for it.
    MissingCapability {
        /// The index of the parameter that lacks a size bound.
        param: usize,
    },
}

/// The larger of two natural numbers.
pub open spec fn nat_max(a: nat, b: nat) -> nat {
    if a >= b {
        a
    } else {
        b
    }
}

/// The maximum serialized size of the type a reference denotes, given the
/// size bound of each type parameter. A parameter index with no supplied
/// bound counts as zero here; such references are exactly the ones
/// [`overall_max_size`] rejects.
pub open spec fn type_ref_size(t: TypeRef, params: Seq<usize>) -> nat
    decreases t,
{
    match t {
        TypeRef::Leaf(k) => leaf_size(k),
        TypeRef::Param(i) => if i < params.len() {
            params[i as int] as nat
        } else {
            0
        },
        TypeRef::Optional(inner) => 1 + type_ref_size(*inner, params),
        TypeRef::Array(n, elem) => (n as nat) * type_ref_size(*elem, params),
        TypeRef::BoundedVec(n, elem) => 4 + (n as nat) * type_ref_size(*elem, params),
        TypeRef::Aggregate(d) => data_size(*d, params),
    }
}

/// The sum of the sizes of a list of fields, in order.
pub open spec fn field_list_size(s: Seq<Field>, params: Seq<usize>) -> nat
    decreases s,
{
    if s.len() == 0 {
        0
    } else {
        field_list_size(s.drop_last(), params) + type_ref_size(s.last().ty, params)
    }
}

/// The size of a struct-shaped field list: the sum of its field sizes, and
/// zero when there are no fields.
pub open spec fn fields_size(f: Fields, params: Seq<usize>) -> nat
    decreases f,
{
    match f {
        Fields::Named(v) => field_list_size(v@, params),
        Fields::Unnamed(v) => field_list_size(v@, params),
        Fields::Unit => 0,
    }
}

/// The maximum over the sizes of a list of enum variants; zero for an empty
/// list.
///
/// Deliberately, no byte is added for the discriminant that a wire encoding
/// would use to tell the variants apart: the derivation has always produced
/// these tag-less numbers, and consumers may depend on them.
pub open spec fn variant_list_max(s: Seq<Variant>, params: Seq<usize>) -> nat
    decreases s,
{
    if s.len() == 0 {
        0
    } else {
        nat_max(variant_list_max(s.drop_last(), params), fields_size(s.last().fields, params))
    }
}

/// The maximum over the sizes of a list of union alternatives; zero for an
/// empty list.
pub open spec fn union_list_max(s: Seq<Field>, params: Seq<usize>) -> nat
    decreases s,
{
    if s.len() == 0 {
        0
    } else {
        nat_max(union_list_max(s.drop_last(), params), type_ref_size(s.last().ty, params))
    }
}

/// The maximum serialized size of the type an aggregate shape describes:
/// sum of field sizes for a struct, maximum over variant sizes for an enum,
/// maximum over alternative sizes for a union.
pub open spec fn data_size(d: Data, params: Seq<usize>) -> nat
    decreases d,
{
    match d {
        Data::Struct(f) => fields_size(f, params),
        Data::Enum(v) => variant_list_max(v@, params),
        Data::Union(v) => union_list_max(v@, params),
    }
}

/// Whether every type parameter a reference mentions has an index below
/// `n_params`, the number of supplied parameter bounds.
pub open spec fn type_ref_wf(t: TypeRef, n_params: nat) -> bool
    decreases t,
{
    match t {
        TypeRef::Leaf(_) => true,
        TypeRef::Param(i) => (i as nat) < n_params,
        TypeRef::Optional(inner) => type_ref_wf(*inner, n_params),
        TypeRef::Array(_, elem) => type_ref_wf(*elem, n_params),
        TypeRef::BoundedVec(_, elem) => type_ref_wf(*elem, n_params),
        TypeRef::Aggregate(d) => data_wf(*d, n_params),
    }
}

/// Whether every field of a list is well formed for `n_params` parameters.
pub open spec fn field_list_wf(s: Seq<Field>, n_params: nat) -> bool
    decreases s,
{
    if s.len() == 0 {
        true
    } else {
        field_list_wf(s.drop_last(), n_params) && type_ref_wf(s.last().ty, n_params)
    }
}

/// Whether a struct-shaped field list is well formed for `n_params`
/// parameters.
pub open spec fn fields_wf(f: Fields, n_params: nat) -> bool
    decreases f,
{
    match f {
        Fields::Named(v) => field_list_wf(v@, n_params),
        Fields::Unnamed(v) => field_list_wf(v@, n_params),
        Fields::Unit => true,
    }
}

/// Whether every variant of a list is well formed for `n_params`
/// parameters.
pub open spec fn variant_list_wf(s: Seq<Variant>, n_params: nat) -> bool
    decreases s,
{
    if s.len() == 0 {
        true
    } else {
        variant_list_wf(s.drop_last(), n_params) && fields_wf(s.last().fields, n_params)
    }
}

/// Whether an aggregate shape is well formed for `n_params` parameters:
/// exactly then does the size computation succeed.
pub open spec fn data_wf(d: Data, n_params: nat) -> bool
    decreases d,
{
    match d {
        Data::Struct(f) => fields_wf(f, n_params),
        Data::Enum(v) => variant_list_wf(v@, n_params),
        Data::Union(v) => field_list_wf(v@, n_params),
    }
}

/// Whether a reference mentions the type parameter with index `p` anywhere
/// inside it.
pub open spec fn type_ref_mentions(t: TypeRef, p: nat) -> bool
    decreases t,
{
    match t {
        TypeRef::Leaf(_) => false,
        TypeRef::Param(i) => (i as nat) == p,
        TypeRef::Optional(inner) => type_ref_mentions(*inner, p),
        TypeRef::Array(_, elem) => type_ref_mentions(*elem, p),
        TypeRef::BoundedVec(_, elem) => type_ref_mentions(*elem, p),
        TypeRef::Aggregate(d) => data_mentions(*d, p),
    }
}

/// Whether some field of a list mentions the type parameter with index `p`.
pub open spec fn field_list_mentions(s: Seq<Field>, p: nat) -> bool
    decreases s,
{
    if s.len() == 0 {
        false
    } else {
        field_list_mentions(s.drop_last(), p) || type_ref_mentions(s.last().ty, p)
    }
}

/// Whether a struct-shaped field list mentions the type parameter with
/// index `p`.
pub open spec fn fields_mentions(f: Fields, p: nat) -> bool
    decreases f,
{
    match f {
        Fields::Named(v) => field_list_mentions(v@, p),
        Fields::Unnamed(v) => field_list_mentions(v@, p),
        Fields::Unit => false,
    }
}

/// Whether some variant of a list mentions the type parameter with index
/// `p`.
pub open spec fn variant_list_mentions(s: Seq<Variant>, p: nat) -> bool
    decreases s,
{
    if s.len() == 0 {
        false
    } else {
        variant_list_mentions(s.drop_last(), p) || fields_mentions(s.last().fields, p)
    }
}

/// Whether an aggregate shape mentions the type parameter with index `p`.
pub open spec fn data_mentions(d: Data, p: nat) -> bool
    decreases d,
{
    match d {
        Data::Struct(f) => fields_mentions(f, p),
        Data::Enum(v) => variant_list_mentions(v@, p),
        Data::Union(v) => field_list_mentions(v@, p),
    }
}

proof fn lemma_field_list_size_take_step(s: Seq<Field>, j: int, params: Seq<usize>)
    requires
        0 <= j < s.len(),
    ensures
        field_list_size(s.take(j + 1), params) == field_list_size(s.take(j), params)
            + type_ref_size(s[j].ty, params),
{
    let t = s.take(j + 1);
    assert(t.drop_last() =~= s.take(j));
    assert(t.last() == s[j]);
}

proof fn lemma_field_list_size_take_le(s: Seq<Field>, j: int, params: Seq<usize>)
    requires
        0 <= j <= s.len(),
    ensures
        field_list_size(s.take(j), params) <= field_list_size(s, params),
    decreases s.len(),
{
    if j == s.len() {
        assert(s.take(j) =~= s);
    } else {
        assert(s.take(j) =~= s.drop_last().take(j));
        lemma_field_list_size_take_le(s.drop_last(), j, params);
    }
}

proof fn lemma_variant_list_max_take_step(s: Seq<Variant>, j: int, params: Seq<usize>)
    requires
        0 <= j < s.len(),
    ensures
        variant_list_max(s.take(j + 1), params) == nat_max(
            variant_list_max(s.take(j), params),
            fields_size(s[j].fields, params),
        ),
{
    let t = s.take(j + 1);
    assert(t.drop_last() =~= s.take(j));
    assert(t.last() == s[j]);
}

proof fn lemma_variant_list_max_take_le(s: Seq<Variant>, j: int, params: Seq<usize>)
    requires
        0 <= j <= s.len(),
    ensures
        variant_list_max(s.take(j), params) <= variant_list_max(s, params),
    decreases s.len(),
{
    if j == s.len() {
        assert(s.take(j) =~= s);
    } else {
        assert(s.take(j) =~= s.drop_last().take(j));
        lemma_variant_list_max_take_le(s.drop_last(), j, params);
    }
}

proof fn lemma_union_list_max_take_step(s: Seq<Field>, j: int, params: Seq<usize>)
    requires
        0 <= j < s.len(),
    ensures
        union_list_max(s.take(j + 1), params) == nat_max(
            union_list_max(s.take(j), params),
            type_ref_size(s[j].ty, params),
        ),
{
    let t = s.take(j + 1);
    assert(t.drop_last() =~= s.take(j));
    assert(t.last() == s[j]);
}

proof fn lemma_union_list_max_take_le(s: Seq<Field>, j: int, params: Seq<usize>)
    requires
        0 <= j <= s.len(),
    ensures
        union_list_max(s.take(j), params) <= union_list_max(s, params),
    decreases s.len(),
{
    if j == s.len() {
        assert(s.take(j) =~= s);
    } else {
        assert(s.take(j) =~= s.drop_last().take(j));
        lemma_union_list_max_take_le(s.drop_last(), j, params);
    }
}

proof fn lemma_field_list_wf_take_step(s: Seq<Field>, j: int, n_params: nat)
    requires
        0 <= j < s.len(),
    ensures
        field_list_wf(s.take(j + 1), n_params) == (field_list_wf(s.take(j), n_params)
            && type_ref_wf(s[j].ty, n_params)),
{
    let t = s.take(j + 1);
    assert(t.drop_last() =~= s.take(j));
    assert(t.last() == s[j]);
}

proof fn lemma_variant_list_wf_take_step(s: Seq<Variant>, j: int, n_params: nat)
    requires
        0 <= j < s.len(),
    ensures
        variant_list_wf(s.take(j + 1), n_params) == (variant_list_wf(s.take(j), n_params)
            && fields_wf(s[j].fields, n_params)),
{
    let t = s.take(j + 1);
    assert(t.drop_last() =~= s.take(j));
    assert(t.last() == s[j]);
}

proof fn lemma_field_list_wf_elem(s: Seq<Field>, j: int, n_params: nat)
    requires
        field_list_wf(s, n_params),
        0 <= j < s.len(),
    ensures
        type_ref_wf(s[j].ty, n_params),
    decreases s.len(),
{
    if j < s.len() - 1 {
        lemma_field_list_wf_elem(s.drop_last(), j, n_params);
    }
}

proof fn lemma_variant_list_wf_elem(s: Seq<Variant>, j: int, n_params: nat)
    requires
        variant_list_wf(s, n_params),
        0 <= j < s.len(),
    ensures
        fields_wf(s[j].fields, n_params),
    decreases s.len(),
{
    if j < s.len() - 1 {
        lemma_variant_list_wf_elem(s.drop_last(), j, n_params);
    }
}

proof fn lemma_field_list_mentions_elem(s: Seq<Field>, j: int, p: nat)
    requires
        0 <= j < s.len(),
        type_ref_mentions(s[j].ty, p),
    ensures
        field_list_mentions(s, p),
    decreases s.len(),
{
    if j < s.len() - 1 {
        lemma_field_list_mentions_elem(s.drop_last(), j, p);
    }
}

proof fn lemma_variant_list_mentions_elem(s: Seq<Variant>, j: int, p: nat)
    requires
        0 <= j < s.len(),
        fields_mentions(s[j].fields, p),
    ensures
        variant_list_mentions(s, p),
    decreases s.len(),
{
    if j < s.len() - 1 {
        lemma_variant_list_mentions_elem(s.drop_last(), j, p);
    }
}

/// Checks that every type parameter a reference mentions has a supplied
/// bound; reports the offending parameter index otherwise.
pub fn check_type_ref(t: &TypeRef, n_params: usize) -> (r: Result<(), SizeError>)
    ensures
        r is Ok <==> type_ref_wf(*t, n_params as nat),
        r matches Err(SizeError::MissingCapability { param }) ==> n_params <= param
            && type_ref_mentions(*t, param as nat),
    decreases *t,
{
    match t {
        TypeRef::Leaf(_) => Ok(()),
        TypeRef::Param(i) => {
            if *i < n_params {
                Ok(())
            } else {
                Err(SizeError::MissingCapability { param: *i })
            }
        },
        TypeRef::Optional(inner) => check_type_ref(inner, n_params),
        TypeRef::Array(_, elem) => check_type_ref(elem, n_params),
        TypeRef::BoundedVec(_, elem) => check_type_ref(elem, n_params),
        TypeRef::Aggregate(d) => check_data(d, n_params),
    }
}

/// Checks a whole field list, in declaration order.
pub fn check_field_list(v: &Vec<Field>, n_params: usize) -> (r: Result<(), SizeError>)
    ensures
        r is Ok <==> field_list_wf(v@, n_params as nat),
        r matches Err(SizeError::MissingCapability { param }) ==> n_params <= param
            && field_list_mentions(v@, param as nat),
    decreases v@,
{
    let mut j: usize = 0;
    while j < v.len()
        invariant
            j <= v@.len(),
            field_list_wf(v@.take(j as int), n_params as nat),
        decreases v@.len() - j,
    {
        proof {
            lemma_field_list_wf_take_step(v@, j as int, n_params as nat);
        }
        match check_type_ref(&v[j].ty, n_params) {
            Ok(()) => {},
            Err(e) => {
                proof {
                    if field_list_wf(v@, n_params as nat) {
                        lemma_field_list_wf_elem(v@, j as int, n_params as nat);
                    }
                    let p = e->MissingCapability_param;
                    lemma_field_list_mentions_elem(v@, j as int, p as nat);
                }
                return Err(e);
            },
        }
        j = j + 1;
    }
    proof {
        assert(v@.take(v@.len() as int) =~= v@);
    }
    Ok(())
}

/// Checks a struct-shaped field list.
pub fn check_fields(f: &Fields, n_params: usize) -> (r: Result<(), SizeError>)
    ensures
        r is Ok <==> fields_wf(*f, n_params as nat),
        r matches Err(SizeError::MissingCapability { param }) ==> n_params <= param
            && fields_mentions(*f, param as nat),
    decreases *f,
{
    match f {
        Fields::Named(v) => check_field_list(v, n_params),
        Fields::Unnamed(v) => check_field_list(v, n_params),
        Fields::Unit => Ok(()),
    }
}

/// Checks a whole variant list, in declaration order.
pub fn check_variant_list(v: &Vec<Variant>, n_params: usize) -> (r: Result<(), SizeError>)
    ensures
        r is Ok <==> variant_list_wf(v@, n_params as nat),
        r matches Err(SizeError::MissingCapability { param }) ==> n_params <= param
            && variant_list_mentions(v@, param as nat),
    decreases v@,
{
    let mut j: usize = 0;
    while j < v.len()
        invariant
            j <= v@.len(),
            variant_list_wf(v@.take(j as int), n_params as nat),
        decreases v@.len() - j,
    {
        proof {
            lemma_variant_list_wf_take_step(v@, j as int, n_params as nat);
        }
        match check_fields(&v[j].fields, n_params) {
            Ok(()) => {},
            Err(e) => {
                proof {
                    if variant_list_wf(v@, n_params as nat) {
                        lemma_variant_list_wf_elem(v@, j as int, n_params as nat);
                    }
                    let p = e->MissingCapability_param;
                    lemma_variant_list_mentions_elem(v@, j as int, p as nat);
                }
                return Err(e);
            },
        }
        j = j + 1;
    }
    proof {
        assert(v@.take(v@.len() as int) =~= v@);
    }
    Ok(())
}

/// Checks an aggregate shape: succeeds exactly when every referenced type
/// parameter has a supplied bound.
pub fn check_data(d: &Data, n_params: usize) -> (r: Result<(), SizeError>)
    ensures
        r is Ok <==> data_wf(*d, n_params as nat),
        r matches Err(SizeError::MissingCapability { param }) ==> n_params <= param
            && data_mentions(*d, param as nat),
    decreases *d,
{
    match d {
        Data::Struct(f) => check_fields(f, n_params),
        Data::Enum(v) => check_variant_list(v, n_params),
        Data::Union(v) => check_field_list(v, n_params),
    }
}

/// Computes the size a reference denotes, `None` exactly when that size
/// exceeds `usize::MAX`. A parameter index with no supplied bound counts as
/// zero, as in [`type_ref_size`]; the public entry points reject such
/// shapes first.
pub fn checked_type_ref_size(t: &TypeRef, params: &Vec<usize>) -> (r: Option<usize>)
    ensures
        r is Some <==> type_ref_size(*t, params@) <= usize::MAX,
        r matches Some(v) ==> v == type_ref_size(*t, params@),
    decreases *t,
{
    match t {
        TypeRef::Leaf(k) => Some(leaf_max_size(*k)),
        TypeRef::Param(i) => {
            if *i < params.len() {
                Some(params[*i])
            } else {
                Some(0)
            }
        },
        TypeRef::Optional(inner) => {
            match checked_type_ref_size(inner, params) {
                Some(v) => v.checked_add(1),
                None => None,
            }
        },
        TypeRef::Array(n, elem) => {
            if *n == 0 {
                proof {
                    assert((*n as nat) * type_ref_size(**elem, params@) == 0)
                        by (nonlinear_arith)
                        requires
                            *n == 0,
                    ;
                }
                Some(0)
            } else {
                proof {
                    assert(type_ref_size(**elem, params@) <= (*n as nat) * type_ref_size(
                        **elem,
                        params@,
                    )) by (nonlinear_arith)
                        requires
                            *n >= 1,
                    ;
                }
                match checked_type_ref_size(elem, params) {
                    Some(v) => n.checked_mul(v),
                    None => None,
                }
            }
        },
        TypeRef::BoundedVec(n, elem) => {
            if *n == 0 {
                proof {
                    assert((*n as nat) * type_ref_size(**elem, params@) == 0)
                        by (nonlinear_arith)
                        requires
                            *n == 0,
                    ;
                }
                Some(4)
            } else {
                proof {
                    assert(type_ref_size(**elem, params@) <= (*n as nat) * type_ref_size(
                        **elem,
                        params@,
                    )) by (nonlinear_arith)
                        requires
                            *n >= 1,
                    ;
                }
                match checked_type_ref_size(elem, params) {
                    Some(v) => match n.checked_mul(v) {
                        Some(p) => p.checked_add(4),
                        None => None,
                    },
                    None => None,
                }
            }
        },
        TypeRef::Aggregate(d) => checked_data_size(d, params),
    }
}

/// Sums the sizes of a field list, in declaration order, `None` exactly
/// when the sum exceeds `usize::MAX`.
pub fn checked_field_list_size(v: &Vec<Field>, params: &Vec<usize>) -> (r: Option<usize>)
    ensures
        r is Some <==> field_list_size(v@, params@) <= usize::MAX,
        r matches Some(s) ==> s == field_list_size(v@, params@),
    decreases v@,
{
    let mut sum: usize = 0;
    let mut j: usize = 0;
    while j < v.len()
        invariant
            j <= v@.len(),
            sum == field_list_size(v@.take(j as int), params@),
        decreases v@.len() - j,
    {
        proof {
            lemma_field_list_size_take_step(v@, j as int, params@);
            lemma_field_list_size_take_le(v@, j as int + 1, params@);
        }
        match checked_type_ref_size(&v[j].ty, params) {
            Some(s) => {
                match sum.checked_add(s) {
                    Some(t) => {
                        sum = t;
                    },
                    None => {
                        return None;
                    },
                }
            },
            None => {
                return None;
            },
        }
        j = j + 1;
    }
    proof {
        assert(v@.take(v@.len() as int) =~= v@);
    }
    Some(sum)
}

/// Computes the size of a struct-shaped field list: the sum of its field
/// sizes, zero when there are no fields; `None` exactly on arithmetic
/// overflow of the sum.
pub fn checked_fields_size(f: &Fields, params: &Vec<usize>) -> (r: Option<usize>)
    ensures
        r is Some <==> fields_size(*f, params@) <= usize::MAX,
        r matches Some(s) ==> s == fields_size(*f, params@),
    decreases *f,
{
    match f {
        Fields::Named(v) => checked_field_list_size(v, params),
        Fields::Unnamed(v) => checked_field_list_size(v, params),
        Fields::Unit => Some(0),
    }
}

/// Takes the maximum over the sizes of a variant list, `None` exactly when
/// some variant's size exceeds `usize::MAX`.
pub fn checked_variant_list_max(v: &Vec<Variant>, params: &Vec<usize>) -> (r: Option<usize>)
    ensures
        r is Some <==> variant_list_max(v@, params@) <= usize::MAX,
        r matches Some(m) ==> m == variant_list_max(v@, params@),
    decreases v@,
{
    let mut m: usize = 0;
    let mut j: usize = 0;
    while j < v.len()
        invariant
            j <= v@.len(),
            m == variant_list_max(v@.take(j as int), params@),
        decreases v@.len() - j,
    {
        proof {
            lemma_variant_list_max_take_step(v@, j as int, params@);
            lemma_variant_list_max_take_le(v@, j as int + 1, params@);
        }
        match checked_fields_size(&v[j].fields, params) {
            Some(s) => {
                if s > m {
                    m = s;
                }
            },
            None => {
                return None;
            },
        }
        j = j + 1;
    }
    proof {
        assert(v@.take(v@.len() as int) =~= v@);
    }
    Some(m)
}

/// Takes the maximum over the sizes of a union's alternative list, `None`
/// exactly when some alternative's size exceeds `usize::MAX`.
pub fn checked_union_list_max(v: &Vec<Field>, params: &Vec<usize>) -> (r: Option<usize>)
    ensures
        r is Some <==> union_list_max(v@, params@) <= usize::MAX,
        r matches Some(m) ==> m == union_list_max(v@, params@),
    decreases v@,
{
    let mut m: usize = 0;
    let mut j: usize = 0;
    while j < v.len()
        invariant
            j <= v@.len(),
            m == union_list_max(v@.take(j as int), params@),
        decreases v@.len() - j,
    {
        proof {
            lemma_union_list_max_take_step(v@, j as int, params@);
            lemma_union_list_max_take_le(v@, j as int + 1, params@);
        }
        match checked_type_ref_size(&v[j].ty, params) {
            Some(s) => {
                if s > m {
                    m = s;
                }
            },
            None => {
                return None;
            },
        }
        j = j + 1;
    }
    proof {
        assert(v@.take(v@.len() as int) =~= v@);
    }
    Some(m)
}

/// Computes the size of an aggregate shape, `None` exactly when that size
/// exceeds `usize::MAX`.
pub fn checked_data_size(d: &Data, params: &Vec<usize>) -> (r: Option<usize>)
    ensures
        r is Some <==> data_size(*d, params@) <= usize::MAX,
        r matches Some(s) ==> s == data_size(*d, params@),
    decreases *d,
{
    match d {
        Data::Struct(f) => checked_fields_size(f, params),
        Data::Enum(v) => checked_variant_list_max(v, params),
        Data::Union(v) => checked_union_list_max(v, params),
    }
}

/// Derives the maximum serialized size of the aggregate type a shape
/// describes, given the size bound of each of its type parameters.
///
/// Succeeds exactly when every referenced parameter index has a supplied
/// bound; otherwise reports the offending index. For a struct the result is
/// the sum of the field sizes, for an enum the maximum over the variants,
/// for a union the maximum over the alternatives.
pub fn overall_max_size(data: &Data, params: &Vec<usize>) -> (r: Result<usize, SizeError>)
    requires
        data_size(*data, params@) <= usize::MAX,
    ensures
        r is Ok <==> data_wf(*data, params@.len() as nat),
        r matches Ok(v) ==> v == data_size(*data, params@),
        r matches Err(SizeError::MissingCapability { param }) ==> params@.len() <= param
            && data_mentions(*data, param as nat),
{
    match check_data(data, params.len()) {
        Ok(()) => {
            match checked_data_size(data, params) {
                Some(v) => Ok(v),
                None => {
                    proof {
                        assert(false);
                    }
                    Ok(0)
                },
            }
        },
        Err(e) => Err(e),
    }
}

/// Derives the size as [`overall_max_size`] does, for any shape at all:
/// `None` exactly when the size itself exceeds `usize::MAX`, so that no
/// caller needs to rule that out beforehand.
pub fn try_overall_max_size(data: &Data, params: &Vec<usize>) -> (r: Option<
    Result<usize, SizeError>,
>)
    ensures
        r is None <==> data_wf(*data, params@.len() as nat) && data_size(*data, params@)
            > usize::MAX,
        r matches Some(q) ==> (q is Ok <==> data_wf(*data, params@.len() as nat)),
        r matches Some(Ok(v)) ==> v == data_size(*data, params@),
        r matches Some(Err(SizeError::MissingCapability { param })) ==> params@.len() <= param
            && data_mentions(*data, param as nat),
{
    match check_data(data, params.len()) {
        Ok(()) => {
            match checked_data_size(data, params) {
                Some(v) => Some(Ok(v)),
                None => None,
            }
        },
        Err(e) => Some(Err(e)),
    }
}

/// Derives the size of one struct-shaped field list, as it contributes to a
/// struct or to one enum variant: the sum of the field sizes, in declared
/// order, zero for a unit shape.
///
/// Succeeds exactly when every referenced parameter index has a supplied
/// bound; otherwise reports the offending index.
pub fn size_of_fields(fields: &Fields, params: &Vec<usize>) -> (r: Result<usize, SizeError>)
    requires
        fields_size(*fields, params@) <= usize::MAX,
    ensures
        r is Ok <==> fields_wf(*fields, params@.len() as nat),
        r matches Ok(v) ==> v == fields_size(*fields, params@),
        r matches Err(SizeError::MissingCapability { param }) ==> params@.len() <= param
            && fields_mentions(*fields, param as nat),
{
    match check_fields(fields, params.len()) {
        Ok(()) => {
            match checked_fields_size(fields, params) {
                Some(v) => Ok(v),
                None => {
                    proof {
                        assert(false);
                    }
                    Ok(0)
                },
            }
        },
        Err(e) => Err(e),
    }
}

} // verus!
