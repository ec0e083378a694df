//! The aggregate size derivation, exercised through shape descriptions.

use borsh_max_size::registry::LeafKind;
use borsh_max_size::shape::{
    check_data, overall_max_size, size_of_fields, try_overall_max_size, Data, Field, Fields,
    SizeError, TypeRef, Variant,
};

fn leaf_field(k: LeafKind) -> Field {
    Field {
        ty: TypeRef::Leaf(k),
    }
}

/// The shape of a struct with two 32-bit integer fields: 8 bytes.
fn foo8() -> Data {
    Data::Struct(Fields::Named(vec![
        leaf_field(LeafKind::I32),
        leaf_field(LeafKind::I32),
    ]))
}

/// The shape of a struct with one 32-bit integer field: 4 bytes.
fn foo4() -> Data {
    Data::Struct(Fields::Named(vec![leaf_field(LeafKind::I32)]))
}

fn no_params() -> Vec<usize> {
    Vec::new()
}

#[test]
fn test_struct_derive() {
    assert_eq!(overall_max_size(&foo8(), &no_params()), Ok(8));
    assert_eq!(overall_max_size(&foo4(), &no_params()), Ok(4));
}

#[test]
fn test_enum_derive() {
    let foos = Data::Enum(vec![
        Variant {
            fields: Fields::Unnamed(vec![Field {
                ty: TypeRef::Aggregate(Box::new(foo8())),
            }]),
        },
        Variant {
            fields: Fields::Unnamed(vec![Field {
                ty: TypeRef::Aggregate(Box::new(foo4())),
            }]),
        },
    ]);
    assert_eq!(overall_max_size(&foos, &no_params()), Ok(8));
}

#[test]
fn test_union_derive() {
    let foo_union = Data::Union(vec![
        Field {
            ty: TypeRef::Aggregate(Box::new(foo8())),
        },
        Field {
            ty: TypeRef::Aggregate(Box::new(foo4())),
        },
    ]);
    assert_eq!(overall_max_size(&foo_union, &no_params()), Ok(8));
}

#[test]
fn struct_with_no_fields_has_size_zero() {
    assert_eq!(
        overall_max_size(&Data::Struct(Fields::Named(Vec::new())), &no_params()),
        Ok(0)
    );
    assert_eq!(
        overall_max_size(&Data::Struct(Fields::Unit), &no_params()),
        Ok(0)
    );
}

#[test]
fn enum_with_no_variants_has_size_zero() {
    assert_eq!(
        overall_max_size(&Data::Enum(Vec::new()), &no_params()),
        Ok(0)
    );
}

#[test]
fn union_with_no_alternatives_has_size_zero() {
    assert_eq!(
        overall_max_size(&Data::Union(Vec::new()), &no_params()),
        Ok(0)
    );
}

#[test]
fn tuple_like_fields_sum_by_position() {
    let pair = Data::Struct(Fields::Unnamed(vec![
        leaf_field(LeafKind::U16),
        leaf_field(LeafKind::U64),
    ]));
    assert_eq!(overall_max_size(&pair, &no_params()), Ok(10));
}

#[test]
fn enum_mixes_unit_and_struct_variants() {
    let shape = Data::Enum(vec![
        Variant {
            fields: Fields::Unit,
        },
        Variant {
            fields: Fields::Named(vec![leaf_field(LeafKind::U32), leaf_field(LeafKind::Bool)]),
        },
        Variant {
            fields: Fields::Unnamed(vec![leaf_field(LeafKind::U16)]),
        },
    ]);
    assert_eq!(overall_max_size(&shape, &no_params()), Ok(5));
}

#[test]
fn nested_struct_contributes_its_own_derived_size() {
    let outer = Data::Struct(Fields::Named(vec![
        Field {
            ty: TypeRef::Aggregate(Box::new(foo8())),
        },
        leaf_field(LeafKind::U16),
    ]));
    assert_eq!(overall_max_size(&outer, &no_params()), Ok(10));
}

#[test]
fn optional_adds_one_flag_byte() {
    let shape = Data::Struct(Fields::Named(vec![Field {
        ty: TypeRef::Optional(Box::new(TypeRef::Leaf(LeafKind::U8))),
    }]));
    assert_eq!(overall_max_size(&shape, &no_params()), Ok(2));
}

#[test]
fn array_multiplies_element_size() {
    let shape = Data::Struct(Fields::Named(vec![Field {
        ty: TypeRef::Array(5, Box::new(TypeRef::Leaf(LeafKind::U32))),
    }]));
    assert_eq!(overall_max_size(&shape, &no_params()), Ok(20));
}

#[test]
fn array_of_zero_elements_has_size_zero() {
    let shape = Data::Struct(Fields::Named(vec![Field {
        ty: TypeRef::Array(0, Box::new(TypeRef::Leaf(LeafKind::U64))),
    }]));
    assert_eq!(overall_max_size(&shape, &no_params()), Ok(0));
}

#[test]
fn bounded_vec_adds_length_prefix() {
    let shape = Data::Struct(Fields::Named(vec![Field {
        ty: TypeRef::BoundedVec(10, Box::new(TypeRef::Leaf(LeafKind::U8))),
    }]));
    assert_eq!(overall_max_size(&shape, &no_params()), Ok(14));
}

#[test]
fn nested_optional_array_composes() {
    let shape = Data::Struct(Fields::Named(vec![Field {
        ty: TypeRef::Optional(Box::new(TypeRef::Array(
            3,
            Box::new(TypeRef::Leaf(LeafKind::U16)),
        ))),
    }]));
    assert_eq!(overall_max_size(&shape, &no_params()), Ok(7));
}

#[test]
fn type_parameter_uses_supplied_bound() {
    let shape = Data::Struct(Fields::Named(vec![
        Field {
            ty: TypeRef::Param(0),
        },
        leaf_field(LeafKind::U8),
    ]));
    assert_eq!(overall_max_size(&shape, &vec![7]), Ok(8));
    assert_eq!(overall_max_size(&shape, &vec![0]), Ok(1));
}

#[test]
fn missing_parameter_bound_is_reported() {
    let shape = Data::Struct(Fields::Named(vec![Field {
        ty: TypeRef::Param(2),
    }]));
    assert_eq!(
        overall_max_size(&shape, &vec![9]),
        Err(SizeError::MissingCapability { param: 2 })
    );
    assert_eq!(
        check_data(&shape, 1),
        Err(SizeError::MissingCapability { param: 2 })
    );
    assert_eq!(check_data(&shape, 3), Ok(()));
}

#[test]
fn missing_parameter_deep_in_an_enum_is_reported() {
    let shape = Data::Enum(vec![
        Variant {
            fields: Fields::Unit,
        },
        Variant {
            fields: Fields::Unnamed(vec![Field {
                ty: TypeRef::Optional(Box::new(TypeRef::Param(5))),
            }]),
        },
    ]);
    assert_eq!(
        overall_max_size(&shape, &no_params()),
        Err(SizeError::MissingCapability { param: 5 })
    );
}

#[test]
fn size_of_fields_sums_a_variant_field_list() {
    let fields = Fields::Named(vec![leaf_field(LeafKind::U32), leaf_field(LeafKind::U128)]);
    assert_eq!(size_of_fields(&fields, &no_params()), Ok(20));
    assert_eq!(size_of_fields(&Fields::Unit, &no_params()), Ok(0));
}

#[test]
fn size_beyond_machine_limit_is_detected() {
    let huge = Data::Struct(Fields::Named(vec![Field {
        ty: TypeRef::Array(usize::MAX, Box::new(TypeRef::Leaf(LeafKind::U128))),
    }]));
    assert_eq!(try_overall_max_size(&huge, &no_params()), None);
    assert_eq!(try_overall_max_size(&foo8(), &no_params()), Some(Ok(8)));
    assert_eq!(
        try_overall_max_size(&Data::Struct(Fields::Named(vec![Field {
            ty: TypeRef::Param(0),
        }])), &no_params()),
        Some(Err(SizeError::MissingCapability { param: 0 }))
    );
}

#[test]
fn derivation_is_idempotent() {
    let shape = foo8();
    let first = overall_max_size(&shape, &no_params());
    let second = overall_max_size(&shape, &no_params());
    assert_eq!(first, Ok(8));
    assert_eq!(first, second);
}
