//! The registry table and the `MaxSize` implementations for leaf types.

use arrayvec::ArrayVec;
use borsh_max_size::registry::{leaf_max_size, LeafKind};
use borsh_max_size::MaxSize;

#[test]
fn registry_table_matches_the_fixed_values() {
    assert_eq!(leaf_max_size(LeafKind::Bool), 1);
    assert_eq!(leaf_max_size(LeafKind::U8), 1);
    assert_eq!(leaf_max_size(LeafKind::U16), 2);
    assert_eq!(leaf_max_size(LeafKind::U32), 4);
    assert_eq!(leaf_max_size(LeafKind::U64), 8);
    assert_eq!(leaf_max_size(LeafKind::U128), 16);
    assert_eq!(leaf_max_size(LeafKind::I8), 1);
    assert_eq!(leaf_max_size(LeafKind::I16), 2);
    assert_eq!(leaf_max_size(LeafKind::I32), 4);
    assert_eq!(leaf_max_size(LeafKind::I64), 8);
    assert_eq!(leaf_max_size(LeafKind::I128), 16);
    assert_eq!(leaf_max_size(LeafKind::F32), 4);
    assert_eq!(leaf_max_size(LeafKind::F64), 8);
    assert_eq!(leaf_max_size(LeafKind::Unit), 0);
    assert_eq!(leaf_max_size(LeafKind::Char), 4);
}

#[test]
fn registry_queries_are_idempotent() {
    assert_eq!(leaf_max_size(LeafKind::U64), leaf_max_size(LeafKind::U64));
    assert_eq!(
        <u32 as MaxSize>::max_size(),
        <u32 as MaxSize>::max_size()
    );
}

#[test]
fn primitive_impls_match_the_table() {
    assert_eq!(<bool as MaxSize>::max_size(), 1);
    assert_eq!(<u8 as MaxSize>::max_size(), 1);
    assert_eq!(<u16 as MaxSize>::max_size(), 2);
    assert_eq!(<u32 as MaxSize>::max_size(), 4);
    assert_eq!(<u64 as MaxSize>::max_size(), 8);
    assert_eq!(<u128 as MaxSize>::max_size(), 16);
    assert_eq!(<i8 as MaxSize>::max_size(), 1);
    assert_eq!(<i16 as MaxSize>::max_size(), 2);
    assert_eq!(<i32 as MaxSize>::max_size(), 4);
    assert_eq!(<i64 as MaxSize>::max_size(), 8);
    assert_eq!(<i128 as MaxSize>::max_size(), 16);
    assert_eq!(<() as MaxSize>::max_size(), 0);
    assert_eq!(<char as MaxSize>::max_size(), 4);
}

#[test]
fn option_impl_adds_one_flag_byte() {
    assert_eq!(<Option<u8> as MaxSize>::max_size(), 2);
    assert_eq!(<Option<u64> as MaxSize>::max_size(), 9);
    assert_eq!(<Option<Option<u8>> as MaxSize>::max_size(), 3);
}

#[test]
fn array_impl_multiplies_element_size() {
    assert_eq!(<[u32; 5] as MaxSize>::max_size(), 20);
    assert_eq!(<[u8; 0] as MaxSize>::max_size(), 0);
    assert_eq!(<[[u16; 2]; 3] as MaxSize>::max_size(), 12);
}

#[test]
fn array_vec_impl_adds_length_prefix() {
    assert_eq!(<ArrayVec<u8, 10> as MaxSize>::max_size(), 14);
    assert_eq!(<ArrayVec<u64, 0> as MaxSize>::max_size(), 4);
    assert_eq!(<ArrayVec<Option<u16>, 4> as MaxSize>::max_size(), 16);
}
