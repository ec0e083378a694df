//! The size registry: the fixed table of base-case sizes for the leaf types
//! that the shape model supports out of the box.

use vstd::prelude::*;

verus! {

/// A leaf type: one whose maximum serialized size is supplied directly by
/// the registry table rather than derived from a shape.
#[derive(Clone, Copy, Debug, PartialEq, Eq, Structural)]
pub enum LeafKind {
    /// Boolean, one byte.
    Bool,
    /// Unsigned 8-bit integer.
    U8,
    /// Unsigned 16-bit integer.
    U16,
    /// Unsigned 32-bit integer.
    U32,
    /// Unsigned 64-bit integer.
    U64,
    /// Unsigned 128-bit integer.
    U128,
    /// Signed 8-bit integer.
    I8,
    /// Signed 16-bit integer.
    I16,
    /// Signed 32-bit integer.
    I32,
    /// Signed 64-bit integer.
    I64,
    /// Signed 128-bit integer.
    I128,
    /// 32-bit floating-point number, four bytes on the wire.
    F32,
    /// 64-bit floating-point number, eight bytes on the wire.
    F64,
    /// The empty/unit type, zero bytes.
    Unit,
    /// A single Unicode scalar value, at most four bytes.
    Char,
}

/// The registry table: the maximum serialized size, in bytes, of each leaf
/// type.
pub open spec fn leaf_size(k: LeafKind) -> nat {
    match k {
        LeafKind::Bool => 1,
        LeafKind::U8 => 1,
        LeafKind::U16 => 2,
        LeafKind::U32 => 4,
        LeafKind::U64 => 8,
        LeafKind::U128 => 16,
        LeafKind::I8 => 1,
        LeafKind::I16 => 2,
        LeafKind::I32 => 4,
        LeafKind::I64 => 8,
        LeafKind::I128 => 16,
        LeafKind::F32 => 4,
        LeafKind::F64 => 8,
        LeafKind::Unit => 0,
        LeafKind::Char => 4,
    }
}

/// Looks a leaf type up in the registry table. Always succeeds, has no side
/// effects, and returns the same value on every query.
pub fn leaf_max_size(k: LeafKind) -> (r: usize)
    ensures
        r == leaf_size(k),
{
    match k {
        LeafKind::Bool => 1,
        LeafKind::U8 => 1,
        LeafKind::U16 => 2,
        LeafKind::U32 => 4,
        LeafKind::U64 => 8,
        LeafKind::U128 => 16,
        LeafKind::I8 => 1,
        LeafKind::I16 => 2,
        LeafKind::I32 => 4,
        LeafKind::I64 => 8,
        LeafKind::I128 => 16,
        LeafKind::F32 => 4,
        LeafKind::F64 => 8,
        LeafKind::Unit => 0,
        LeafKind::Char => 4,
    }
}

} // verus!
