//! Maximum serialized size of a data type.
//!
//! The [`MaxSize`] trait lets a type report an upper bound, in bytes, on the
//! serialized encoding of any of its values. Implementations for the
//! primitive leaf types are provided here; aggregate types are covered by the
//! shape model in [`shape`], which computes the bound structurally
//! (sum over struct fields, maximum over enum variants or union
//! alternatives). The base-case table itself lives in [`registry`].

use vstd::prelude::*;

pub mod registry;
pub mod shape;
pub mod laws;

verus! {

/// A type that can report the maximum number of bytes any of its values
/// occupies when serialized.
pub trait MaxSize {
    /// The bound as a mathematical integer, for use in contracts.
    spec fn spec_max_size() -> nat;

    /// The bound as a machine integer.
    fn max_size() -> (r: usize)
        requires
            Self::spec_max_size() <= usize::MAX,
        ensures
            r == Self::spec_max_size(),
    ;
}

/// An optional value is encoded as a one-byte presence flag followed, in the
/// worst case, by a full payload.
impl<T: MaxSize> MaxSize for Option<T> {
    open spec fn spec_max_size() -> nat {
        1 + T::spec_max_size()
    }

    fn max_size() -> (r: usize) {
        1 + T::max_size()
    }
}

impl MaxSize for bool {
    open spec fn spec_max_size() -> nat {
        1
    }

    fn max_size() -> (r: usize) {
        1
    }
}

impl MaxSize for u8 {
    open spec fn spec_max_size() -> nat {
        1
    }

    fn max_size() -> (r: usize) {
        1
    }
}

impl MaxSize for u16 {
    open spec fn spec_max_size() -> nat {
        2
    }

    fn max_size() -> (r: usize) {
        2
    }
}

impl MaxSize for u32 {
    open spec fn spec_max_size() -> nat {
        4
    }

    fn max_size() -> (r: usize) {
        4
    }
}

impl MaxSize for u64 {
    open spec fn spec_max_size() -> nat {
        8
    }

    fn max_size() -> (r: usize) {
        8
    }
}

impl MaxSize for u128 {
    open spec fn spec_max_size() -> nat {
        16
    }

    fn max_size() -> (r: usize) {
        16
    }
}

impl MaxSize for i8 {
    open spec fn spec_max_size() -> nat {
        1
    }

    fn max_size() -> (r: usize) {
        1
    }
}

impl MaxSize for i16 {
    open spec fn spec_max_size() -> nat {
        2
    }

    fn max_size() -> (r: usize) {
        2
    }
}

impl MaxSize for i32 {
    open spec fn spec_max_size() -> nat {
        4
    }

    fn max_size() -> (r: usize) {
        4
    }
}

impl MaxSize for i64 {
    open spec fn spec_max_size() -> nat {
        8
    }

    fn max_size() -> (r: usize) {
        8
    }
}

impl MaxSize for i128 {
    open spec fn spec_max_size() -> nat {
        16
    }

    fn max_size() -> (r: usize) {
        16
    }
}

/// The unit type carries no data and occupies no bytes.
impl MaxSize for () {
    open spec fn spec_max_size() -> nat {
        0
    }

    fn max_size() -> (r: usize) {
        0
    }
}

/// A Unicode scalar value is at most four bytes.
impl MaxSize for char {
    open spec fn spec_max_size() -> nat {
        4
    }

    fn max_size() -> (r: usize) {
        4
    }
}

/// A fixed-size array holds exactly `N` elements, each at its own bound.
impl<T: MaxSize, const N: usize> MaxSize for [T; N] {
    open spec fn spec_max_size() -> nat {
        (N as nat) * T::spec_max_size()
    }

    fn max_size() -> (r: usize) {
        if N == 0 {
            0
        } else {
            proof {
                assert(T::spec_max_size() <= (N as nat) * T::spec_max_size())
                    by (nonlinear_arith)
                    requires
                        N >= 1,
                ;
            }
            N * T::max_size()
        }
    }
}

/// Declares `arrayvec::ArrayVec` so that the bounded-vector implementation
/// below can name it; nothing about its contents is assumed.
#[verifier::external_type_specification]
#[verifier::external_body]
#[verifier::reject_recursive_types(T)]
pub struct ExArrayVec<T, const CAP: usize>(arrayvec::ArrayVec<T, CAP>);

/// A bounded dynamic vector of capacity `CAP` is encoded as a four-byte
/// length followed, in the worst case, by `CAP` full elements.
impl<T: MaxSize, const CAP: usize> MaxSize for arrayvec::ArrayVec<T, CAP> {
    open spec fn spec_max_size() -> nat {
        4 + (CAP as nat) * T::spec_max_size()
    }

    fn max_size() -> (r: usize) {
        if CAP == 0 {
            4
        } else {
            proof {
                assert(T::spec_max_size() <= (CAP as nat) * T::spec_max_size())
                    by (nonlinear_arith)
                    requires
                        CAP >= 1,
                ;
            }
            4 + CAP * T::max_size()
        }
    }
}

} // verus!
