//! In-place byte-order conversion.
//!
//! The [`SwapBytes`] trait is the single runtime contract: reverse the byte
//! ordering of a value in place. Implementations are provided for the
//! integer primitives, `bool` and the unit type, and helper functions extend
//! the same operation elementwise over vectors and arrays. The `derivation`
//! module holds the compile-time side: a pure function from a structural
//! description of a struct or enum to the plan of an implementation of the
//! trait, honouring per-field skip markers and an enum's representation type.

use vstd::prelude::*;

pub mod derivation;
pub mod derived;
pub mod scalars;
pub mod sequences;

verus! {

/// Types whose byte ordering can be reversed in place.
///
/// `swapped` is the mathematical byte-order reversal of a value; the single
/// runtime operation `swap_bytes_mut` replaces a value by its `swapped`
/// image. Every implementation must prove that `swapped` is an involution,
/// so swapping any value twice restores it exactly.
pub trait SwapBytes: Sized {
    /// The byte-order-reversed image of `self`.
    spec fn swapped(self) -> Self;

    /// Byte-order reversal undoes itself.
    proof fn lemma_swapped_involutive(v: Self)
        ensures
            v.swapped().swapped() == v,
    ;

    /// Swaps the byte ordering of a value in-place.
    fn swap_bytes_mut(&mut self)
        ensures
            *final(self) == (*old(self)).swapped(),
    ;
}

/// Involution, stated once for every implementing type: applying the
/// byte-order reversal twice yields the original value.
pub proof fn lemma_swap_bytes_involutive<T: SwapBytes>(v: T)
    ensures
        v.swapped().swapped() == v,
{
    T::lemma_swapped_involutive(v);
}

} // verus!
