//! Implementations of [`SwapBytes`] as the derivation plan dictates for
//! representative composite types: every non-skipped field is swapped in
//! declaration order, skipped fields are left bit-for-bit unchanged, and
//! generic parameters pass through to the implementation unchanged.

use crate::SwapBytes;
use vstd::prelude::*;

verus! {

/// A record whose `flag` field carries the skip marker, so only `id` is
/// swapped.
pub struct Packet {
    pub id: u32,
    pub flag: bool,
}

impl SwapBytes for Packet {
    /// The swap the generator derives: `id` reversed, `flag` untouched.
    open spec fn swapped(self) -> Packet {
        Packet { id: self.id.swapped(), flag: self.flag }
    }

    proof fn lemma_swapped_involutive(v: Packet) {
        u32::lemma_swapped_involutive(v.id);
    }

    fn swap_bytes_mut(&mut self) {
        self.id.swap_bytes_mut();
    }
}

/// A record whose first field carries the skip marker while the remaining
/// two are swapped in declaration order.
pub struct Frame {
    pub a: u16,
    pub b: u32,
    pub c: u16,
}

impl SwapBytes for Frame {
    /// The swap the generator derives: `a` untouched, `b` and `c` reversed.
    open spec fn swapped(self) -> Frame {
        Frame { a: self.a, b: self.b.swapped(), c: self.c.swapped() }
    }

    proof fn lemma_swapped_involutive(v: Frame) {
        u32::lemma_swapped_involutive(v.b);
        u16::lemma_swapped_involutive(v.c);
    }

    fn swap_bytes_mut(&mut self) {
        self.b.swap_bytes_mut();
        self.c.swap_bytes_mut();
    }
}

/// A generic record with no skipped fields: derivation composes with
/// generic structs whose field types are themselves swappable.
pub struct Pair<T: SwapBytes, U: SwapBytes> {
    pub first: T,
    pub second: U,
}

impl<T: SwapBytes, U: SwapBytes> SwapBytes for Pair<T, U> {
    /// The swap the generator derives: both fields reversed, in order.
    open spec fn swapped(self) -> Pair<T, U> {
        Pair { first: self.first.swapped(), second: self.second.swapped() }
    }

    proof fn lemma_swapped_involutive(v: Pair<T, U>) {
        T::lemma_swapped_involutive(v.first);
        U::lemma_swapped_involutive(v.second);
    }

    fn swap_bytes_mut(&mut self) {
        self.first.swap_bytes_mut();
        self.second.swap_bytes_mut();
    }
}

} // verus!
