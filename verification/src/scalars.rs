//! Byte-order reversal for the scalar primitives.
//!
//! Each width has a spec-level reversal function written with shifts and
//! masks, an executable counterpart, and two lemmas: the reversal is an
//! involution, and it reverses the value's little-endian byte sequence,
//! which is what "swapping the bytes" means.

use crate::SwapBytes;
use vstd::prelude::*;

verus! {

/// Byte-order reversal of a 16-bit value.
pub open spec fn spec_swap16(v: u16) -> u16 {
    (v << 8) | (v >> 8)
}

/// Byte-order reversal of a 32-bit value.
pub open spec fn spec_swap32(v: u32) -> u32 {
    (v << 24) | ((v & 0xff00) << 8) | ((v >> 8) & 0xff00) | (v >> 24)
}

/// Byte-order reversal of a 64-bit value.
pub open spec fn spec_swap64(v: u64) -> u64 {
    (v << 56) | ((v & 0xff00) << 40) | ((v & 0xff0000) << 24) | ((v & 0xff000000) << 8)
        | ((v >> 8) & 0xff000000) | ((v >> 24) & 0xff0000) | ((v >> 40) & 0xff00) | (v >> 56)
}

/// The little-endian byte sequence of a 16-bit value.
pub open spec fn le_bytes16(v: u16) -> Seq<u8> {
    seq![(v & 0xff) as u8, ((v >> 8) & 0xff) as u8]
}

/// The little-endian byte sequence of a 32-bit value.
pub open spec fn le_bytes32(v: u32) -> Seq<u8> {
    seq![
        (v & 0xff) as u8,
        ((v >> 8) & 0xff) as u8,
        ((v >> 16) & 0xff) as u8,
        ((v >> 24) & 0xff) as u8,
    ]
}

/// The little-endian byte sequence of a 64-bit value.
pub open spec fn le_bytes64(v: u64) -> Seq<u8> {
    seq![
        (v & 0xff) as u8,
        ((v >> 8) & 0xff) as u8,
        ((v >> 16) & 0xff) as u8,
        ((v >> 24) & 0xff) as u8,
        ((v >> 32) & 0xff) as u8,
        ((v >> 40) & 0xff) as u8,
        ((v >> 48) & 0xff) as u8,
        ((v >> 56) & 0xff) as u8,
    ]
}

/// Swapping a 16-bit value twice restores it.
pub proof fn lemma_swap16_involutive(v: u16)
    ensures
        spec_swap16(spec_swap16(v)) == v,
{
    assert(spec_swap16(spec_swap16(v)) == v) by (bit_vector);
}

/// Swapping a 32-bit value twice restores it.
pub proof fn lemma_swap32_involutive(v: u32)
    ensures
        spec_swap32(spec_swap32(v)) == v,
{
    assert(spec_swap32(spec_swap32(v)) == v) by (bit_vector);
}

/// Swapping a 64-bit value twice restores it.
pub proof fn lemma_swap64_involutive(v: u64)
    ensures
        spec_swap64(spec_swap64(v)) == v,
{
    assert(spec_swap64(spec_swap64(v)) == v) by (bit_vector);
}

/// A swapped 16-bit value's byte sequence is the original's reversed.
pub proof fn lemma_swap16_reverses_bytes(v: u16)
    ensures
        le_bytes16(spec_swap16(v)) == le_bytes16(v).reverse(),
{
    let w = spec_swap16(v);
    assert(w & 0xff == (v >> 8) & 0xff && (w >> 8) & 0xff == v & 0xff) by (bit_vector)
        requires
            w == spec_swap16(v),
    ;
    assert(le_bytes16(w) =~= le_bytes16(v).reverse());
}

/// A swapped 32-bit value's byte sequence is the original's reversed.
pub proof fn lemma_swap32_reverses_bytes(v: u32)
    ensures
        le_bytes32(spec_swap32(v)) == le_bytes32(v).reverse(),
{
    let w = spec_swap32(v);
    assert(w & 0xff == (v >> 24) & 0xff && (w >> 8) & 0xff == (v >> 16) & 0xff && (w >> 16) & 0xff
        == (v >> 8) & 0xff && (w >> 24) & 0xff == v & 0xff) by (bit_vector)
        requires
            w == spec_swap32(v),
    ;
    assert(le_bytes32(w) =~= le_bytes32(v).reverse());
}

/// A swapped 64-bit value's byte sequence is the original's reversed.
pub proof fn lemma_swap64_reverses_bytes(v: u64)
    ensures
        le_bytes64(spec_swap64(v)) == le_bytes64(v).reverse(),
{
    let w = spec_swap64(v);
    assert(w & 0xff == (v >> 56) & 0xff && (w >> 8) & 0xff == (v >> 48) & 0xff && (w >> 16) & 0xff
        == (v >> 40) & 0xff && (w >> 24) & 0xff == (v >> 32) & 0xff && (w >> 32) & 0xff == (v >> 24)
        & 0xff && (w >> 40) & 0xff == (v >> 16) & 0xff && (w >> 48) & 0xff == (v >> 8) & 0xff && (w
        >> 56) & 0xff == v & 0xff) by (bit_vector)
        requires
            w == spec_swap64(v),
    ;
    assert(le_bytes64(w) =~= le_bytes64(v).reverse());
}

/// Reverses the byte ordering of a 16-bit value.
pub fn swap16(v: u16) -> (r: u16)
    ensures
        r == spec_swap16(v),
{
    (v << 8u16) | (v >> 8u16)
}

/// Reverses the byte ordering of a 32-bit value.
pub fn swap32(v: u32) -> (r: u32)
    ensures
        r == spec_swap32(v),
{
    (v << 24u32) | ((v & 0xff00) << 8u32) | ((v >> 8u32) & 0xff00) | (v >> 24u32)
}

/// Reverses the byte ordering of a 64-bit value.
pub fn swap64(v: u64) -> (r: u64)
    ensures
        r == spec_swap64(v),
{
    (v << 56u64) | ((v & 0xff00) << 40u64) | ((v & 0xff0000) << 24u64) | ((v & 0xff000000)
        << 8u64) | ((v >> 8u64) & 0xff000000) | ((v >> 24u64) & 0xff0000) | ((v >> 40u64) & 0xff00)
        | (v >> 56u64)
}

/// Byte-order reversal of a 16-bit signed value: the bit pattern is
/// reversed exactly as for the unsigned type of the same width.
pub open spec fn spec_swap_i16(v: i16) -> i16 {
    spec_swap16(v as u16) as i16
}

/// Byte-order reversal of a 32-bit signed value.
pub open spec fn spec_swap_i32(v: i32) -> i32 {
    spec_swap32(v as u32) as i32
}

/// Byte-order reversal of a 64-bit signed value.
pub open spec fn spec_swap_i64(v: i64) -> i64 {
    spec_swap64(v as u64) as i64
}

/// Byte-order reversal of a platform-width unsigned value: the reversal of
/// whichever fixed width the platform gives `usize`.
pub open spec fn spec_swap_usize(v: usize) -> usize {
    if usize::BITS == 32 {
        spec_swap32(v as u32) as usize
    } else {
        spec_swap64(v as u64) as usize
    }
}

/// Byte-order reversal of a platform-width signed value.
pub open spec fn spec_swap_isize(v: isize) -> isize {
    spec_swap_usize(v as usize) as isize
}

/// Swapping a 16-bit signed value twice restores it.
pub proof fn lemma_swap_i16_involutive(v: i16)
    ensures
        spec_swap_i16(spec_swap_i16(v)) == v,
{
    assert(spec_swap16(spec_swap16(v as u16) as i16 as u16) as i16 == v) by (bit_vector);
}

/// Swapping a 32-bit signed value twice restores it.
pub proof fn lemma_swap_i32_involutive(v: i32)
    ensures
        spec_swap_i32(spec_swap_i32(v)) == v,
{
    assert(spec_swap32(spec_swap32(v as u32) as i32 as u32) as i32 == v) by (bit_vector);
}

/// Swapping a 64-bit signed value twice restores it.
pub proof fn lemma_swap_i64_involutive(v: i64)
    ensures
        spec_swap_i64(spec_swap_i64(v)) == v,
{
    assert(spec_swap64(spec_swap64(v as u64) as i64 as u64) as i64 == v) by (bit_vector);
}

/// Swapping a platform-width unsigned value twice restores it.
pub proof fn lemma_swap_usize_involutive(v: usize)
    ensures
        spec_swap_usize(spec_swap_usize(v)) == v,
{
    if usize::BITS == 32 {
        assert(spec_swap32(spec_swap32(v as u32) as usize as u32) as usize == v) by (bit_vector)
            requires
                usize::BITS == 32,
        ;
    } else {
        assert(spec_swap64(spec_swap64(v as u64) as usize as u64) as usize == v) by (bit_vector)
            requires
                usize::BITS == 64,
        ;
    }
}

/// Swapping a platform-width signed value twice restores it.
pub proof fn lemma_swap_isize_involutive(v: isize)
    ensures
        spec_swap_isize(spec_swap_isize(v)) == v,
{
    let x = spec_swap_usize(v as usize);
    assert(x as isize as usize == x) by (bit_vector);
    lemma_swap_usize_involutive(v as usize);
    assert(v as usize as isize == v) by (bit_vector);
}

/// Reverses the byte ordering of a platform-width unsigned value.
pub fn swap_usize(v: usize) -> (r: usize)
    ensures
        r == spec_swap_usize(v),
{
    if usize::BITS == 32 {
        swap32(v as u32) as usize
    } else {
        swap64(v as u64) as usize
    }
}

impl SwapBytes for u16 {
    open spec fn swapped(self) -> u16 {
        spec_swap16(self)
    }

    proof fn lemma_swapped_involutive(v: u16) {
        lemma_swap16_involutive(v);
    }

    fn swap_bytes_mut(&mut self) {
        *self = swap16(*self);
    }
}

impl SwapBytes for u32 {
    open spec fn swapped(self) -> u32 {
        spec_swap32(self)
    }

    proof fn lemma_swapped_involutive(v: u32) {
        lemma_swap32_involutive(v);
    }

    fn swap_bytes_mut(&mut self) {
        *self = swap32(*self);
    }
}

impl SwapBytes for u64 {
    open spec fn swapped(self) -> u64 {
        spec_swap64(self)
    }

    proof fn lemma_swapped_involutive(v: u64) {
        lemma_swap64_involutive(v);
    }

    fn swap_bytes_mut(&mut self) {
        *self = swap64(*self);
    }
}

impl SwapBytes for i16 {
    open spec fn swapped(self) -> i16 {
        spec_swap_i16(self)
    }

    proof fn lemma_swapped_involutive(v: i16) {
        lemma_swap_i16_involutive(v);
    }

    fn swap_bytes_mut(&mut self) {
        *self = swap16(*self as u16) as i16;
    }
}

impl SwapBytes for i32 {
    open spec fn swapped(self) -> i32 {
        spec_swap_i32(self)
    }

    proof fn lemma_swapped_involutive(v: i32) {
        lemma_swap_i32_involutive(v);
    }

    fn swap_bytes_mut(&mut self) {
        *self = swap32(*self as u32) as i32;
    }
}

impl SwapBytes for i64 {
    open spec fn swapped(self) -> i64 {
        spec_swap_i64(self)
    }

    proof fn lemma_swapped_involutive(v: i64) {
        lemma_swap_i64_involutive(v);
    }

    fn swap_bytes_mut(&mut self) {
        *self = swap64(*self as u64) as i64;
    }
}

impl SwapBytes for usize {
    open spec fn swapped(self) -> usize {
        spec_swap_usize(self)
    }

    proof fn lemma_swapped_involutive(v: usize) {
        lemma_swap_usize_involutive(v);
    }

    fn swap_bytes_mut(&mut self) {
        *self = swap_usize(*self);
    }
}

impl SwapBytes for isize {
    open spec fn swapped(self) -> isize {
        spec_swap_isize(self)
    }

    proof fn lemma_swapped_involutive(v: isize) {
        lemma_swap_isize_involutive(v);
    }

    fn swap_bytes_mut(&mut self) {
        *self = swap_usize(*self as usize) as isize;
    }
}

impl SwapBytes for u8 {
    /// A single byte is unchanged by byte-order reversal.
    open spec fn swapped(self) -> u8 {
        self
    }

    proof fn lemma_swapped_involutive(v: u8) {
    }

    fn swap_bytes_mut(&mut self) {
    }
}

impl SwapBytes for i8 {
    /// A single byte is unchanged by byte-order reversal.
    open spec fn swapped(self) -> i8 {
        self
    }

    proof fn lemma_swapped_involutive(v: i8) {
    }

    fn swap_bytes_mut(&mut self) {
    }
}

impl SwapBytes for bool {
    /// `bool` has a one-byte, order-independent representation: a no-op,
    /// so composite derivations need not exclude such fields by hand.
    open spec fn swapped(self) -> bool {
        self
    }

    proof fn lemma_swapped_involutive(v: bool) {
    }

    fn swap_bytes_mut(&mut self) {
    }
}

impl SwapBytes for () {
    /// The unit type is zero bytes wide: a no-op.
    open spec fn swapped(self) -> () {
        self
    }

    proof fn lemma_swapped_involutive(v: ()) {
    }

    fn swap_bytes_mut(&mut self) {
    }
}

} // verus!
