//! Elementwise byte-order reversal over contiguous sequences.
//!
//! Swapping a sequence swaps each element independently, in place and in
//! order; length and element positions are preserved, and the operation
//! inherits involution from the element type. A vector's spec-level value
//! cannot be rebuilt elementwise the way [`crate::SwapBytes::swapped`]
//! demands of an implementing type, so the sequence swaps are free
//! functions whose contracts state the same thing over the views.

use crate::SwapBytes;
use vstd::prelude::*;

verus! {

/// The elementwise byte-order reversal of a sequence.
pub open spec fn seq_swapped<T: SwapBytes>(s: Seq<T>) -> Seq<T> {
    s.map_values(|t: T| t.swapped())
}

/// Elementwise reversal keeps the length and swaps each position
/// independently.
pub proof fn lemma_seq_swapped_pointwise<T: SwapBytes>(s: Seq<T>)
    ensures
        seq_swapped(s).len() == s.len(),
        forall|i: int| 0 <= i < s.len() ==> seq_swapped(s)[i] == s[i].swapped(),
{
}

/// Elementwise byte-order reversal of a sequence undoes itself.
pub proof fn lemma_seq_swapped_involutive<T: SwapBytes>(s: Seq<T>)
    ensures
        seq_swapped(seq_swapped(s)) == s,
{
    assert forall|i: int| 0 <= i < s.len() implies seq_swapped(seq_swapped(s))[i] == s[i] by {
        T::lemma_swapped_involutive(s[i]);
    }
    assert(seq_swapped(seq_swapped(s)) =~= s);
}

/// Swaps the byte ordering of every element of a vector, in place.
pub fn swap_bytes_vec<T: SwapBytes>(v: &mut Vec<T>)
    ensures
        final(v)@ == seq_swapped(old(v)@),
{
    let n: usize = v.len();
    for i in 0..n
        invariant
            n == v@.len(),
            v@.len() == old(v)@.len(),
            forall|j: int| 0 <= j < i ==> v@[j] == old(v)@[j].swapped(),
            forall|j: int| i <= j < n ==> v@[j] == old(v)@[j],
    {
        let elem = &mut v[i];
        elem.swap_bytes_mut();
    }
    assert(v@ =~= seq_swapped(old(v)@));
}

/// Swaps the byte ordering of every element of a fixed-length array, in
/// place.
pub fn swap_bytes_array<T: SwapBytes + Copy, const N: usize>(a: &mut [T; N])
    ensures
        final(a)@ == seq_swapped(old(a)@),
{
    for i in 0..N
        invariant
            forall|j: int| 0 <= j < i ==> a@[j] == old(a)@[j].swapped(),
            forall|j: int| i <= j < N ==> a@[j] == old(a)@[j],
    {
        let mut x: T = a[i];
        x.swap_bytes_mut();
        a[i] = x;
    }
    assert(a@ =~= seq_swapped(old(a)@));
}

/// Reverses a byte buffer in place. This is the computational half of the
/// floating-point swap: reverse the value's native byte sequence, then
/// read the reversed sequence back with a fixed little-endian target.
pub fn reverse_bytes(v: &mut Vec<u8>)
    ensures
        final(v)@ == old(v)@.reverse(),
{
    let n: usize = v.len();
    for i in 0..n / 2
        invariant
            n == v@.len(),
            v@.len() == old(v)@.len(),
            forall|j: int|
                0 <= j < n ==> #[trigger] v@[j] == (if j < i || j >= n - i {
                    old(v)@[n - 1 - j]
                } else {
                    old(v)@[j]
                }),
    {
        let lo: u8 = v[i];
        let hi: u8 = v[n - 1 - i];
        v.set(i, hi);
        v.set(n - 1 - i, lo);
    }
    assert(v@ =~= old(v)@.reverse());
}

/// Reversing a byte buffer twice restores it: the swap of a
/// floating-point value, like every other swap, is an involution.
pub proof fn lemma_reverse_involutive(s: Seq<u8>)
    ensures
        s.reverse().reverse() == s,
{
    assert(s.reverse().reverse() =~= s);
}

} // verus!
