//! Facts about bitwise operations, shared by the flag sets and the
//! message box flags.

use vstd::prelude::*;

verus! {

/// A severity bit and a button layout bit occupy separate fields of the
/// message box flags, so each can be masked back out of their union.
pub(crate) proof fn lemma_disjoint_fields_u32(s: u32, b: u32)
    by (bit_vector)
    requires
        s == 0x10 || s == 0x20 || s == 0x40,
        b == 0x80 || b == 0x100,
    ensures
        (s | b) & 0x70 == s,
        (s | b) & 0x180 == b,
{
}

/// Set algebra of `u32` bit masks: a union holds both operands, is
/// symmetric, and clearing bits leaves none of them set.
pub(crate) proof fn lemma_mask_algebra_u32(a: u32, b: u32)
    by (bit_vector)
    ensures
        (a | b) & a == a,
        (a | b) & b == b,
        a | b == b | a,
        (a & !b) & b == 0,
        (a & b) & a == a & b,
        (a & b) & b == a & b,
        a & b == b & a,
        a | 0 == a,
        a & 0 == 0,
{
}

/// Set algebra of `u8` bit masks, as for `u32`.
pub(crate) proof fn lemma_mask_algebra_u8(a: u8, b: u8)
    by (bit_vector)
    ensures
        (a | b) & a == a,
        (a | b) & b == b,
        a | b == b | a,
        (a & !b) & b == 0,
        (a & b) & a == a & b,
        (a & b) & b == a & b,
        a & b == b & a,
        a | 0 == a,
        a & 0 == 0,
{
}

/// Two single-bit shader format codes share a bit exactly when they are the
/// same code.
pub(crate) proof fn lemma_single_bits_u32(a: u32, b: u32)
    by (bit_vector)
    requires
        a == 2 || a == 4 || a == 8 || a == 16 || a == 32,
        b == 2 || b == 4 || b == 8 || b == 16 || b == 32,
    ensures
        (a & b != 0) <==> a == b,
{
}

} // verus!
