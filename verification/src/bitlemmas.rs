//! Small facts about the bitwise operations on 64-bit words that the rest
//! of the crate re-associates and simplifies with.

use vstd::prelude::*;

verus! {

/// Bitwise AND is associative.
pub broadcast proof fn lemma_and_assoc(x: u64, y: u64, z: u64)
    by (bit_vector)
    ensures
        #[trigger] ((x & y) & z) == x & (y & z),
{
}

/// Bitwise OR is associative.
pub broadcast proof fn lemma_or_assoc(x: u64, y: u64, z: u64)
    by (bit_vector)
    ensures
        #[trigger] ((x | y) | z) == x | (y | z),
{
}

/// The all-ones word is a unit of AND, and the all-zeros word absorbs it.
pub proof fn lemma_and_units(m: u64)
    by (bit_vector)
    ensures
        (0xffff_ffff_ffff_ffffu64 & m) == m,
        (m & 0xffff_ffff_ffff_ffffu64) == m,
        (0u64 & m) == 0u64,
        (m & 0u64) == 0u64,
{
}

} // verus!
