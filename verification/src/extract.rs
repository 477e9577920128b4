//! Helper utilities for extracting data from proofs: conversions between
//! booleans and single bits.

use vstd::prelude::*;

verus! {

/// Converts a boolean to a bit.
pub fn bit(b: bool) -> (r: u64)
    ensures
        r == if b {
            1u64
        } else {
            0u64
        },
{
    if b {
        1
    } else {
        0
    }
}

/// Converts a bit to a boolean.
pub fn bitv(b: u64) -> (r: bool)
    ensures
        r == (b != 0),
{
    b != 0
}

} // verus!
