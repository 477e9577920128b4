//! Counters for the two-level path-semantical sublogic.
//!
//! Propositions live on two levels: a function level and a value level.
//! An assignment is compatible when equal function-level propositions
//! force equal value-level projections.  For a formula with `m` function
//! and `n` value propositions there are `L(m,n) = 2^(m+1) + (m+1)*(2^n - 2)`
//! compatible assignments, so a tautology check compares the count to
//! that closed form instead of `2^(m+n)`.
//!
//! The fixed-arity counters evaluate the formula on hand-woven bit
//! patterns that enumerate exactly the compatible assignments, laid out
//! column-wise; the generic counter reduces to the ordinary counter by
//! enumerating the boundary function-level patterns.

use crate::bits::F;
use crate::bits::P0;
use crate::bits::P1;
use crate::bits::T;
use crate::count::arg_result;
use crate::count::axes_seq;
use crate::count::countn;
use crate::count::countn_bound;
use crate::count::countn_post;
use crate::count::ext_args;
use crate::count::mask_of;
use crate::count::sum_bitcount;
use crate::popcount::bitcount;
use vstd::arithmetic::power2::pow2;
use crate::popcount::popcount;
use vstd::prelude::*;

verus! {

// The compatible-assignment patterns for each arity, laid out column-wise:
// for arity `m + n` the words `PS<K>_F*` hold the function-level columns
// and `PS<K>_X*` the value-level columns; `PS<K>M` is the window of rows
// that the single evaluation contributes.  Arities whose enumeration does
// not fit one word use several evaluations, lettered `A`, `B`, ...
pub const PS3_F0: u64 = 0b00001111;

pub const PS3_F1: u64 = 0b00110011;

pub const PS3_X0: u64 = 0b01010101;

pub const PS3M: u64 = 0b11111111;

pub const PS4_F0: u64 = 0b00000011111111;

pub const PS4_F1: u64 = 0b00111100001111;

pub const PS4_X0: u64 = 0b01001100110011;

pub const PS4_X1: u64 = 0b01010101010101;

pub const PS4M: u64 = 0b11111111111111;

pub const PS5_F0: u64 = 0b000000000011111111111111;

pub const PS5_F1: u64 = 0b000011111100000011111111;

pub const PS5_F2: u64 = 0b001100111100111100001111;

pub const PS5_X0: u64 = 0b010101001101001100110011;

pub const PS5_X1: u64 = 0b010101010101010101010101;

pub const PS5M: u64 = 0b11111_11111_11111_11111_1111;

pub const PS6_F0: u64 = 0b0000000000000011111111111111111111111111;

pub const PS6_F1: u64 = 0b0000111111111100000000001111111111111111;

pub const PS6_F2: u64 = 0b0011001111111100111111110000000011111111;

pub const PS6_X0: u64 = 0b0101010000111101000011110000111100001111;

pub const PS6_X1: u64 = 0b0101010011001101001100110011001100110011;

pub const PS6_X2: u64 = 0b0101010101010101010101010101010101010101;

pub const PS6M: u64 = 0b11111_11111_11111_11111_11111_11111_11111_11111;

pub const PS7_F0: u64 = 0b00000000000000000000001111111111111111111111111111111111111111;

pub const PS7_F1: u64 = 0b00000000111111111111110000000000000011111111111111111111111111;

pub const PS7_F2: u64 = 0b00001111000011111111110000111111111100000000001111111111111111;

pub const PS7_F3: u64 = 0b00110011001100111111110011001111111100111111110000000011111111;

pub const PS7_X0: u64 = 0b01010101010101000011110101010000111101000011110000111100001111;

pub const PS7_X1: u64 = 0b01010101010101001100110101010011001101001100110011001100110011;

pub const PS7_X2: u64 = 0b01010101010101010101010101010101010101010101010101010101010101;

pub const PS7M: u64 = 0b11111_11111_11111_11111_11111_11111_11111_11111_11111_11111_11111_11111_11;

pub const PS8A_F0: u64 = 0b0000000000000000000000000000001111111111111111111111111111111111;

pub const PS8A_F1: u64 = 0b0000000011111111111111111111110000000000000000000000111111111111;

pub const PS8A_F2: u64 = 0b0000111100001111111111111111110000111111111111111111000000000000;

pub const PS8A_F3: u64 = 0b0011001100110011111111111111110011001111111111111111001111111111;

pub const PS8A_X0: u64 = 0b0101010101010100000000111111110101010000000011111111010000000011;

pub const PS8A_X1: u64 = 0b0101010101010100001111000011110101010000111100001111010000111100;

pub const PS8A_X2: u64 = 0b0101010101010100110011001100110101010011001100110011010011001100;

pub const PS8A_X3: u64 = 0b0101010101010101010101010101010101010101010101010101010101010101;

pub const PS8B_F0: u64 = 0b11111111111111111111111111111111111111;

pub const PS8B_F1: u64 = 0b11111111111111111111111111111111111111;

pub const PS8B_F2: u64 = 0b00000011111111111111111111111111111111;

pub const PS8B_F3: u64 = 0b11111100000000000000001111111111111111;

pub const PS8B_X0: u64 = 0b11111100000000111111110000000011111111;

pub const PS8B_X1: u64 = 0b00111100001111000011110000111100001111;

pub const PS8B_X2: u64 = 0b11001100110011001100110011001100110011;

pub const PS8B_X3: u64 = 0b01010101010101010101010101010101010101;

pub const PS8M: u64 = 0b11111_11111_11111_11111_11111_11111_11111_111;

pub const PS9A_F0: u64 = 0b0000000000000000000000000000000000000000000000111111111111111111;

pub const PS9A_F1: u64 = 0b0000000000000000111111111111111111111111111111000000000000000000;

pub const PS9A_F2: u64 = 0b0000000011111111000000001111111111111111111111000000001111111111;

pub const PS9A_F3: u64 = 0b0000111100001111000011110000111111111111111111000011110000111111;

pub const PS9A_F4: u64 = 0b0011001100110011001100110011001111111111111111001100110011001111;

pub const PS9A_X0: u64 = 0b0101010101010101010101010101010000000011111111010101010101010000;

pub const PS9A_X1: u64 = 0b0101010101010101010101010101010000111100001111010101010101010000;

pub const PS9A_X2: u64 = 0b0101010101010101010101010101010011001100110011010101010101010011;

pub const PS9A_X3: u64 = 0b0101010101010101010101010101010101010101010101010101010101010101;

pub const PS9B_F0: u64 = 0b1111111111111111111111111111111111111111111111111111111111111111;

pub const PS9B_F1: u64 = 0b0000000000001111111111111111111111111111111111111111111111111111;

pub const PS9B_F2: u64 = 0b1111111111110000000000000000000000111111111111111111111111111111;

pub const PS9B_F3: u64 = 0b1111111111110000111111111111111111000000000000000000111111111111;

pub const PS9B_F4: u64 = 0b1111111111110011001111111111111111001111111111111111000000000000;

pub const PS9B_X0: u64 = 0b0000111111110101010000000011111111010000000011111111000000001111;

pub const PS9B_X1: u64 = 0b1111000011110101010000111100001111010000111100001111000011110000;

pub const PS9B_X2: u64 = 0b0011001100110101010011001100110011010011001100110011001100110011;

pub const PS9B_X3: u64 = 0b0101010101010101010101010101010101010101010101010101010101010101;

pub const PS9C_F0: u64 = 0b11111111111111111111;

pub const PS9C_F1: u64 = 0b11111111111111111111;

pub const PS9C_F2: u64 = 0b11111111111111111111;

pub const PS9C_F3: u64 = 0b11111111111111111111;

pub const PS9C_F4: u64 = 0b00001111111111111111;

pub const PS9C_X0: u64 = 0b11110000000011111111;

pub const PS9C_X1: u64 = 0b11110000111100001111;

pub const PS9C_X2: u64 = 0b00110011001100110011;

pub const PS9C_X3: u64 = 0b01010101010101010101;

pub const PS9M: u64 = 0b11111_11111_11111_11111;

pub const PS10A_F0: u64 = 0b0000000000000000000000000000000000000000000000000000000000000011;

pub const PS10A_F1: u64 = 0b0000000000000000111111111111111111111111111111111111111111111100;

pub const PS10A_F2: u64 = 0b0000000011111111000000001111111111111111111111111111111111111100;

pub const PS10A_F3: u64 = 0b0000111100001111000011110000111111111111111111111111111111111100;

pub const PS10A_F4: u64 = 0b0011001100110011001100110011001111111111111111111111111111111100;

pub const PS10A_X0: u64 = 0b0101010101010101010101010101010000000000000000111111111111111101;

pub const PS10A_X1: u64 = 0b0101010101010101010101010101010000000011111111000000001111111101;

pub const PS10A_X2: u64 = 0b0101010101010101010101010101010000111100001111000011110000111101;

pub const PS10A_X3: u64 = 0b0101010101010101010101010101010011001100110011001100110011001101;

pub const PS10A_X4: u64 = 0b0101010101010101010101010101010101010101010101010101010101010101;

pub const PS10B_F0: u64 = 0b1111111111111111111111111111111111111111111111111111111111111111;

pub const PS10B_F1: u64 = 0b0000000000000000000000000000000000000000000011111111111111111111;

pub const PS10B_F2: u64 = 0b0000001111111111111111111111111111111111111100000000000000000000;

pub const PS10B_F3: u64 = 0b0011110000111111111111111111111111111111111100001111111111111111;

pub const PS10B_F4: u64 = 0b1100110011001111111111111111111111111111111100110011111111111111;

pub const PS10B_X0: u64 = 0b0101010101010000000000000000111111111111111101010100000000000000;

pub const PS10B_X1: u64 = 0b0101010101010000000011111111000000001111111101010100000000111111;

pub const PS10B_X2: u64 = 0b0101010101010000111100001111000011110000111101010100001111000011;

pub const PS10B_X3: u64 = 0b0101010101010011001100110011001100110011001101010100110011001100;

pub const PS10B_X4: u64 = 0b0101010101010101010101010101010101010101010101010101010101010101;

pub const PS10C_F0: u64 = 0b1111111111111111111111111111111111111111111111111111111111111111;

pub const PS10C_F1: u64 = 0b1111111111111111111111111111111111111111111111111111111111111111;

pub const PS10C_F2: u64 = 0b0000000000000000001111111111111111111111111111111111111111111111;

pub const PS10C_F3: u64 = 0b1111111111111111110000000000000000000000000000000000111111111111;

pub const PS10C_F4: u64 = 0b1111111111111111110011111111111111111111111111111111000000000000;

pub const PS10C_X0: u64 = 0b0011111111111111110100000000000000001111111111111111000000000000;

pub const PS10C_X1: u64 = 0b1100000000111111110100000000111111110000000011111111000000001111;

pub const PS10C_X2: u64 = 0b1100001111000011110100001111000011110000111100001111000011110000;

pub const PS10C_X3: u64 = 0b1100110011001100110100110011001100110011001100110011001100110011;

pub const PS10C_X4: u64 = 0b0101010101010101010101010101010101010101010101010101010101010101;

pub const PS10D_F0: u64 = 0b1111111111111111111111111111111111111111111111111111;

pub const PS10D_F1: u64 = 0b1111111111111111111111111111111111111111111111111111;

pub const PS10D_F2: u64 = 0b1111111111111111111111111111111111111111111111111111;

pub const PS10D_F3: u64 = 0b1111111111111111111111111111111111111111111111111111;

pub const PS10D_F4: u64 = 0b0000000000000000000011111111111111111111111111111111;

pub const PS10D_X0: u64 = 0b0000111111111111111100000000000000001111111111111111;

pub const PS10D_X1: u64 = 0b1111000000001111111100000000111111110000000011111111;

pub const PS10D_X2: u64 = 0b1111000011110000111100001111000011110000111100001111;

pub const PS10D_X3: u64 = 0b0011001100110011001100110011001100110011001100110011;

pub const PS10D_X4: u64 = 0b0101010101010101010101010101010101010101010101010101;

pub const PS10M: u64 = 0b11111_11111_11111_11111_11111_11111_11111_11111_11111_11111_11;

/// What `path1_count3` returns: the compatible-assignment window of a
/// word the formula can return on the arity-3 patterns.
pub open spec fn path1_count3_post<FN: Fn((u64, u64), u64) -> u64>(f: FN, r: u32) -> bool {
    exists|v: u64|
        #[trigger] call_ensures(f, ((PS3_F0, PS3_F1), PS3_X0), v) && r == bitcount(
            (v & PS3M) as nat,
        )
}

/// Path Semantical Logic: counts the number of solutions of a 3-argument
/// boolean function over 2 function-level and 1 value-level propositions.
pub fn path1_count3<FN: Fn((u64, u64), u64) -> u64>(f: &FN) -> (r: u32)
    requires
        forall|args: ((u64, u64), u64)| call_requires(*f, args),
    ensures
        path1_count3_post(*f, r),
{
    let v = f((PS3_F0, PS3_F1), PS3_X0);
    popcount(v & PS3M)
}

/// What `path1_count4` returns: the compatible-assignment window of a
/// word the formula can return on the arity-4 patterns.
pub open spec fn path1_count4_post<FN: Fn((u64, u64), (u64, u64)) -> u64>(f: FN, r: u32) -> bool {
    exists|v: u64|
        #[trigger] call_ensures(f, ((PS4_F0, PS4_F1), (PS4_X0, PS4_X1)), v) && r == bitcount(
            (v & PS4M) as nat,
        )
}

/// Path Semantical Logic: counts the number of solutions of a 4-argument
/// boolean function over 2 function-level and 2 value-level propositions.
pub fn path1_count4<FN: Fn((u64, u64), (u64, u64)) -> u64>(f: &FN) -> (r: u32)
    requires
        forall|args: ((u64, u64), (u64, u64))| call_requires(*f, args),
    ensures
        path1_count4_post(*f, r),
{
    let v = f((PS4_F0, PS4_F1), (PS4_X0, PS4_X1));
    popcount(v & PS4M)
}

/// What `path1_count5` returns: the compatible-assignment window of a
/// word the formula can return on the arity-5 patterns.
pub open spec fn path1_count5_post<FN: Fn((u64, u64, u64), (u64, u64)) -> u64>(
    f: FN,
    r: u32,
) -> bool {
    exists|v: u64|
        #[trigger] call_ensures(f, ((PS5_F0, PS5_F1, PS5_F2), (PS5_X0, PS5_X1)), v) && r
            == bitcount((v & PS5M) as nat)
}

/// Path Semantical Logic: counts the number of solutions of a 5-argument
/// boolean function over 3 function-level and 2 value-level propositions.
pub fn path1_count5<FN: Fn((u64, u64, u64), (u64, u64)) -> u64>(f: &FN) -> (r: u32)
    requires
        forall|args: ((u64, u64, u64), (u64, u64))| call_requires(*f, args),
    ensures
        path1_count5_post(*f, r),
{
    let v = f((PS5_F0, PS5_F1, PS5_F2), (PS5_X0, PS5_X1));
    popcount(v & PS5M)
}

/// What `path1_count6` returns: the compatible-assignment window of a
/// word the formula can return on the arity-6 patterns.
pub open spec fn path1_count6_post<FN: Fn((u64, u64, u64), (u64, u64, u64)) -> u64>(
    f: FN,
    r: u32,
) -> bool {
    exists|v: u64|
        #[trigger] call_ensures(f, ((PS6_F0, PS6_F1, PS6_F2), (PS6_X0, PS6_X1, PS6_X2)), v) && r
            == bitcount((v & PS6M) as nat)
}

/// Path Semantical Logic: counts the number of solutions of a 6-argument
/// boolean function over 3 function-level and 3 value-level propositions.
pub fn path1_count6<FN: Fn((u64, u64, u64), (u64, u64, u64)) -> u64>(f: &FN) -> (r: u32)
    requires
        forall|args: ((u64, u64, u64), (u64, u64, u64))| call_requires(*f, args),
    ensures
        path1_count6_post(*f, r),
{
    let v = f((PS6_F0, PS6_F1, PS6_F2), (PS6_X0, PS6_X1, PS6_X2));
    popcount(v & PS6M)
}

/// What `path1_count7` returns: the compatible-assignment window of a
/// word the formula can return on the arity-7 patterns.
pub open spec fn path1_count7_post<FN: Fn((u64, u64, u64, u64), (u64, u64, u64)) -> u64>(
    f: FN,
    r: u32,
) -> bool {
    exists|v: u64|
        #[trigger] call_ensures(
            f,
            ((PS7_F0, PS7_F1, PS7_F2, PS7_F3), (PS7_X0, PS7_X1, PS7_X2)),
            v,
        ) && r == bitcount((v & PS7M) as nat)
}

/// Path Semantical Logic: counts the number of solutions of a 7-argument
/// boolean function over 4 function-level and 3 value-level propositions.
pub fn path1_count7<FN: Fn((u64, u64, u64, u64), (u64, u64, u64)) -> u64>(f: &FN) -> (r: u32)
    requires
        forall|args: ((u64, u64, u64, u64), (u64, u64, u64))| call_requires(*f, args),
    ensures
        path1_count7_post(*f, r),
{
    let v = f((PS7_F0, PS7_F1, PS7_F2, PS7_F3), (PS7_X0, PS7_X1, PS7_X2));
    popcount(v & PS7M)
}

/// What `path1_count8` returns: the summed compatible-assignment windows
/// of words the formula can return on the two arity-8 pattern groups.
pub open spec fn path1_count8_post<FN: Fn((u64, u64, u64, u64), (u64, u64, u64, u64)) -> u64>(
    f: FN,
    r: u32,
) -> bool {
    exists|v0: u64, v1: u64|
        #[trigger] call_ensures(
            f,
            ((PS8A_F0, PS8A_F1, PS8A_F2, PS8A_F3), (PS8A_X0, PS8A_X1, PS8A_X2, PS8A_X3)),
            v0,
        ) && #[trigger] call_ensures(
            f,
            ((PS8B_F0, PS8B_F1, PS8B_F2, PS8B_F3), (PS8B_X0, PS8B_X1, PS8B_X2, PS8B_X3)),
            v1,
        ) && r == bitcount(v0 as nat) + bitcount((v1 & PS8M) as nat)
}

/// Path Semantical Logic: counts the number of solutions of an 8-argument
/// boolean function over 4 function-level and 4 value-level propositions.
pub fn path1_count8<FN: Fn((u64, u64, u64, u64), (u64, u64, u64, u64)) -> u64>(f: &FN) -> (r: u32)
    requires
        forall|args: ((u64, u64, u64, u64), (u64, u64, u64, u64))| call_requires(*f, args),
    ensures
        path1_count8_post(*f, r),
{
    let v0 = f((PS8A_F0, PS8A_F1, PS8A_F2, PS8A_F3), (PS8A_X0, PS8A_X1, PS8A_X2, PS8A_X3));
    let v1 = f((PS8B_F0, PS8B_F1, PS8B_F2, PS8B_F3), (PS8B_X0, PS8B_X1, PS8B_X2, PS8B_X3));
    popcount(v0) + popcount(v1 & PS8M)
}

/// What `path1_count9` returns: the summed compatible-assignment windows
/// of words the formula can return on the three arity-9 pattern groups.
pub open spec fn path1_count9_post<FN: Fn((u64, u64, u64, u64, u64), (u64, u64, u64, u64)) -> u64>(
    f: FN,
    r: u32,
) -> bool {
    exists|v0: u64, v1: u64, v2: u64|
        #[trigger] call_ensures(
            f,
            ((PS9A_F0, PS9A_F1, PS9A_F2, PS9A_F3, PS9A_F4), (PS9A_X0, PS9A_X1, PS9A_X2, PS9A_X3)),
            v0,
        ) && #[trigger] call_ensures(
            f,
            ((PS9B_F0, PS9B_F1, PS9B_F2, PS9B_F3, PS9B_F4), (PS9B_X0, PS9B_X1, PS9B_X2, PS9B_X3)),
            v1,
        ) && #[trigger] call_ensures(
            f,
            ((PS9C_F0, PS9C_F1, PS9C_F2, PS9C_F3, PS9C_F4), (PS9C_X0, PS9C_X1, PS9C_X2, PS9C_X3)),
            v2,
        ) && r == bitcount(v0 as nat) + bitcount(v1 as nat) + bitcount((v2 & PS9M) as nat)
}

/// Path Semantical Logic: counts the number of solutions of a 9-argument
/// boolean function over 5 function-level and 4 value-level propositions.
pub fn path1_count9<FN: Fn((u64, u64, u64, u64, u64), (u64, u64, u64, u64)) -> u64>(f: &FN) -> (r:
    u32)
    requires
        forall|args: ((u64, u64, u64, u64, u64), (u64, u64, u64, u64))| call_requires(*f, args),
    ensures
        path1_count9_post(*f, r),
{
    let v0 = f(
        (PS9A_F0, PS9A_F1, PS9A_F2, PS9A_F3, PS9A_F4),
        (PS9A_X0, PS9A_X1, PS9A_X2, PS9A_X3),
    );
    let v1 = f(
        (PS9B_F0, PS9B_F1, PS9B_F2, PS9B_F3, PS9B_F4),
        (PS9B_X0, PS9B_X1, PS9B_X2, PS9B_X3),
    );
    let v2 = f(
        (PS9C_F0, PS9C_F1, PS9C_F2, PS9C_F3, PS9C_F4),
        (PS9C_X0, PS9C_X1, PS9C_X2, PS9C_X3),
    );
    popcount(v0) + popcount(v1) + popcount(v2 & PS9M)
}

/// What `path1_count10` returns: the summed compatible-assignment windows
/// of words the formula can return on the four arity-10 pattern groups.
pub open spec fn path1_count10_post<
    FN: Fn((u64, u64, u64, u64, u64), (u64, u64, u64, u64, u64)) -> u64,
>(f: FN, r: u32) -> bool {
    exists|v0: u64, v1: u64, v2: u64, v3: u64|
        #[trigger] call_ensures(
            f,
            (
                (PS10A_F0, PS10A_F1, PS10A_F2, PS10A_F3, PS10A_F4),
                (PS10A_X0, PS10A_X1, PS10A_X2, PS10A_X3, PS10A_X4),
            ),
            v0,
        ) && #[trigger] call_ensures(
            f,
            (
                (PS10B_F0, PS10B_F1, PS10B_F2, PS10B_F3, PS10B_F4),
                (PS10B_X0, PS10B_X1, PS10B_X2, PS10B_X3, PS10B_X4),
            ),
            v1,
        ) && #[trigger] call_ensures(
            f,
            (
                (PS10C_F0, PS10C_F1, PS10C_F2, PS10C_F3, PS10C_F4),
                (PS10C_X0, PS10C_X1, PS10C_X2, PS10C_X3, PS10C_X4),
            ),
            v2,
        ) && #[trigger] call_ensures(
            f,
            (
                (PS10D_F0, PS10D_F1, PS10D_F2, PS10D_F3, PS10D_F4),
                (PS10D_X0, PS10D_X1, PS10D_X2, PS10D_X3, PS10D_X4),
            ),
            v3,
        ) && r == bitcount(v0 as nat) + bitcount(v1 as nat) + bitcount(v2 as nat) + bitcount(
            (v3 & PS10M) as nat,
        )
}

/// Path Semantical Logic: counts the number of solutions of a 10-argument
/// boolean function over 5 function-level and 5 value-level propositions.
pub fn path1_count10<FN: Fn((u64, u64, u64, u64, u64), (u64, u64, u64, u64, u64)) -> u64>(
    f: &FN,
) -> (r: u32)
    requires
        forall|args: ((u64, u64, u64, u64, u64), (u64, u64, u64, u64, u64))|
            call_requires(*f, args),
    ensures
        path1_count10_post(*f, r),
{
    let v0 = f(
        (PS10A_F0, PS10A_F1, PS10A_F2, PS10A_F3, PS10A_F4),
        (PS10A_X0, PS10A_X1, PS10A_X2, PS10A_X3, PS10A_X4),
    );
    let v1 = f(
        (PS10B_F0, PS10B_F1, PS10B_F2, PS10B_F3, PS10B_F4),
        (PS10B_X0, PS10B_X1, PS10B_X2, PS10B_X3, PS10B_X4),
    );
    let v2 = f(
        (PS10C_F0, PS10C_F1, PS10C_F2, PS10C_F3, PS10C_F4),
        (PS10C_X0, PS10C_X1, PS10C_X2, PS10C_X3, PS10C_X4),
    );
    let v3 = f(
        (PS10D_F0, PS10D_F1, PS10D_F2, PS10D_F3, PS10D_F4),
        (PS10D_X0, PS10D_X1, PS10D_X2, PS10D_X3, PS10D_X4),
    );
    popcount(v0) + popcount(v1) + popcount(v2) + popcount(v3 & PS10M)
}


/// Path Semantical Logic: computes the number of compatible assignments
/// `L(f, x) = 2^(f+1) + (f+1) * (2^x - 2)` for `f` function-level and `x`
/// value-level propositions.
pub fn path1_lennm(f: usize, x: usize) -> (r: u64)
    requires
        f <= 62,
        x <= 63,
        pow2((f + 1) as nat) + (f + 1) * (pow2(x as nat) - 2) <= u64::MAX,
    ensures
        r == pow2((f + 1) as nat) + (f + 1) * (pow2(x as nat) - 2),
{
    proof {
        vstd::bits::lemma_u64_pow2_no_overflow((f + 1) as nat);
        vstd::bits::lemma_u64_shl_is_mul(1u64, (f + 1) as u64);
        vstd::bits::lemma_u64_pow2_no_overflow(x as nat);
        vstd::bits::lemma_u64_shl_is_mul(1u64, x as u64);
        vstd::arithmetic::power2::lemma2_to64();
        lemma_pow2_exceeds((f + 1) as nat);
        if x > 1 {
            vstd::arithmetic::power2::lemma_pow2_strictly_increases(1, x as nat);
        }
    }
    let p1: u64 = 1u64 << ((f + 1) as u64);
    if x == 0 {
        proof {
            assert(pow2(x as nat) == 1);
            assert((f + 1) * (pow2(x as nat) - 2) == -((f + 1) as int)) by (nonlinear_arith)
                requires
                    pow2(x as nat) == 1,
            ;
        }
        p1 - ((f as u64) + 1)
    } else {
        let px: u64 = 1u64 << (x as u64);
        p1 + ((f as u64) + 1) * (px - 2)
    }
}

/// Two to a power exceeds the exponent.
proof fn lemma_pow2_exceeds(k: nat)
    ensures
        pow2(k) > k,
    decreases k,
{
    vstd::arithmetic::power2::lemma2_to64();
    if k > 0 {
        lemma_pow2_exceeds((k - 1) as nat);
        vstd::arithmetic::power2::lemma_pow2_unfold(k);
    }
}

/// Path Semantical Logic: counts the number of solutions of a 1-argument
/// boolean function.  With a single proposition the level constraint is
/// vacuous, so this is the same as normal counting of solutions.
pub fn path1_count1<FN: Fn(u64) -> u64>(f: &FN) -> (r: u32)
    requires
        forall|args: (u64,)| call_requires(*f, args),
    ensures
        crate::count::count1_post(*f, r),
{
    crate::count::count1(f)
}

/// Path Semantical Logic: counts the number of solutions of a 2-argument
/// boolean function.  With one proposition on each level the constraint
/// is vacuous, so this is the same as normal counting of solutions.
pub fn path1_count2<FN: Fn(u64, u64) -> u64>(f: &FN) -> (r: u32)
    requires
        forall|args: (u64, u64)| call_requires(*f, args),
    ensures
        crate::count::count2_post(*f, r),
{
    crate::count::count2(f)
}

/// Path Semantical Logic: returns `true` if proposition is correct,
/// `false` otherwise.  For 1-argument functions this is the same as
/// normal theorem proving.
pub fn path1_prove1<FN: Fn(u64) -> u64>(f: &FN) -> (r: bool)
    requires
        forall|args: (u64,)| call_requires(*f, args),
    ensures
        exists|c: u32| #[trigger] crate::count::count1_post(*f, c) && r == (c == 2),
{
    crate::count::prove1(f)
}

/// Path Semantical Logic: returns `true` if proposition is correct,
/// `false` otherwise.  For 2-argument functions this is the same as
/// normal theorem proving.
pub fn path1_prove2<FN: Fn(u64, u64) -> u64>(f: &FN) -> (r: bool)
    requires
        forall|args: (u64, u64)| call_requires(*f, args),
    ensures
        exists|c: u32| #[trigger] crate::count::count2_post(*f, c) && r == (c == 4),
{
    crate::count::prove2(f)
}

/// Path Semantical Logic: returns `true` if proposition is correct,
/// `false` otherwise: the formula is a tautology exactly when its count
/// over the compatible assignments is `L = 8`.
pub fn path1_prove3<FN: Fn((u64, u64), u64) -> u64>(f: &FN) -> (r: bool)
    requires
        forall|args: ((u64, u64), u64)| call_requires(*f, args),
    ensures
        exists|c: u32| #[trigger] path1_count3_post(*f, c) && r == (c == 8),
{
    path1_count3(f) == 8
}

/// Path Semantical Logic: returns `true` if proposition is correct,
/// `false` otherwise: the formula is a tautology exactly when its count
/// over the compatible assignments is `L = 14`.
pub fn path1_prove4<FN: Fn((u64, u64), (u64, u64)) -> u64>(f: &FN) -> (r: bool)
    requires
        forall|args: ((u64, u64), (u64, u64))| call_requires(*f, args),
    ensures
        exists|c: u32| #[trigger] path1_count4_post(*f, c) && r == (c == 14),
{
    path1_count4(f) == 14
}

/// Path Semantical Logic: returns `true` if proposition is correct,
/// `false` otherwise: the formula is a tautology exactly when its count
/// over the compatible assignments is `L = 24`.
pub fn path1_prove5<FN: Fn((u64, u64, u64), (u64, u64)) -> u64>(f: &FN) -> (r: bool)
    requires
        forall|args: ((u64, u64, u64), (u64, u64))| call_requires(*f, args),
    ensures
        exists|c: u32| #[trigger] path1_count5_post(*f, c) && r == (c == 24),
{
    path1_count5(f) == 24
}

/// Path Semantical Logic: returns `true` if proposition is correct,
/// `false` otherwise: the formula is a tautology exactly when its count
/// over the compatible assignments is `L = 40`.
pub fn path1_prove6<FN: Fn((u64, u64, u64), (u64, u64, u64)) -> u64>(f: &FN) -> (r: bool)
    requires
        forall|args: ((u64, u64, u64), (u64, u64, u64))| call_requires(*f, args),
    ensures
        exists|c: u32| #[trigger] path1_count6_post(*f, c) && r == (c == 40),
{
    path1_count6(f) == 40
}

/// Path Semantical Logic: returns `true` if proposition is correct,
/// `false` otherwise: the formula is a tautology exactly when its count
/// over the compatible assignments is `L = 62`.
pub fn path1_prove7<FN: Fn((u64, u64, u64, u64), (u64, u64, u64)) -> u64>(f: &FN) -> (r: bool)
    requires
        forall|args: ((u64, u64, u64, u64), (u64, u64, u64))| call_requires(*f, args),
    ensures
        exists|c: u32| #[trigger] path1_count7_post(*f, c) && r == (c == 62),
{
    path1_count7(f) == 62
}

/// Path Semantical Logic: returns `true` if proposition is correct,
/// `false` otherwise: the formula is a tautology exactly when its count
/// over the compatible assignments is `L = 102`.
pub fn path1_prove8<FN: Fn((u64, u64, u64, u64), (u64, u64, u64, u64)) -> u64>(f: &FN) -> (r: bool)
    requires
        forall|args: ((u64, u64, u64, u64), (u64, u64, u64, u64))| call_requires(*f, args),
    ensures
        exists|c: u32| #[trigger] path1_count8_post(*f, c) && r == (c == 102),
{
    path1_count8(f) == 102
}

/// Path Semantical Logic: returns `true` if proposition is correct,
/// `false` otherwise: the formula is a tautology exactly when its count
/// over the compatible assignments is `L = 148`.
pub fn path1_prove9<FN: Fn((u64, u64, u64, u64, u64), (u64, u64, u64, u64)) -> u64>(f: &FN) -> (r: bool)
    requires
        forall|args: ((u64, u64, u64, u64, u64), (u64, u64, u64, u64))| call_requires(*f, args),
    ensures
        exists|c: u32| #[trigger] path1_count9_post(*f, c) && r == (c == 148),
{
    path1_count9(f) == 148
}

/// Path Semantical Logic: returns `true` if proposition is correct,
/// `false` otherwise: the formula is a tautology exactly when its count
/// over the compatible assignments is `L = 244`.
pub fn path1_prove10<FN: Fn((u64, u64, u64, u64, u64), (u64, u64, u64, u64, u64)) -> u64>(f: &FN) -> (r: bool)
    requires
        forall|args: ((u64, u64, u64, u64, u64), (u64, u64, u64, u64, u64))| call_requires(*f, args),
    ensures
        exists|c: u32| #[trigger] path1_count10_post(*f, c) && r == (c == 244),
{
    path1_count10(f) == 244
}


/// `v` is a word the two-level formula can return on function-level words
/// `fseq` and value-level words `xseq`.
pub open spec fn fun_result<FN: Fn(&[u64], &[u64]) -> u64>(
    fun: FN,
    fseq: Seq<u64>,
    xseq: Seq<u64>,
    v: u64,
) -> bool {
    exists|fs: &[u64], xs: &[u64]|
        fs@ == fseq && xs@ == xseq && #[trigger] call_ensures(fun, (fs, xs), v)
}

/// `n` words all zero.
pub open spec fn zeros_seq(n: int) -> Seq<u64> {
    Seq::new(n as nat, |j: int| F)
}

/// `n` words all ones.
pub open spec fn ones_seq(n: int) -> Seq<u64> {
    Seq::new(n as nat, |j: int| T)
}

/// `n` words that pick out the first and last value-level assignment:
/// bit 0 says every value proposition is true, bit 1 that every one is
/// false.
pub open spec fn firstlast_seq(n: int) -> Seq<u64> {
    Seq::new(n as nat, |j: int| 0b01u64)
}

/// `n` words all ones but for a zero at position `h`.
pub open spec fn hole_seq(n: int, h: int) -> Seq<u64> {
    Seq::new(
        n as nat,
        |j: int|
            if j == h {
                F
            } else {
                T
            },
    )
}

/// The enumeration shape of `countn` applied to the formula with its
/// value-level words pinned to `xseq` and the function-level words
/// ranging.
pub open spec fn count_fs_post<FN: Fn(&[u64], &[u64]) -> u64>(
    fun: FN,
    n: usize,
    xseq: Seq<u64>,
    r: u64,
) -> bool {
    if n == 0 {
        exists|v: u64|
            #[trigger] fun_result(fun, Seq::<u64>::empty(), xseq, v) && r == bitcount(v as nat)
    } else if n <= 5 {
        exists|v: u64|
            #[trigger] fun_result(fun, axes_seq(n as int), xseq, v) && r == bitcount(
                (v & mask_of(n)) as nat,
            )
    } else if n == 6 {
        exists|v: u64| #[trigger] fun_result(fun, axes_seq(6), xseq, v) && r == bitcount(v as nat)
    } else {
        exists|vals: Seq<u64>|
            #[trigger] sum_bitcount(vals) == r && vals.len() == pow2((n - 6) as nat) && (forall|
                i: int,
            |
                0 <= i < vals.len() ==> fun_result(fun, ext_args(n as int, i), xseq, vals[i]))
    }
}

/// The enumeration shape of `countn` applied to the formula with its
/// function-level words pinned to `fseq` and the value-level words
/// ranging.
pub open spec fn count_xs_post<FN: Fn(&[u64], &[u64]) -> u64>(
    fun: FN,
    n: usize,
    fseq: Seq<u64>,
    r: u64,
) -> bool {
    if n == 0 {
        exists|v: u64|
            #[trigger] fun_result(fun, fseq, Seq::<u64>::empty(), v) && r == bitcount(v as nat)
    } else if n <= 5 {
        exists|v: u64|
            #[trigger] fun_result(fun, fseq, axes_seq(n as int), v) && r == bitcount(
                (v & mask_of(n)) as nat,
            )
    } else if n == 6 {
        exists|v: u64| #[trigger] fun_result(fun, fseq, axes_seq(6), v) && r == bitcount(v as nat)
    } else {
        exists|vals: Seq<u64>|
            #[trigger] sum_bitcount(vals) == r && vals.len() == pow2((n - 6) as nat) && (forall|
                i: int,
            |
                0 <= i < vals.len() ==> fun_result(fun, fseq, ext_args(n as int, i), vals[i]))
    }
}

/// Carries `countn`'s contract on an adapter that pins the value-level
/// words over to a statement about the two-level formula itself.
proof fn lemma_to_count_fs<FN: Fn(&[u64], &[u64]) -> u64, GN: Fn(&[u64]) -> u64>(
    fun: FN,
    g: GN,
    n: usize,
    xseq: Seq<u64>,
    r: u64,
)
    requires
        countn_post(n, g, r),
        forall|s: &[u64], v: u64|
            #[trigger] call_ensures(g, (s,), v) ==> fun_result(fun, s@, xseq, v),
    ensures
        count_fs_post(fun, n, xseq, r),
{
    if n == 0 {
        let (s, v) = choose|s: &[u64], v: u64|
            s@ == Seq::<u64>::empty() && #[trigger] call_ensures(g, (s,), v) && r == bitcount(
                v as nat,
            );
        assert(fun_result(fun, Seq::<u64>::empty(), xseq, v));
    } else if n <= 5 {
        let (s, v) = choose|s: &[u64], v: u64|
            s@ == axes_seq(n as int) && #[trigger] call_ensures(g, (s,), v) && r == bitcount(
                (v & mask_of(n)) as nat,
            );
        assert(fun_result(fun, axes_seq(n as int), xseq, v));
    } else if n == 6 {
        let (s, v) = choose|s: &[u64], v: u64|
            s@ == axes_seq(6) && #[trigger] call_ensures(g, (s,), v) && r == bitcount(v as nat);
        assert(fun_result(fun, axes_seq(6), xseq, v));
    } else {
        let vals = choose|vals: Seq<u64>|
            #[trigger] sum_bitcount(vals) == r && vals.len() == pow2((n - 6) as nat) && (forall|
                i: int,
            |
                0 <= i < vals.len() ==> arg_result(g, n as int, i, vals[i]));
        assert forall|i: int| 0 <= i < vals.len() implies fun_result(
            fun,
            ext_args(n as int, i),
            xseq,
            vals[i],
        ) by {
            assert(arg_result(g, n as int, i, vals[i]));
            let s = choose|s: &[u64]|
                s@ == ext_args(n as int, i) && #[trigger] call_ensures(g, (s,), vals[i]);
        }
    }
}

/// Carries `countn`'s contract on an adapter that pins the function-level
/// words over to a statement about the two-level formula itself.
proof fn lemma_to_count_xs<FN: Fn(&[u64], &[u64]) -> u64, GN: Fn(&[u64]) -> u64>(
    fun: FN,
    g: GN,
    n: usize,
    fseq: Seq<u64>,
    r: u64,
)
    requires
        countn_post(n, g, r),
        forall|s: &[u64], v: u64|
            #[trigger] call_ensures(g, (s,), v) ==> fun_result(fun, fseq, s@, v),
    ensures
        count_xs_post(fun, n, fseq, r),
{
    if n == 0 {
        let (s, v) = choose|s: &[u64], v: u64|
            s@ == Seq::<u64>::empty() && #[trigger] call_ensures(g, (s,), v) && r == bitcount(
                v as nat,
            );
        assert(fun_result(fun, fseq, Seq::<u64>::empty(), v));
    } else if n <= 5 {
        let (s, v) = choose|s: &[u64], v: u64|
            s@ == axes_seq(n as int) && #[trigger] call_ensures(g, (s,), v) && r == bitcount(
                (v & mask_of(n)) as nat,
            );
        assert(fun_result(fun, fseq, axes_seq(n as int), v));
    } else if n == 6 {
        let (s, v) = choose|s: &[u64], v: u64|
            s@ == axes_seq(6) && #[trigger] call_ensures(g, (s,), v) && r == bitcount(v as nat);
        assert(fun_result(fun, fseq, axes_seq(6), v));
    } else {
        let vals = choose|vals: Seq<u64>|
            #[trigger] sum_bitcount(vals) == r && vals.len() == pow2((n - 6) as nat) && (forall|
                i: int,
            |
                0 <= i < vals.len() ==> arg_result(g, n as int, i, vals[i]));
        assert forall|i: int| 0 <= i < vals.len() implies fun_result(
            fun,
            fseq,
            ext_args(n as int, i),
            vals[i],
        ) by {
            assert(arg_result(g, n as int, i, vals[i]));
            let s = choose|s: &[u64]|
                s@ == ext_args(n as int, i) && #[trigger] call_ensures(g, (s,), vals[i]);
        }
    }
}


/// Subtraction that stops at zero, as the counters accumulate it.
pub open spec fn sat_sub(a: int, b: int) -> int {
    if b <= a {
        a - b
    } else {
        0
    }
}

/// What the `h`-th boundary case of `path1_countnm` contributes: the
/// count with the `h`-th function-level proposition pinned false and the
/// rest true, and the correction for the two value-level endpoint
/// assignments that the first two contributions already cover.
pub open spec fn hole_pair<FN: Fn(&[u64], &[u64]) -> u64>(
    fun: FN,
    f: usize,
    x: usize,
    h: int,
    p: (u64, u64),
) -> bool {
    count_xs_post(fun, x, hole_seq(f as int, h), p.0) && exists|w: u64|
        #[trigger] fun_result(fun, hole_seq(f as int, h), firstlast_seq(x as int), w) && p.1
            == bitcount((w & 0b11) as nat)
}

/// Folds the boundary-case contributions left to right, subtracting each
/// correction from the running sum and stopping at zero.
pub open spec fn hole_fold(pairs: Seq<(u64, u64)>) -> int
    decreases pairs.len(),
{
    if pairs.len() == 0 {
        0
    } else {
        sat_sub(hole_fold(pairs.drop_last()) + pairs.last().0, pairs.last().1 as int)
    }
}

/// What `path1_countnm` returns: the counts with every value-level word
/// pinned to zeros and to ones, the count with all function-level words
/// true less its two endpoint cases, and for each position a count with
/// that function-level word pinned false less its endpoint cases, all
/// summed.
pub open spec fn path1_countnm_post<FN: Fn(&[u64], &[u64]) -> u64>(
    fun: FN,
    f: usize,
    x: usize,
    r: u64,
) -> bool {
    exists|a1: u64, a2: u64, a3: u64, w3: u64, pairs: Seq<(u64, u64)>|
        #[trigger] count_fs_post(fun, f, zeros_seq(x as int), a1) && #[trigger] count_fs_post(
            fun,
            f,
            ones_seq(x as int),
            a2,
        ) && #[trigger] count_xs_post(fun, x, ones_seq(f as int), a3) && #[trigger] fun_result(
            fun,
            ones_seq(f as int),
            firstlast_seq(x as int),
            w3,
        ) && #[trigger] pairs.len() == f && (forall|h: int|
            0 <= h < f ==> hole_pair(fun, f, x, h, pairs[h])) && r == a1 + a2 + sat_sub(
            a3 as int,
            bitcount((w3 & 0b11) as nat) as int,
        ) + hole_fold(pairs)
}

/// A vector of `n` copies of the word `w`.
fn const_vec(n: usize, w: u64) -> (v: Vec<u64>)
    ensures
        v@ == Seq::new(n as nat, |j: int| w),
{
    let mut v: Vec<u64> = Vec::new();
    let mut k: usize = 0;
    while k < n
        invariant
            k <= n,
            v@.len() == k,
            forall|j: int| 0 <= j < k ==> v@[j] == w,
        decreases n - k,
    {
        v.push(w);
        k = k + 1;
    }
    proof {
        assert(v@ =~= Seq::new(n as nat, |j: int| w));
    }
    v
}

/// A vector of `n` ones-words with a zero word at position `h`.
fn hole_vec(n: usize, h: usize) -> (v: Vec<u64>)
    requires
        h < n,
    ensures
        v@ == hole_seq(n as int, h as int),
{
    let mut v: Vec<u64> = Vec::new();
    let mut k: usize = 0;
    while k < n
        invariant
            k <= n,
            v@.len() == k,
            forall|j: int|
                0 <= j < k ==> v@[j] == (if j == h {
                    F
                } else {
                    T
                }),
        decreases n - k,
    {
        if k == h {
            v.push(F);
        } else {
            v.push(T);
        }
        k = k + 1;
    }
    proof {
        assert(v@ =~= hole_seq(n as int, h as int));
    }
    v
}

/// For the sizes the generic counters take, a count fits comfortably:
/// it is at most `2^57`.
proof fn lemma_countn_small(n: usize, r: u64)
    requires
        n <= 57,
        countn_bound(n, r),
    ensures
        r <= 0x200_0000_0000_0000,
{
    vstd::arithmetic::power2::lemma2_to64();
    vstd::arithmetic::power2::lemma2_to64_rest();
    if n > 6 {
        if ((n - 6) as nat) < 51 {
            vstd::arithmetic::power2::lemma_pow2_strictly_increases((n - 6) as nat, 51);
        }
        vstd::arithmetic::power2::lemma_pow2_adds(6, 51);
    }
}

/// Path Semantical Logic: counts the number of solutions of an
/// (f+x)-argument boolean function over `f` function-level and `x`
/// value-level propositions, by inclusion and exclusion over the
/// ordinary counter.  The value-level endpoints are counted first, then
/// each boundary function-level pattern with the endpoint cases
/// subtracted; the path-1 constraint rules out exactly the remaining
/// patterns.
pub fn path1_countnm<FN: Fn(&[u64], &[u64]) -> u64>(f: usize, x: usize, fun: &FN) -> (r: u64)
    requires
        f <= 57,
        x <= 57,
        forall|args: (&[u64], &[u64])| call_requires(*fun, args),
    ensures
        path1_countnm_post(*fun, f, x, r),
{
    let zeros = const_vec(x, F);
    let g1 = |fs: &[u64]| -> (out: u64)
        requires
            forall|args: (&[u64], &[u64])| call_requires(*fun, args),
        ensures
            fun_result(*fun, fs@, zeros_seq(x as int), out),
        {
            let out = fun(fs, zeros.as_slice());
            proof {
                assert(zeros@ =~= zeros_seq(x as int));
            }
            out
        };
    let a1 = countn(f, &g1);
    proof {
        lemma_to_count_fs(*fun, g1, f, zeros_seq(x as int), a1);
        lemma_countn_small(f, a1);
    }
    let ones_x = const_vec(x, T);
    let g2 = |fs: &[u64]| -> (out: u64)
        requires
            forall|args: (&[u64], &[u64])| call_requires(*fun, args),
        ensures
            fun_result(*fun, fs@, ones_seq(x as int), out),
        {
            let out = fun(fs, ones_x.as_slice());
            proof {
                assert(ones_x@ =~= ones_seq(x as int));
            }
            out
        };
    let a2 = countn(f, &g2);
    proof {
        lemma_to_count_fs(*fun, g2, f, ones_seq(x as int), a2);
        lemma_countn_small(f, a2);
    }
    let xs01 = const_vec(x, 0b01);
    let fs_ones = const_vec(f, T);
    let h3 = |xs: &[u64]| -> (out: u64)
        requires
            forall|args: (&[u64], &[u64])| call_requires(*fun, args),
        ensures
            fun_result(*fun, ones_seq(f as int), xs@, out),
        {
            let out = fun(fs_ones.as_slice(), xs);
            proof {
                assert(fs_ones@ =~= ones_seq(f as int));
            }
            out
        };
    let a3 = countn(x, &h3);
    proof {
        lemma_to_count_xs(*fun, h3, x, ones_seq(f as int), a3);
        lemma_countn_small(x, a3);
    }
    let w3 = fun(fs_ones.as_slice(), xs01.as_slice());
    proof {
        assert(fs_ones@ =~= ones_seq(f as int));
        assert(xs01@ =~= firstlast_seq(x as int));
        assert(fun_result(*fun, ones_seq(f as int), firstlast_seq(x as int), w3));
    }
    let s3 = popcount(w3 & 0b11);
    let a3s: u64 = if (s3 as u64) <= a3 {
        a3 - (s3 as u64)
    } else {
        0
    };
    let mut sum4: u64 = 0;
    let mut i: usize = 0;
    let ghost mut pairs: Seq<(u64, u64)> = Seq::<(u64, u64)>::empty();
    while i < f
        invariant
            f <= 57,
            x <= 57,
            forall|args: (&[u64], &[u64])| call_requires(*fun, args),
            i <= f,
            pairs.len() == i,
            forall|h: int| 0 <= h < i ==> hole_pair(*fun, f, x, h, pairs[h]),
            sum4 == hole_fold(pairs),
            sum4 <= i * 0x200_0000_0000_0000,
            xs01@ == firstlast_seq(x as int),
        decreases f - i,
    {
        let fsh = hole_vec(f, i);
        let hi = |xs: &[u64]| -> (out: u64)
            requires
                forall|args: (&[u64], &[u64])| call_requires(*fun, args),
            ensures
                fun_result(*fun, hole_seq(f as int, i as int), xs@, out),
            {
                let out = fun(fsh.as_slice(), xs);
                proof {
                    assert(fsh@ =~= hole_seq(f as int, i as int));
                }
                out
            };
        let a4 = countn(x, &hi);
        proof {
            lemma_to_count_xs(*fun, hi, x, hole_seq(f as int, i as int), a4);
            lemma_countn_small(x, a4);
        }
        let w4 = fun(fsh.as_slice(), xs01.as_slice());
        let s4 = popcount(w4 & 0b11);
        let snew = sum4 + a4;
        let snext: u64 = if (s4 as u64) <= snew {
            snew - (s4 as u64)
        } else {
            0
        };
        proof {
            assert(fun_result(*fun, hole_seq(f as int, i as int), firstlast_seq(x as int), w4));
            let p = (a4, s4 as u64);
            assert(hole_pair(*fun, f, x, i as int, p));
            let old_pairs = pairs;
            pairs = pairs.push(p);
            assert(pairs.drop_last() =~= old_pairs);
            assert(hole_fold(pairs) == sat_sub(hole_fold(old_pairs) + p.0, p.1 as int));
        }
        sum4 = snext;
        i = i + 1;
    }
    let r = a1 + a2 + a3s + sum4;
    proof {
        assert(r == a1 + a2 + sat_sub(a3 as int, bitcount((w3 & 0b11) as nat) as int) + hole_fold(
            pairs,
        ));
        assert(path1_countnm_post(*fun, f, x, r));
    }
    r
}



/// The function-level and value-level pattern columns of each arity, as
/// sequences, for the contracts to quantify over.
pub open spec fn ps1_fseq() -> Seq<u64> {
    seq![P0]
}

pub open spec fn ps2_fseq() -> Seq<u64> {
    seq![P0]
}

pub open spec fn ps2_xseq() -> Seq<u64> {
    seq![P1]
}

pub open spec fn ps3_fseq() -> Seq<u64> {
    seq![PS3_F0, PS3_F1]
}

pub open spec fn ps3_xseq() -> Seq<u64> {
    seq![PS3_X0]
}

pub open spec fn ps4_fseq() -> Seq<u64> {
    seq![PS4_F0, PS4_F1]
}

pub open spec fn ps4_xseq() -> Seq<u64> {
    seq![PS4_X0, PS4_X1]
}

pub open spec fn ps5_fseq() -> Seq<u64> {
    seq![PS5_F0, PS5_F1, PS5_F2]
}

pub open spec fn ps5_xseq() -> Seq<u64> {
    seq![PS5_X0, PS5_X1]
}

pub open spec fn ps6_fseq() -> Seq<u64> {
    seq![PS6_F0, PS6_F1, PS6_F2]
}

pub open spec fn ps6_xseq() -> Seq<u64> {
    seq![PS6_X0, PS6_X1, PS6_X2]
}

pub open spec fn ps7_fseq() -> Seq<u64> {
    seq![PS7_F0, PS7_F1, PS7_F2, PS7_F3]
}

pub open spec fn ps7_xseq() -> Seq<u64> {
    seq![PS7_X0, PS7_X1, PS7_X2]
}

pub open spec fn ps8a_fseq() -> Seq<u64> {
    seq![PS8A_F0, PS8A_F1, PS8A_F2, PS8A_F3]
}

pub open spec fn ps8a_xseq() -> Seq<u64> {
    seq![PS8A_X0, PS8A_X1, PS8A_X2, PS8A_X3]
}

pub open spec fn ps8b_fseq() -> Seq<u64> {
    seq![PS8B_F0, PS8B_F1, PS8B_F2, PS8B_F3]
}

pub open spec fn ps8b_xseq() -> Seq<u64> {
    seq![PS8B_X0, PS8B_X1, PS8B_X2, PS8B_X3]
}

pub open spec fn ps9a_fseq() -> Seq<u64> {
    seq![PS9A_F0, PS9A_F1, PS9A_F2, PS9A_F3, PS9A_F4]
}

pub open spec fn ps9a_xseq() -> Seq<u64> {
    seq![PS9A_X0, PS9A_X1, PS9A_X2, PS9A_X3]
}

pub open spec fn ps9b_fseq() -> Seq<u64> {
    seq![PS9B_F0, PS9B_F1, PS9B_F2, PS9B_F3, PS9B_F4]
}

pub open spec fn ps9b_xseq() -> Seq<u64> {
    seq![PS9B_X0, PS9B_X1, PS9B_X2, PS9B_X3]
}

pub open spec fn ps9c_fseq() -> Seq<u64> {
    seq![PS9C_F0, PS9C_F1, PS9C_F2, PS9C_F3, PS9C_F4]
}

pub open spec fn ps9c_xseq() -> Seq<u64> {
    seq![PS9C_X0, PS9C_X1, PS9C_X2, PS9C_X3]
}

pub open spec fn ps10a_fseq() -> Seq<u64> {
    seq![PS10A_F0, PS10A_F1, PS10A_F2, PS10A_F3, PS10A_F4]
}

pub open spec fn ps10a_xseq() -> Seq<u64> {
    seq![PS10A_X0, PS10A_X1, PS10A_X2, PS10A_X3, PS10A_X4]
}

pub open spec fn ps10b_fseq() -> Seq<u64> {
    seq![PS10B_F0, PS10B_F1, PS10B_F2, PS10B_F3, PS10B_F4]
}

pub open spec fn ps10b_xseq() -> Seq<u64> {
    seq![PS10B_X0, PS10B_X1, PS10B_X2, PS10B_X3, PS10B_X4]
}

pub open spec fn ps10c_fseq() -> Seq<u64> {
    seq![PS10C_F0, PS10C_F1, PS10C_F2, PS10C_F3, PS10C_F4]
}

pub open spec fn ps10c_xseq() -> Seq<u64> {
    seq![PS10C_X0, PS10C_X1, PS10C_X2, PS10C_X3, PS10C_X4]
}

pub open spec fn ps10d_fseq() -> Seq<u64> {
    seq![PS10D_F0, PS10D_F1, PS10D_F2, PS10D_F3, PS10D_F4]
}

pub open spec fn ps10d_xseq() -> Seq<u64> {
    seq![PS10D_X0, PS10D_X1, PS10D_X2, PS10D_X3, PS10D_X4]
}

/// What `path1_countn` returns, by arity: below three propositions the
/// path-1 constraint is vacuous and the ordinary counting patterns
/// apply; from three to ten the hand-woven compatible patterns are used;
/// beyond ten the levels are split near the middle and counted by
/// inclusion and exclusion.
pub open spec fn path1_countn_post<FN: Fn(&[u64], &[u64]) -> u64>(
    n: usize,
    fun: FN,
    r: u64,
) -> bool {
    if n == 0 {
        exists|v: u64|
            #[trigger] fun_result(fun, Seq::<u64>::empty(), Seq::<u64>::empty(), v) && r
                == bitcount(v as nat)
    } else if n == 1 {
        exists|v: u64|
            #[trigger] fun_result(fun, ps1_fseq(), Seq::<u64>::empty(), v) && r == bitcount(
                (v & 0x3) as nat,
            )
    } else if n == 2 {
        exists|v: u64|
            #[trigger] fun_result(fun, ps2_fseq(), ps2_xseq(), v) && r == bitcount((v & 0xf) as nat)
    } else if n == 3 {
        exists|v: u64|
            #[trigger] fun_result(fun, ps3_fseq(), ps3_xseq(), v) && r == bitcount((v & PS3M) as nat)
    } else if n == 4 {
        exists|v: u64|
            #[trigger] fun_result(fun, ps4_fseq(), ps4_xseq(), v) && r == bitcount((v & PS4M) as nat)
    } else if n == 5 {
        exists|v: u64|
            #[trigger] fun_result(fun, ps5_fseq(), ps5_xseq(), v) && r == bitcount((v & PS5M) as nat)
    } else if n == 6 {
        exists|v: u64|
            #[trigger] fun_result(fun, ps6_fseq(), ps6_xseq(), v) && r == bitcount((v & PS6M) as nat)
    } else if n == 7 {
        exists|v: u64|
            #[trigger] fun_result(fun, ps7_fseq(), ps7_xseq(), v) && r == bitcount((v & PS7M) as nat)
    } else if n == 8 {
        exists|v0: u64, v1: u64|
            #[trigger] fun_result(fun, ps8a_fseq(), ps8a_xseq(), v0) && #[trigger] fun_result(fun, ps8b_fseq(), ps8b_xseq(), v1) && r == bitcount(v0 as nat) + bitcount((v1 & PS8M) as nat)
    } else if n == 9 {
        exists|v0: u64, v1: u64, v2: u64|
            #[trigger] fun_result(fun, ps9a_fseq(), ps9a_xseq(), v0) && #[trigger] fun_result(fun, ps9b_fseq(), ps9b_xseq(), v1) && #[trigger] fun_result(fun, ps9c_fseq(), ps9c_xseq(), v2) && r == bitcount(v0 as nat) + bitcount(v1 as nat) + bitcount((v2 & PS9M) as nat)
    } else if n == 10 {
        exists|v0: u64, v1: u64, v2: u64, v3: u64|
            #[trigger] fun_result(fun, ps10a_fseq(), ps10a_xseq(), v0) && #[trigger] fun_result(fun, ps10b_fseq(), ps10b_xseq(), v1) && #[trigger] fun_result(fun, ps10c_fseq(), ps10c_xseq(), v2) && #[trigger] fun_result(fun, ps10d_fseq(), ps10d_xseq(), v3) && r == bitcount(v0 as nat) + bitcount(v1 as nat) + bitcount(v2 as nat) + bitcount((v3 & PS10M) as nat)
    } else {
        path1_countnm_post(fun, (n - n / 2) as usize, (n / 2) as usize, r)
    }
}

/// Path Semantical Logic: counts the number of solutions of an
/// n-argument boolean function whose propositions are split between the
/// function level and the value level.
pub fn path1_countn<FN: Fn(&[u64], &[u64]) -> u64>(n: usize, fun: &FN) -> (r: u64)
    requires
        n <= 114,
        forall|args: (&[u64], &[u64])| call_requires(*fun, args),
    ensures
        path1_countn_post(n, *fun, r),
{
    if n == 0 {
        let fsv: Vec<u64> = Vec::new();
        let xsv: Vec<u64> = Vec::new();
        let v = fun(fsv.as_slice(), xsv.as_slice());
        proof {
            assert(fsv@ =~= Seq::<u64>::empty());
            assert(fun_result(*fun, Seq::<u64>::empty(), Seq::<u64>::empty(), v));
        }
        popcount(v) as u64
    } else if n == 1 {
        let g = |a: u64| -> (out: u64)
            requires
                forall|args: (&[u64], &[u64])| call_requires(*fun, args),
            ensures
                fun_result(*fun, seq![a], Seq::<u64>::empty(), out),
            {
                let mut fsv: Vec<u64> = Vec::new();
                fsv.push(a);
                let xsv: Vec<u64> = Vec::new();
                let out = fun(fsv.as_slice(), xsv.as_slice());
                proof {
                    assert(fsv@ =~= seq![a]);
                    assert(xsv@ =~= Seq::<u64>::empty());
                }
                out
            };
        let c = crate::count::count1(&g);
        proof {
            let v = choose|v: u64|
                #[trigger] call_ensures(g, (P0,), v) && c == bitcount((v & 0x3) as nat);
            assert(fun_result(*fun, ps1_fseq(), Seq::<u64>::empty(), v));
        }
        c as u64
    } else if n == 2 {
        let g = |a: u64, b: u64| -> (out: u64)
            requires
                forall|args: (&[u64], &[u64])| call_requires(*fun, args),
            ensures
                fun_result(*fun, seq![a], seq![b], out),
            {
                let mut fsv: Vec<u64> = Vec::new();
                fsv.push(a);
                let mut xsv: Vec<u64> = Vec::new();
                xsv.push(b);
                let out = fun(fsv.as_slice(), xsv.as_slice());
                proof {
                    assert(fsv@ =~= seq![a]);
                    assert(xsv@ =~= seq![b]);
                }
                out
            };
        let c = crate::count::count2(&g);
        proof {
            let v = choose|v: u64|
                #[trigger] call_ensures(g, (P0, P1), v) && c == bitcount((v & 0xf) as nat);
            assert(fun_result(*fun, ps2_fseq(), ps2_xseq(), v));
        }
        c as u64
    } else if n == 3 {
        let g = |fg: (u64, u64), xg: u64| -> (out: u64)
            requires
                forall|args: (&[u64], &[u64])| call_requires(*fun, args),
            ensures
                fun_result(*fun, seq![fg.0, fg.1], seq![xg], out),
            {
                let mut fsv: Vec<u64> = Vec::new();
                fsv.push(fg.0);
                fsv.push(fg.1);
                let mut xsv: Vec<u64> = Vec::new();
                xsv.push(xg);
                let out = fun(fsv.as_slice(), xsv.as_slice());
                proof {
                    assert(fsv@ =~= seq![fg.0, fg.1]);
                    assert(xsv@ =~= seq![xg]);
                }
                out
            };
        let c = path1_count3(&g);
        proof {
            let v = choose|v: u64|
                #[trigger] call_ensures(g, ((PS3_F0, PS3_F1), (PS3_X0)), v) && c == bitcount((v & PS3M) as nat);
            assert(fun_result(*fun, ps3_fseq(), ps3_xseq(), v));
        }
        c as u64
    } else if n == 4 {
        let g = |fg: (u64, u64), xg: (u64, u64)| -> (out: u64)
            requires
                forall|args: (&[u64], &[u64])| call_requires(*fun, args),
            ensures
                fun_result(*fun, seq![fg.0, fg.1], seq![xg.0, xg.1], out),
            {
                let mut fsv: Vec<u64> = Vec::new();
                fsv.push(fg.0);
                fsv.push(fg.1);
                let mut xsv: Vec<u64> = Vec::new();
                xsv.push(xg.0);
                xsv.push(xg.1);
                let out = fun(fsv.as_slice(), xsv.as_slice());
                proof {
                    assert(fsv@ =~= seq![fg.0, fg.1]);
                    assert(xsv@ =~= seq![xg.0, xg.1]);
                }
                out
            };
        let c = path1_count4(&g);
        proof {
            let v = choose|v: u64|
                #[trigger] call_ensures(g, ((PS4_F0, PS4_F1), (PS4_X0, PS4_X1)), v) && c == bitcount((v & PS4M) as nat);
            assert(fun_result(*fun, ps4_fseq(), ps4_xseq(), v));
        }
        c as u64
    } else if n == 5 {
        let g = |fg: (u64, u64, u64), xg: (u64, u64)| -> (out: u64)
            requires
                forall|args: (&[u64], &[u64])| call_requires(*fun, args),
            ensures
                fun_result(*fun, seq![fg.0, fg.1, fg.2], seq![xg.0, xg.1], out),
            {
                let mut fsv: Vec<u64> = Vec::new();
                fsv.push(fg.0);
                fsv.push(fg.1);
                fsv.push(fg.2);
                let mut xsv: Vec<u64> = Vec::new();
                xsv.push(xg.0);
                xsv.push(xg.1);
                let out = fun(fsv.as_slice(), xsv.as_slice());
                proof {
                    assert(fsv@ =~= seq![fg.0, fg.1, fg.2]);
                    assert(xsv@ =~= seq![xg.0, xg.1]);
                }
                out
            };
        let c = path1_count5(&g);
        proof {
            let v = choose|v: u64|
                #[trigger] call_ensures(g, ((PS5_F0, PS5_F1, PS5_F2), (PS5_X0, PS5_X1)), v) && c == bitcount((v & PS5M) as nat);
            assert(fun_result(*fun, ps5_fseq(), ps5_xseq(), v));
        }
        c as u64
    } else if n == 6 {
        let g = |fg: (u64, u64, u64), xg: (u64, u64, u64)| -> (out: u64)
            requires
                forall|args: (&[u64], &[u64])| call_requires(*fun, args),
            ensures
                fun_result(*fun, seq![fg.0, fg.1, fg.2], seq![xg.0, xg.1, xg.2], out),
            {
                let mut fsv: Vec<u64> = Vec::new();
                fsv.push(fg.0);
                fsv.push(fg.1);
                fsv.push(fg.2);
                let mut xsv: Vec<u64> = Vec::new();
                xsv.push(xg.0);
                xsv.push(xg.1);
                xsv.push(xg.2);
                let out = fun(fsv.as_slice(), xsv.as_slice());
                proof {
                    assert(fsv@ =~= seq![fg.0, fg.1, fg.2]);
                    assert(xsv@ =~= seq![xg.0, xg.1, xg.2]);
                }
                out
            };
        let c = path1_count6(&g);
        proof {
            let v = choose|v: u64|
                #[trigger] call_ensures(g, ((PS6_F0, PS6_F1, PS6_F2), (PS6_X0, PS6_X1, PS6_X2)), v) && c == bitcount((v & PS6M) as nat);
            assert(fun_result(*fun, ps6_fseq(), ps6_xseq(), v));
        }
        c as u64
    } else if n == 7 {
        let g = |fg: (u64, u64, u64, u64), xg: (u64, u64, u64)| -> (out: u64)
            requires
                forall|args: (&[u64], &[u64])| call_requires(*fun, args),
            ensures
                fun_result(*fun, seq![fg.0, fg.1, fg.2, fg.3], seq![xg.0, xg.1, xg.2], out),
            {
                let mut fsv: Vec<u64> = Vec::new();
                fsv.push(fg.0);
                fsv.push(fg.1);
                fsv.push(fg.2);
                fsv.push(fg.3);
                let mut xsv: Vec<u64> = Vec::new();
                xsv.push(xg.0);
                xsv.push(xg.1);
                xsv.push(xg.2);
                let out = fun(fsv.as_slice(), xsv.as_slice());
                proof {
                    assert(fsv@ =~= seq![fg.0, fg.1, fg.2, fg.3]);
                    assert(xsv@ =~= seq![xg.0, xg.1, xg.2]);
                }
                out
            };
        let c = path1_count7(&g);
        proof {
            let v = choose|v: u64|
                #[trigger] call_ensures(g, ((PS7_F0, PS7_F1, PS7_F2, PS7_F3), (PS7_X0, PS7_X1, PS7_X2)), v) && c == bitcount((v & PS7M) as nat);
            assert(fun_result(*fun, ps7_fseq(), ps7_xseq(), v));
        }
        c as u64
    } else if n == 8 {
        let g = |fg: (u64, u64, u64, u64), xg: (u64, u64, u64, u64)| -> (out: u64)
            requires
                forall|args: (&[u64], &[u64])| call_requires(*fun, args),
            ensures
                fun_result(*fun, seq![fg.0, fg.1, fg.2, fg.3], seq![xg.0, xg.1, xg.2, xg.3], out),
            {
                let mut fsv: Vec<u64> = Vec::new();
                fsv.push(fg.0);
                fsv.push(fg.1);
                fsv.push(fg.2);
                fsv.push(fg.3);
                let mut xsv: Vec<u64> = Vec::new();
                xsv.push(xg.0);
                xsv.push(xg.1);
                xsv.push(xg.2);
                xsv.push(xg.3);
                let out = fun(fsv.as_slice(), xsv.as_slice());
                proof {
                    assert(fsv@ =~= seq![fg.0, fg.1, fg.2, fg.3]);
                    assert(xsv@ =~= seq![xg.0, xg.1, xg.2, xg.3]);
                }
                out
            };
        let c = path1_count8(&g);
        proof {
            let (v0, v1) = choose|v0: u64, v1: u64|
                #[trigger] call_ensures(g, ((PS8A_F0, PS8A_F1, PS8A_F2, PS8A_F3), (PS8A_X0, PS8A_X1, PS8A_X2, PS8A_X3)), v0) && #[trigger] call_ensures(g, ((PS8B_F0, PS8B_F1, PS8B_F2, PS8B_F3), (PS8B_X0, PS8B_X1, PS8B_X2, PS8B_X3)), v1) && c == bitcount(v0 as nat) + bitcount((v1 & PS8M) as nat);
            assert(fun_result(*fun, ps8a_fseq(), ps8a_xseq(), v0));
            assert(fun_result(*fun, ps8b_fseq(), ps8b_xseq(), v1));
        }
        c as u64
    } else if n == 9 {
        let g = |fg: (u64, u64, u64, u64, u64), xg: (u64, u64, u64, u64)| -> (out: u64)
            requires
                forall|args: (&[u64], &[u64])| call_requires(*fun, args),
            ensures
                fun_result(*fun, seq![fg.0, fg.1, fg.2, fg.3, fg.4], seq![xg.0, xg.1, xg.2, xg.3], out),
            {
                let mut fsv: Vec<u64> = Vec::new();
                fsv.push(fg.0);
                fsv.push(fg.1);
                fsv.push(fg.2);
                fsv.push(fg.3);
                fsv.push(fg.4);
                let mut xsv: Vec<u64> = Vec::new();
                xsv.push(xg.0);
                xsv.push(xg.1);
                xsv.push(xg.2);
                xsv.push(xg.3);
                let out = fun(fsv.as_slice(), xsv.as_slice());
                proof {
                    assert(fsv@ =~= seq![fg.0, fg.1, fg.2, fg.3, fg.4]);
                    assert(xsv@ =~= seq![xg.0, xg.1, xg.2, xg.3]);
                }
                out
            };
        let c = path1_count9(&g);
        proof {
            let (v0, v1, v2) = choose|v0: u64, v1: u64, v2: u64|
                #[trigger] call_ensures(g, ((PS9A_F0, PS9A_F1, PS9A_F2, PS9A_F3, PS9A_F4), (PS9A_X0, PS9A_X1, PS9A_X2, PS9A_X3)), v0) && #[trigger] call_ensures(g, ((PS9B_F0, PS9B_F1, PS9B_F2, PS9B_F3, PS9B_F4), (PS9B_X0, PS9B_X1, PS9B_X2, PS9B_X3)), v1) && #[trigger] call_ensures(g, ((PS9C_F0, PS9C_F1, PS9C_F2, PS9C_F3, PS9C_F4), (PS9C_X0, PS9C_X1, PS9C_X2, PS9C_X3)), v2) && c == bitcount(v0 as nat) + bitcount(v1 as nat) + bitcount((v2 & PS9M) as nat);
            assert(fun_result(*fun, ps9a_fseq(), ps9a_xseq(), v0));
            assert(fun_result(*fun, ps9b_fseq(), ps9b_xseq(), v1));
            assert(fun_result(*fun, ps9c_fseq(), ps9c_xseq(), v2));
        }
        c as u64
    } else if n == 10 {
        let g = |fg: (u64, u64, u64, u64, u64), xg: (u64, u64, u64, u64, u64)| -> (out: u64)
            requires
                forall|args: (&[u64], &[u64])| call_requires(*fun, args),
            ensures
                fun_result(*fun, seq![fg.0, fg.1, fg.2, fg.3, fg.4], seq![xg.0, xg.1, xg.2, xg.3, xg.4], out),
            {
                let mut fsv: Vec<u64> = Vec::new();
                fsv.push(fg.0);
                fsv.push(fg.1);
                fsv.push(fg.2);
                fsv.push(fg.3);
                fsv.push(fg.4);
                let mut xsv: Vec<u64> = Vec::new();
                xsv.push(xg.0);
                xsv.push(xg.1);
                xsv.push(xg.2);
                xsv.push(xg.3);
                xsv.push(xg.4);
                let out = fun(fsv.as_slice(), xsv.as_slice());
                proof {
                    assert(fsv@ =~= seq![fg.0, fg.1, fg.2, fg.3, fg.4]);
                    assert(xsv@ =~= seq![xg.0, xg.1, xg.2, xg.3, xg.4]);
                }
                out
            };
        let c = path1_count10(&g);
        proof {
            let (v0, v1, v2, v3) = choose|v0: u64, v1: u64, v2: u64, v3: u64|
                #[trigger] call_ensures(g, ((PS10A_F0, PS10A_F1, PS10A_F2, PS10A_F3, PS10A_F4), (PS10A_X0, PS10A_X1, PS10A_X2, PS10A_X3, PS10A_X4)), v0) && #[trigger] call_ensures(g, ((PS10B_F0, PS10B_F1, PS10B_F2, PS10B_F3, PS10B_F4), (PS10B_X0, PS10B_X1, PS10B_X2, PS10B_X3, PS10B_X4)), v1) && #[trigger] call_ensures(g, ((PS10C_F0, PS10C_F1, PS10C_F2, PS10C_F3, PS10C_F4), (PS10C_X0, PS10C_X1, PS10C_X2, PS10C_X3, PS10C_X4)), v2) && #[trigger] call_ensures(g, ((PS10D_F0, PS10D_F1, PS10D_F2, PS10D_F3, PS10D_F4), (PS10D_X0, PS10D_X1, PS10D_X2, PS10D_X3, PS10D_X4)), v3) && c == bitcount(v0 as nat) + bitcount(v1 as nat) + bitcount(v2 as nat) + bitcount((v3 & PS10M) as nat);
            assert(fun_result(*fun, ps10a_fseq(), ps10a_xseq(), v0));
            assert(fun_result(*fun, ps10b_fseq(), ps10b_xseq(), v1));
            assert(fun_result(*fun, ps10c_fseq(), ps10c_xseq(), v2));
            assert(fun_result(*fun, ps10d_fseq(), ps10d_xseq(), v3));
        }
        c as u64
    } else {
        let x = n / 2;
        let f = n - x;
        path1_countnm(f, x, fun)
    }
}

/// The closed form `L(f, x)` fits a 64-bit word for every split the
/// generic counters take.
proof fn lemma_lennm_fits(f: usize, x: usize)
    requires
        f <= 57,
        x <= 57,
    ensures
        pow2((f + 1) as nat) + (f + 1) * (pow2(x as nat) - 2) <= u64::MAX,
{
    vstd::arithmetic::power2::lemma2_to64();
    vstd::arithmetic::power2::lemma2_to64_rest();
    if ((f + 1) as nat) < 58 {
        vstd::arithmetic::power2::lemma_pow2_strictly_increases((f + 1) as nat, 58);
    }
    if x == 0 {
        // the closed form drops below 2^(f+1) when no value propositions
        // are left
        lemma_pow2_exceeds((f + 1) as nat);
    } else {
        if (x as nat) < 57 {
            vstd::arithmetic::power2::lemma_pow2_strictly_increases(x as nat, 57);
        }
        vstd::arithmetic::mul::lemma_mul_upper_bound(
            (f + 1) as int,
            58,
            (pow2(x as nat) - 2) as int,
            pow2(57) as int,
        );
    }
}

/// Path Semantical Logic: returns `true` if proposition is correct,
/// `false` otherwise: the formula over `n` propositions, split near the
/// middle between the levels, is a tautology exactly when its count over
/// the compatible assignments reaches the closed form `L`.
pub fn path1_proven<FN: Fn(&[u64], &[u64]) -> u64>(n: usize, fun: &FN) -> (r: bool)
    requires
        n <= 114,
        forall|args: (&[u64], &[u64])| call_requires(*fun, args),
    ensures
        exists|c: u64|
            #[trigger] path1_countn_post(n, *fun, c) && r == (c == pow2((n - n / 2 + 1) as nat) + (
            n - n / 2 + 1) * (pow2((n / 2) as nat) - 2)),
{
    let x = n / 2;
    let f = n - x;
    proof {
        lemma_lennm_fits(f, x);
    }
    let c = path1_countn(n, fun);
    let l = path1_lennm(f, x);
    c == l
}

/// Path Semantical Logic: returns `true` if proposition is correct,
/// `false` otherwise: the formula over `f` function-level and `x`
/// value-level propositions is a tautology exactly when its count over
/// the compatible assignments reaches the closed form `L(f, x)`.
pub fn path1_provenm<FN: Fn(&[u64], &[u64]) -> u64>(f: usize, x: usize, fun: &FN) -> (r: bool)
    requires
        f <= 57,
        x <= 57,
        forall|args: (&[u64], &[u64])| call_requires(*fun, args),
    ensures
        exists|c: u64|
            #[trigger] path1_countnm_post(*fun, f, x, c) && r == (c == pow2((f + 1) as nat) + (f
                + 1) * (pow2(x as nat) - 2)),
{
    proof {
        lemma_lennm_fits(f, x);
    }
    let c = path1_countnm(f, x, fun);
    let l = path1_lennm(f, x);
    c == l
}

} // verus!
