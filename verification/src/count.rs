//! Counting satisfying assignments of a formula handed in as a function
//! on truth-table words.
//!
//! A formula of `K <= 6` variables is evaluated once on the axes
//! `P0..P_{K-1}`; the low `2^K` bits of the result are its truth table and
//! the population count of that window is the number of satisfying
//! assignments.  For `K > 6` the variables beyond the sixth are pinned to
//! `T` or `F` in every combination and the counts are summed.
//!
//! Each counter's contract says exactly that: the result is the population
//! count (within the relevant window) of words the formula can return on
//! the fixed argument patterns.

use crate::bits::F;
use crate::bits::P0;
use crate::bits::P1;
use crate::bits::P2;
use crate::bits::P3;
use crate::bits::P4;
use crate::bits::P5;
use crate::bits::T;
use crate::popcount::bitcount;
use crate::popcount::popcount;
use vstd::arithmetic::power2::pow2;
use vstd::prelude::*;

verus! {

/// What `count1` returns: the population count of the low `2^1` bits of a
/// word the formula can return on the axis `P0`.
pub open spec fn count1_post<FN: Fn(u64) -> u64>(f: FN, r: u32) -> bool {
    exists|v: u64| #[trigger] call_ensures(f, (P0,), v) && r == bitcount((v & 0x3) as nat)
}

/// Counts the number of solutions of a 1-argument boolean function.
pub fn count1<FN: Fn(u64) -> u64>(f: &FN) -> (r: u32)
    requires
        forall|args: (u64,)| call_requires(*f, args),
    ensures
        count1_post(*f, r),
{
    let v = f(P0);
    popcount(v & 0x3)
}

/// What `count2` returns: the population count of the low `2^2` bits of a
/// word the formula can return on the axes `P0, P1`.
pub open spec fn count2_post<FN: Fn(u64, u64) -> u64>(f: FN, r: u32) -> bool {
    exists|v: u64| #[trigger] call_ensures(f, (P0, P1), v) && r == bitcount((v & 0xf) as nat)
}

/// Counts the number of solutions of a 2-argument boolean function.
pub fn count2<FN: Fn(u64, u64) -> u64>(f: &FN) -> (r: u32)
    requires
        forall|args: (u64, u64)| call_requires(*f, args),
    ensures
        count2_post(*f, r),
{
    let v = f(P0, P1);
    popcount(v & 0xf)
}

/// What `count3` returns: the population count of the low `2^3` bits of a
/// word the formula can return on the axes `P0..P2`.
pub open spec fn count3_post<FN: Fn(u64, u64, u64) -> u64>(f: FN, r: u32) -> bool {
    exists|v: u64| #[trigger] call_ensures(f, (P0, P1, P2), v) && r == bitcount((v & 0xff) as nat)
}

/// Counts the number of solutions of a 3-argument boolean function.
pub fn count3<FN: Fn(u64, u64, u64) -> u64>(f: &FN) -> (r: u32)
    requires
        forall|args: (u64, u64, u64)| call_requires(*f, args),
    ensures
        count3_post(*f, r),
{
    let v = f(P0, P1, P2);
    popcount(v & 0xff)
}

/// What `count4` returns: the population count of the low `2^4` bits of a
/// word the formula can return on the axes `P0..P3`.
pub open spec fn count4_post<FN: Fn(u64, u64, u64, u64) -> u64>(f: FN, r: u32) -> bool {
    exists|v: u64| #[trigger] call_ensures(f, (P0, P1, P2, P3), v) && r == bitcount(
        (v & 0xffff) as nat,
    )
}

/// Counts the number of solutions of a 4-argument boolean function.
pub fn count4<FN: Fn(u64, u64, u64, u64) -> u64>(f: &FN) -> (r: u32)
    requires
        forall|args: (u64, u64, u64, u64)| call_requires(*f, args),
    ensures
        count4_post(*f, r),
{
    let v = f(P0, P1, P2, P3);
    popcount(v & 0xffff)
}

/// What `count5` returns: the population count of the low `2^5` bits of a
/// word the formula can return on the axes `P0..P4`.
pub open spec fn count5_post<FN: Fn(u64, u64, u64, u64, u64) -> u64>(f: FN, r: u32) -> bool {
    exists|v: u64| #[trigger] call_ensures(f, (P0, P1, P2, P3, P4), v) && r == bitcount(
        (v & 0xffff_ffff) as nat,
    )
}

/// Counts the number of solutions of a 5-argument boolean function.
pub fn count5<FN: Fn(u64, u64, u64, u64, u64) -> u64>(f: &FN) -> (r: u32)
    requires
        forall|args: (u64, u64, u64, u64, u64)| call_requires(*f, args),
    ensures
        count5_post(*f, r),
{
    let v = f(P0, P1, P2, P3, P4);
    popcount(v & 0xffff_ffff)
}

/// What `count6` returns: the population count of a word the formula can
/// return on the six axes; all 64 bits are rows of the truth table.
pub open spec fn count6_post<FN: Fn(u64, u64, u64, u64, u64, u64) -> u64>(f: FN, r: u32) -> bool {
    exists|v: u64| #[trigger] call_ensures(f, (P0, P1, P2, P3, P4, P5), v) && r == bitcount(
        v as nat,
    )
}

/// Counts the number of solutions of a 6-argument boolean function.
pub fn count6<FN: Fn(u64, u64, u64, u64, u64, u64) -> u64>(f: &FN) -> (r: u32)
    requires
        forall|args: (u64, u64, u64, u64, u64, u64)| call_requires(*f, args),
    ensures
        count6_post(*f, r),
{
    let v = f(P0, P1, P2, P3, P4, P5);
    popcount(v)
}

/// What `count7` returns: the summed population counts of words the
/// formula can return with the seventh variable pinned to `F` then `T`.
pub open spec fn count7_post<FN: Fn(u64, u64, u64, u64, u64, u64, u64) -> u64>(
    f: FN,
    r: u32,
) -> bool {
    exists|v0: u64, v1: u64|
        #[trigger] call_ensures(f, (P0, P1, P2, P3, P4, P5, F), v0) && #[trigger] call_ensures(
            f,
            (P0, P1, P2, P3, P4, P5, T),
            v1,
        ) && r == bitcount(v0 as nat) + bitcount(v1 as nat)
}

/// Counts the number of solutions of a 7-argument boolean function.
pub fn count7<FN: Fn(u64, u64, u64, u64, u64, u64, u64) -> u64>(f: &FN) -> (r: u32)
    requires
        forall|args: (u64, u64, u64, u64, u64, u64, u64)| call_requires(*f, args),
    ensures
        count7_post(*f, r),
{
    let v0 = f(P0, P1, P2, P3, P4, P5, F);
    let v1 = f(P0, P1, P2, P3, P4, P5, T);
    popcount(v0) + popcount(v1)
}

/// What `count8` returns: the summed population counts of words the
/// formula can return with the two extra variables pinned to each of the
/// four combinations of `F` and `T`, the earlier variable changing slowest.
pub open spec fn count8_post<FN: Fn(u64, u64, u64, u64, u64, u64, u64, u64) -> u64>(
    f: FN,
    r: u32,
) -> bool {
    exists|v0: u64, v1: u64, v2: u64, v3: u64|
        #[trigger] call_ensures(f, (P0, P1, P2, P3, P4, P5, F, F), v0) && #[trigger] call_ensures(
            f,
            (P0, P1, P2, P3, P4, P5, F, T),
            v1,
        ) && #[trigger] call_ensures(f, (P0, P1, P2, P3, P4, P5, T, F), v2)
            && #[trigger] call_ensures(f, (P0, P1, P2, P3, P4, P5, T, T), v3) && r == bitcount(
            v0 as nat,
        ) + bitcount(v1 as nat) + bitcount(v2 as nat) + bitcount(v3 as nat)
}

/// Counts the number of solutions of an 8-argument boolean function.
pub fn count8<FN: Fn(u64, u64, u64, u64, u64, u64, u64, u64) -> u64>(f: &FN) -> (r: u32)
    requires
        forall|args: (u64, u64, u64, u64, u64, u64, u64, u64)| call_requires(*f, args),
    ensures
        count8_post(*f, r),
{
    let v0 = f(P0, P1, P2, P3, P4, P5, F, F);
    let v1 = f(P0, P1, P2, P3, P4, P5, F, T);
    let v2 = f(P0, P1, P2, P3, P4, P5, T, F);
    let v3 = f(P0, P1, P2, P3, P4, P5, T, T);
    popcount(v0) + popcount(v1) + popcount(v2) + popcount(v3)
}

/// What `count9` returns: the summed population counts of words the
/// formula can return with the three extra variables pinned to each of the
/// eight combinations of `F` and `T`, the earliest changing slowest.
pub open spec fn count9_post<FN: Fn(u64, u64, u64, u64, u64, u64, u64, u64, u64) -> u64>(
    f: FN,
    r: u32,
) -> bool {
    exists|v0: u64, v1: u64, v2: u64, v3: u64, v4: u64, v5: u64, v6: u64, v7: u64|
        #[trigger] call_ensures(f, (P0, P1, P2, P3, P4, P5, F, F, F), v0)
            && #[trigger] call_ensures(f, (P0, P1, P2, P3, P4, P5, F, F, T), v1)
            && #[trigger] call_ensures(f, (P0, P1, P2, P3, P4, P5, F, T, F), v2)
            && #[trigger] call_ensures(f, (P0, P1, P2, P3, P4, P5, F, T, T), v3)
            && #[trigger] call_ensures(f, (P0, P1, P2, P3, P4, P5, T, F, F), v4)
            && #[trigger] call_ensures(f, (P0, P1, P2, P3, P4, P5, T, F, T), v5)
            && #[trigger] call_ensures(f, (P0, P1, P2, P3, P4, P5, T, T, F), v6)
            && #[trigger] call_ensures(f, (P0, P1, P2, P3, P4, P5, T, T, T), v7) && r == bitcount(
            v0 as nat,
        ) + bitcount(v1 as nat) + bitcount(v2 as nat) + bitcount(v3 as nat) + bitcount(v4 as nat)
            + bitcount(v5 as nat) + bitcount(v6 as nat) + bitcount(v7 as nat)
}

/// Counts the number of solutions of a 9-argument boolean function.
pub fn count9<FN: Fn(u64, u64, u64, u64, u64, u64, u64, u64, u64) -> u64>(f: &FN) -> (r: u32)
    requires
        forall|args: (u64, u64, u64, u64, u64, u64, u64, u64, u64)| call_requires(*f, args),
    ensures
        count9_post(*f, r),
{
    let v0 = f(P0, P1, P2, P3, P4, P5, F, F, F);
    let v1 = f(P0, P1, P2, P3, P4, P5, F, F, T);
    let v2 = f(P0, P1, P2, P3, P4, P5, F, T, F);
    let v3 = f(P0, P1, P2, P3, P4, P5, F, T, T);
    let v4 = f(P0, P1, P2, P3, P4, P5, T, F, F);
    let v5 = f(P0, P1, P2, P3, P4, P5, T, F, T);
    let v6 = f(P0, P1, P2, P3, P4, P5, T, T, F);
    let v7 = f(P0, P1, P2, P3, P4, P5, T, T, T);
    popcount(v0) + popcount(v1) + popcount(v2) + popcount(v3) + popcount(v4) + popcount(v5)
        + popcount(v6) + popcount(v7)
}

/// What `count10` returns: the summed population counts of words the
/// formula can return with the four extra variables pinned to each of the
/// sixteen combinations of `F` and `T`, the earliest changing slowest.
pub open spec fn count10_post<FN: Fn(u64, u64, u64, u64, u64, u64, u64, u64, u64, u64) -> u64>(
    f: FN,
    r: u32,
) -> bool {
    exists|
        v0: u64,
        v1: u64,
        v2: u64,
        v3: u64,
        v4: u64,
        v5: u64,
        v6: u64,
        v7: u64,
        v8: u64,
        v9: u64,
        v10: u64,
        v11: u64,
        v12: u64,
        v13: u64,
        v14: u64,
        v15: u64,
    |
        #[trigger] call_ensures(f, (P0, P1, P2, P3, P4, P5, F, F, F, F), v0)
            && #[trigger] call_ensures(f, (P0, P1, P2, P3, P4, P5, F, F, F, T), v1)
            && #[trigger] call_ensures(f, (P0, P1, P2, P3, P4, P5, F, F, T, F), v2)
            && #[trigger] call_ensures(f, (P0, P1, P2, P3, P4, P5, F, F, T, T), v3)
            && #[trigger] call_ensures(f, (P0, P1, P2, P3, P4, P5, F, T, F, F), v4)
            && #[trigger] call_ensures(f, (P0, P1, P2, P3, P4, P5, F, T, F, T), v5)
            && #[trigger] call_ensures(f, (P0, P1, P2, P3, P4, P5, F, T, T, F), v6)
            && #[trigger] call_ensures(f, (P0, P1, P2, P3, P4, P5, F, T, T, T), v7)
            && #[trigger] call_ensures(f, (P0, P1, P2, P3, P4, P5, T, F, F, F), v8)
            && #[trigger] call_ensures(f, (P0, P1, P2, P3, P4, P5, T, F, F, T), v9)
            && #[trigger] call_ensures(f, (P0, P1, P2, P3, P4, P5, T, F, T, F), v10)
            && #[trigger] call_ensures(f, (P0, P1, P2, P3, P4, P5, T, F, T, T), v11)
            && #[trigger] call_ensures(f, (P0, P1, P2, P3, P4, P5, T, T, F, F), v12)
            && #[trigger] call_ensures(f, (P0, P1, P2, P3, P4, P5, T, T, F, T), v13)
            && #[trigger] call_ensures(f, (P0, P1, P2, P3, P4, P5, T, T, T, F), v14)
            && #[trigger] call_ensures(f, (P0, P1, P2, P3, P4, P5, T, T, T, T), v15) && r
            == bitcount(v0 as nat) + bitcount(v1 as nat) + bitcount(v2 as nat) + bitcount(v3 as nat)
            + bitcount(v4 as nat) + bitcount(v5 as nat) + bitcount(v6 as nat) + bitcount(v7 as nat)
            + bitcount(v8 as nat) + bitcount(v9 as nat) + bitcount(v10 as nat) + bitcount(
            v11 as nat,
        ) + bitcount(v12 as nat) + bitcount(v13 as nat) + bitcount(v14 as nat) + bitcount(
            v15 as nat,
        )
}

/// Counts the number of solutions of a 10-argument boolean function.
pub fn count10<FN: Fn(u64, u64, u64, u64, u64, u64, u64, u64, u64, u64) -> u64>(f: &FN) -> (r: u32)
    requires
        forall|args: (u64, u64, u64, u64, u64, u64, u64, u64, u64, u64)| call_requires(*f, args),
    ensures
        count10_post(*f, r),
{
    let v0 = f(P0, P1, P2, P3, P4, P5, F, F, F, F);
    let v1 = f(P0, P1, P2, P3, P4, P5, F, F, F, T);
    let v2 = f(P0, P1, P2, P3, P4, P5, F, F, T, F);
    let v3 = f(P0, P1, P2, P3, P4, P5, F, F, T, T);
    let v4 = f(P0, P1, P2, P3, P4, P5, F, T, F, F);
    let v5 = f(P0, P1, P2, P3, P4, P5, F, T, F, T);
    let v6 = f(P0, P1, P2, P3, P4, P5, F, T, T, F);
    let v7 = f(P0, P1, P2, P3, P4, P5, F, T, T, T);
    let v8 = f(P0, P1, P2, P3, P4, P5, T, F, F, F);
    let v9 = f(P0, P1, P2, P3, P4, P5, T, F, F, T);
    let v10 = f(P0, P1, P2, P3, P4, P5, T, F, T, F);
    let v11 = f(P0, P1, P2, P3, P4, P5, T, F, T, T);
    let v12 = f(P0, P1, P2, P3, P4, P5, T, T, F, F);
    let v13 = f(P0, P1, P2, P3, P4, P5, T, T, F, T);
    let v14 = f(P0, P1, P2, P3, P4, P5, T, T, T, F);
    let v15 = f(P0, P1, P2, P3, P4, P5, T, T, T, T);
    popcount(v0) + popcount(v1) + popcount(v2) + popcount(v3) + popcount(v4) + popcount(v5)
        + popcount(v6) + popcount(v7) + popcount(v8) + popcount(v9) + popcount(v10) + popcount(v11)
        + popcount(v12) + popcount(v13) + popcount(v14) + popcount(v15)
}

/// The fixed truth-table axis handed to variable `j` of a formula of up
/// to six variables.
pub open spec fn axis(j: int) -> u64 {
    if j == 0 {
        P0
    } else if j == 1 {
        P1
    } else if j == 2 {
        P2
    } else if j == 3 {
        P3
    } else if j == 4 {
        P4
    } else {
        P5
    }
}

/// The first `n` truth-table axes, in order.
pub open spec fn axes_seq(n: int) -> Seq<u64> {
    Seq::new(n as nat, |j: int| axis(j))
}

/// The truth-table window of an `n`-variable formula, `n` in `1..=5`: the
/// mask of the low `2^n` bits.
pub open spec fn mask_of(n: usize) -> u64 {
    if n == 1 {
        0x3
    } else if n == 2 {
        0xf
    } else if n == 3 {
        0xff
    } else if n == 4 {
        0xffff
    } else {
        0xffff_ffff
    }
}

/// The word handed to variable `j` in the `i`-th of the `2^(n-6)`
/// evaluations of an `n`-variable formula, `n >= 7`.  The first six
/// variables get the table axes; the rest are pinned to `T` or `F` from
/// the bits of `i`, the seventh variable changing slowest.
pub open spec fn ext_arg(n: int, i: int, j: int) -> u64 {
    if j < 6 {
        axis(j)
    } else if ((i / pow2((n - 1 - j) as nat) as int) % 2) == 1 {
        T
    } else {
        F
    }
}

/// All `n` argument words of the `i`-th evaluation of an `n`-variable
/// formula, `n >= 7`.
pub open spec fn ext_args(n: int, i: int) -> Seq<u64> {
    Seq::new(n as nat, |j: int| ext_arg(n, i, j))
}

/// Holds when `v` is a word the formula can return on the argument words
/// of the `i`-th evaluation.
pub open spec fn arg_result<FN: Fn(&[u64]) -> u64>(f: FN, n: int, i: int, v: u64) -> bool {
    exists|s: &[u64]| s@ == ext_args(n, i) && #[trigger] call_ensures(f, (s,), v)
}

/// The summed population counts of a sequence of words.
pub open spec fn sum_bitcount(vals: Seq<u64>) -> nat
    decreases vals.len(),
{
    if vals.len() == 0 {
        0
    } else {
        sum_bitcount(vals.drop_last()) + bitcount(vals.last() as nat)
    }
}

/// What `countn` returns.  A formula of no variables is evaluated once on
/// no arguments and the whole word is counted; up to six variables are
/// evaluated once on the axes and the truth-table window is counted;
/// beyond six, the counts of all `2^(n-6)` pinnings of the extra
/// variables are summed.
pub open spec fn countn_post<FN: Fn(&[u64]) -> u64>(n: usize, f: FN, r: u64) -> bool {
    if n == 0 {
        exists|s: &[u64], v: u64|
            s@ == Seq::<u64>::empty() && #[trigger] call_ensures(f, (s,), v) && r == bitcount(
                v as nat,
            )
    } else if n <= 5 {
        exists|s: &[u64], v: u64|
            s@ == axes_seq(n as int) && #[trigger] call_ensures(f, (s,), v) && r == bitcount(
                (v & mask_of(n)) as nat,
            )
    } else if n == 6 {
        exists|s: &[u64], v: u64|
            s@ == axes_seq(6) && #[trigger] call_ensures(f, (s,), v) && r == bitcount(v as nat)
    } else {
        exists|vals: Seq<u64>|
            #[trigger] sum_bitcount(vals) == r && vals.len() == pow2((n - 6) as nat) && (forall|
                i: int,
            |
                0 <= i < vals.len() ==> arg_result(f, n as int, i, vals[i]))
    }
}

/// An a-priori bound on `countn`'s result: one evaluation contributes at
/// most 64 rows, and there are `2^(n-6)` evaluations beyond six variables.
pub open spec fn countn_bound(n: usize, r: u64) -> bool {
    if n <= 6 {
        r <= 64
    } else {
        r <= 64 * pow2((n - 6) as nat)
    }
}

/// Counts the number of solutions of an n-argument boolean function.
pub fn countn<FN: Fn(&[u64]) -> u64>(n: usize, f: &FN) -> (r: u64)
    requires
        n <= 63,
        forall|s: &[u64]| s@.len() == n ==> call_requires(*f, (s,)),
    ensures
        countn_post(n, *f, r),
        countn_bound(n, r),
{
    if n == 0 {
        let args: Vec<u64> = Vec::new();
        let v = f(args.as_slice());
        proof {
            assert(args@ =~= Seq::<u64>::empty());
        }
        popcount(v) as u64
    } else if n <= 6 {
        let mut args: Vec<u64> = Vec::new();
        args.push(P0);
        if n >= 2 {
            args.push(P1);
        }
        if n >= 3 {
            args.push(P2);
        }
        if n >= 4 {
            args.push(P3);
        }
        if n >= 5 {
            args.push(P4);
        }
        if n == 6 {
            args.push(P5);
        }
        proof {
            assert(args@ =~= axes_seq(n as int));
        }
        let v = f(args.as_slice());
        let c = if n == 1 {
            popcount(v & 0x3)
        } else if n == 2 {
            popcount(v & 0xf)
        } else if n == 3 {
            popcount(v & 0xff)
        } else if n == 4 {
            popcount(v & 0xffff)
        } else if n == 5 {
            popcount(v & 0xffff_ffff)
        } else {
            popcount(v)
        };
        c as u64
    } else {
        let m = n - 6;
        proof {
            vstd::bits::lemma_u64_pow2_no_overflow(m as nat);
            vstd::bits::lemma_u64_shl_is_mul(1u64, m as u64);
            vstd::arithmetic::power2::lemma_pow2_adds(6, m as nat);
            vstd::arithmetic::power2::lemma2_to64();
            vstd::arithmetic::power2::lemma2_to64_rest();
            if (n as nat) < 63 {
                vstd::arithmetic::power2::lemma_pow2_strictly_increases(n as nat, 63);
            }
        }
        let total: u64 = 1u64 << (m as u64);
        let mut sum: u64 = 0;
        let mut i: u64 = 0;
        let ghost mut vals: Seq<u64> = Seq::<u64>::empty();
        while i < total
            invariant
                7 <= n <= 63,
                m == n - 6,
                total == pow2(m as nat),
                64 * total <= u64::MAX,
                forall|s: &[u64]| s@.len() == n ==> call_requires(*f, (s,)),
                i <= total,
                vals.len() == i,
                forall|k: int| 0 <= k < i ==> arg_result(*f, n as int, k, vals[k]),
                sum == sum_bitcount(vals),
                sum <= 64 * i,
            decreases total - i,
        {
            let mut args: Vec<u64> = Vec::new();
            args.push(P0);
            args.push(P1);
            args.push(P2);
            args.push(P3);
            args.push(P4);
            args.push(P5);
            let mut j: usize = 6;
            while j < n
                invariant
                    6 <= j <= n,
                    7 <= n <= 63,
                    args@.len() == j,
                    forall|q: int| 0 <= q < j ==> args@[q] == ext_arg(n as int, i as int, q),
                decreases n - j,
            {
                let b = (n - 1 - j) as u64;
                proof {
                    vstd::bits::lemma_u64_shr_is_div(i, b);
                    vstd::bits::lemma_u64_low_bits_mask_is_mod(i >> b, 1);
                    vstd::bits::lemma_low_bits_mask_values();
                    vstd::arithmetic::power2::lemma2_to64();
                }
                let w = if ((i >> b) & 1) == 1 {
                    T
                } else {
                    F
                };
                args.push(w);
                j = j + 1;
            }
            proof {
                assert(args@ =~= ext_args(n as int, i as int));
            }
            let v = f(args.as_slice());
            let c = popcount(v);
            proof {
                let old_vals = vals;
                vals = vals.push(v);
                assert(vals.drop_last() =~= old_vals);
            }
            sum = sum + c as u64;
            i = i + 1;
        }
        sum
    }
}

/// The value `countn` returns on a formula that computes a fixed word
/// function `hw` of its argument words.
pub open spec fn countn_value(n: usize, hw: spec_fn(Seq<u64>) -> u64) -> nat {
    if n == 0 {
        bitcount(hw(Seq::<u64>::empty()) as nat)
    } else if n <= 5 {
        bitcount((hw(axes_seq(n as int)) & mask_of(n)) as nat)
    } else if n == 6 {
        bitcount(hw(axes_seq(6)) as nat)
    } else {
        sum_bitcount(Seq::new(pow2((n - 6) as nat), |i: int| hw(ext_args(n as int, i))))
    }
}

/// For a formula whose output is a fixed word function of its argument
/// words, the counter's contract pins the exact value.
pub proof fn lemma_countn_post_determined<FN: Fn(&[u64]) -> u64>(
    n: usize,
    f: FN,
    r: u64,
    hw: spec_fn(Seq<u64>) -> u64,
)
    requires
        countn_post(n, f, r),
        forall|s: &[u64], v: u64| #[trigger] call_ensures(f, (s,), v) ==> v == hw(s@),
    ensures
        r == countn_value(n, hw),
{
    if n == 0 {
        let (s, v) = choose|s: &[u64], v: u64|
            s@ == Seq::<u64>::empty() && #[trigger] call_ensures(f, (s,), v) && r == bitcount(
                v as nat,
            );
    } else if n <= 5 {
        let (s, v) = choose|s: &[u64], v: u64|
            s@ == axes_seq(n as int) && #[trigger] call_ensures(f, (s,), v) && r == bitcount(
                (v & mask_of(n)) as nat,
            );
    } else if n == 6 {
        let (s, v) = choose|s: &[u64], v: u64|
            s@ == axes_seq(6) && #[trigger] call_ensures(f, (s,), v) && r == bitcount(v as nat);
    } else {
        let vals = choose|vals: Seq<u64>|
            #[trigger] sum_bitcount(vals) == r && vals.len() == pow2((n - 6) as nat) && (forall|
                i: int,
            |
                0 <= i < vals.len() ==> arg_result(f, n as int, i, vals[i]));
        assert forall|i: int| 0 <= i < vals.len() implies vals[i] == hw(
            ext_args(n as int, i),
        ) by {
            assert(arg_result(f, n as int, i, vals[i]));
            let s = choose|s: &[u64]|
                s@ == ext_args(n as int, i) && #[trigger] call_ensures(f, (s,), vals[i]);
        }
        assert(vals =~= Seq::new(pow2((n - 6) as nat), |i: int| hw(ext_args(n as int, i))));
    }
}

/// Returns `true` if proposition is correct, `false` otherwise: the
/// n-variable formula is a tautology exactly when its count is `2^n`.
pub fn proven<FN: Fn(&[u64]) -> u64>(n: usize, f: &FN) -> (r: bool)
    requires
        n <= 63,
        forall|s: &[u64]| s@.len() == n ==> call_requires(*f, (s,)),
    ensures
        exists|c: u64| #[trigger] countn_post(n, *f, c) && r == (c == pow2(n as nat)),
{
    proof {
        vstd::bits::lemma_u64_pow2_no_overflow(n as nat);
        vstd::bits::lemma_u64_shl_is_mul(1u64, n as u64);
    }
    countn(n, f) == 1u64 << (n as u64)
}

/// Returns `true` if proposition is correct, `false` otherwise: the
/// 1-variable formula is a tautology exactly when its count is `2^1`.
pub fn prove1<FN: Fn(u64) -> u64>(f: &FN) -> (r: bool)
    requires
        forall|args: (u64,)| call_requires(*f, args),
    ensures
        exists|c: u32| #[trigger] count1_post(*f, c) && r == (c == 2),
{
    count1(f) == 2
}

/// Returns `true` if proposition is correct, `false` otherwise: the
/// 2-variable formula is a tautology exactly when its count is `2^2`.
pub fn prove2<FN: Fn(u64, u64) -> u64>(f: &FN) -> (r: bool)
    requires
        forall|args: (u64, u64)| call_requires(*f, args),
    ensures
        exists|c: u32| #[trigger] count2_post(*f, c) && r == (c == 4),
{
    count2(f) == 4
}

/// Returns `true` if proposition is correct, `false` otherwise: the
/// 3-variable formula is a tautology exactly when its count is `2^3`.
pub fn prove3<FN: Fn(u64, u64, u64) -> u64>(f: &FN) -> (r: bool)
    requires
        forall|args: (u64, u64, u64)| call_requires(*f, args),
    ensures
        exists|c: u32| #[trigger] count3_post(*f, c) && r == (c == 8),
{
    count3(f) == 8
}

/// Returns `true` if proposition is correct, `false` otherwise: the
/// 4-variable formula is a tautology exactly when its count is `2^4`.
pub fn prove4<FN: Fn(u64, u64, u64, u64) -> u64>(f: &FN) -> (r: bool)
    requires
        forall|args: (u64, u64, u64, u64)| call_requires(*f, args),
    ensures
        exists|c: u32| #[trigger] count4_post(*f, c) && r == (c == 16),
{
    count4(f) == 16
}

/// Returns `true` if proposition is correct, `false` otherwise: the
/// 5-variable formula is a tautology exactly when its count is `2^5`.
pub fn prove5<FN: Fn(u64, u64, u64, u64, u64) -> u64>(f: &FN) -> (r: bool)
    requires
        forall|args: (u64, u64, u64, u64, u64)| call_requires(*f, args),
    ensures
        exists|c: u32| #[trigger] count5_post(*f, c) && r == (c == 32),
{
    count5(f) == 32
}

/// Returns `true` if proposition is correct, `false` otherwise: the
/// 6-variable formula is a tautology exactly when its count is `2^6`.
pub fn prove6<FN: Fn(u64, u64, u64, u64, u64, u64) -> u64>(f: &FN) -> (r: bool)
    requires
        forall|args: (u64, u64, u64, u64, u64, u64)| call_requires(*f, args),
    ensures
        exists|c: u32| #[trigger] count6_post(*f, c) && r == (c == 64),
{
    count6(f) == 64
}

/// Returns `true` if proposition is correct, `false` otherwise: the
/// 7-variable formula is a tautology exactly when its count is `2^7`.
pub fn prove7<FN: Fn(u64, u64, u64, u64, u64, u64, u64) -> u64>(f: &FN) -> (r: bool)
    requires
        forall|args: (u64, u64, u64, u64, u64, u64, u64)| call_requires(*f, args),
    ensures
        exists|c: u32| #[trigger] count7_post(*f, c) && r == (c == 128),
{
    count7(f) == 128
}

/// Returns `true` if proposition is correct, `false` otherwise: the
/// 8-variable formula is a tautology exactly when its count is `2^8`.
pub fn prove8<FN: Fn(u64, u64, u64, u64, u64, u64, u64, u64) -> u64>(f: &FN) -> (r: bool)
    requires
        forall|args: (u64, u64, u64, u64, u64, u64, u64, u64)| call_requires(*f, args),
    ensures
        exists|c: u32| #[trigger] count8_post(*f, c) && r == (c == 256),
{
    count8(f) == 256
}

/// Returns `true` if proposition is correct, `false` otherwise: the
/// 9-variable formula is a tautology exactly when its count is `2^9`.
pub fn prove9<FN: Fn(u64, u64, u64, u64, u64, u64, u64, u64, u64) -> u64>(f: &FN) -> (r: bool)
    requires
        forall|args: (u64, u64, u64, u64, u64, u64, u64, u64, u64)| call_requires(*f, args),
    ensures
        exists|c: u32| #[trigger] count9_post(*f, c) && r == (c == 512),
{
    count9(f) == 512
}

/// Returns `true` if proposition is correct, `false` otherwise: the
/// 10-variable formula is a tautology exactly when its count is `2^10`.
pub fn prove10<FN: Fn(u64, u64, u64, u64, u64, u64, u64, u64, u64, u64) -> u64>(f: &FN) -> (r:
    bool)
    requires
        forall|args: (u64, u64, u64, u64, u64, u64, u64, u64, u64, u64)| call_requires(*f, args),
    ensures
        exists|c: u32| #[trigger] count10_post(*f, c) && r == (c == 1024),
{
    count10(f) == 1024
}

} // verus!
