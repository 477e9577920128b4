//! Laws of the counters and provers, proved once and for all from their
//! contracts: what they return on constant formulas, and that the n-ary
//! counter agrees with the fixed-arity ones.

use crate::bits::F;
use crate::bits::P0;
use crate::bits::P1;
use crate::bits::P2;
use crate::bits::P3;
use crate::bits::P4;
use crate::bits::P5;
use crate::bits::T;
use crate::bitlemmas::lemma_and_units;
use crate::count::arg_result;
use crate::count::count1_post;
use crate::count::count2_post;
use crate::count::count3_post;
use crate::count::count4_post;
use crate::count::count5_post;
use crate::count::count6_post;
use crate::count::count7_post;
use crate::count::count8_post;
use crate::count::count9_post;
use crate::count::count10_post;
use crate::count::axes_seq;
use crate::count::countn_post;
use crate::count::ext_args;
use crate::count::mask_of;
use crate::count::sum_bitcount;
use crate::popcount::bitcount;
use crate::popcount::lemma_bitcount_windows;
use vstd::arithmetic::power2::lemma2_to64;
use vstd::arithmetic::power2::pow2;
use vstd::prelude::*;

verus! {

/// If the formula can only return the constant word `c`, `count1` counts
/// the set bits of `c`'s truth-table window.
pub proof fn lemma_count1_const<FN: Fn(u64) -> u64>(f: FN, r: u32, c: u64)
    requires
        count1_post(f, r),
        forall|args: (u64,), v: u64| #[trigger] call_ensures(f, args, v) ==> v == c,
    ensures
        r == bitcount((c & 0x3) as nat),
{
}

/// If the formula can only return the constant word `c`, `count2` counts
/// the set bits of `c`'s truth-table window.
pub proof fn lemma_count2_const<FN: Fn(u64, u64) -> u64>(f: FN, r: u32, c: u64)
    requires
        count2_post(f, r),
        forall|args: (u64, u64), v: u64| #[trigger] call_ensures(f, args, v) ==> v == c,
    ensures
        r == bitcount((c & 0xf) as nat),
{
}

/// If the formula can only return the constant word `c`, `count3` counts
/// the set bits of `c`'s truth-table window.
pub proof fn lemma_count3_const<FN: Fn(u64, u64, u64) -> u64>(f: FN, r: u32, c: u64)
    requires
        count3_post(f, r),
        forall|args: (u64, u64, u64), v: u64| #[trigger] call_ensures(f, args, v) ==> v == c,
    ensures
        r == bitcount((c & 0xff) as nat),
{
}

/// If the formula can only return the constant word `c`, `count4` counts
/// the set bits of `c`'s truth-table window.
pub proof fn lemma_count4_const<FN: Fn(u64, u64, u64, u64) -> u64>(f: FN, r: u32, c: u64)
    requires
        count4_post(f, r),
        forall|args: (u64, u64, u64, u64), v: u64| #[trigger] call_ensures(f, args, v) ==> v == c,
    ensures
        r == bitcount((c & 0xffff) as nat),
{
}

/// If the formula can only return the constant word `c`, `count5` counts
/// the set bits of `c`'s truth-table window.
pub proof fn lemma_count5_const<FN: Fn(u64, u64, u64, u64, u64) -> u64>(f: FN, r: u32, c: u64)
    requires
        count5_post(f, r),
        forall|args: (u64, u64, u64, u64, u64), v: u64|
            #[trigger] call_ensures(f, args, v) ==> v == c,
    ensures
        r == bitcount((c & 0xffff_ffff) as nat),
{
}

/// If the formula can only return the constant word `c`, `count6` counts
/// the set bits of `c`.
pub proof fn lemma_count6_const<FN: Fn(u64, u64, u64, u64, u64, u64) -> u64>(f: FN, r: u32, c: u64)
    requires
        count6_post(f, r),
        forall|args: (u64, u64, u64, u64, u64, u64), v: u64|
            #[trigger] call_ensures(f, args, v) ==> v == c,
    ensures
        r == bitcount(c as nat),
{
}

/// If the formula can only return the constant word `c`, `count7` counts
/// the set bits of `c` twice.
pub proof fn lemma_count7_const<FN: Fn(u64, u64, u64, u64, u64, u64, u64) -> u64>(
    f: FN,
    r: u32,
    c: u64,
)
    requires
        count7_post(f, r),
        forall|args: (u64, u64, u64, u64, u64, u64, u64), v: u64|
            #[trigger] call_ensures(f, args, v) ==> v == c,
    ensures
        r == 2 * bitcount(c as nat),
{
}

/// If the formula can only return the constant word `c`, `count8` counts
/// the set bits of `c` four times.
pub proof fn lemma_count8_const<FN: Fn(u64, u64, u64, u64, u64, u64, u64, u64) -> u64>(
    f: FN,
    r: u32,
    c: u64,
)
    requires
        count8_post(f, r),
        forall|args: (u64, u64, u64, u64, u64, u64, u64, u64), v: u64|
            #[trigger] call_ensures(f, args, v) ==> v == c,
    ensures
        r == 4 * bitcount(c as nat),
{
}

/// If the formula can only return the constant word `c`, `count9` counts
/// the set bits of `c` eight times.
pub proof fn lemma_count9_const<FN: Fn(u64, u64, u64, u64, u64, u64, u64, u64, u64) -> u64>(
    f: FN,
    r: u32,
    c: u64,
)
    requires
        count9_post(f, r),
        forall|args: (u64, u64, u64, u64, u64, u64, u64, u64, u64), v: u64|
            #[trigger] call_ensures(f, args, v) ==> v == c,
    ensures
        r == 8 * bitcount(c as nat),
{
}

/// If the formula can only return the constant word `c`, `count10` counts
/// the set bits of `c` sixteen times.
pub proof fn lemma_count10_const<FN: Fn(u64, u64, u64, u64, u64, u64, u64, u64, u64, u64) -> u64>(
    f: FN,
    r: u32,
    c: u64,
)
    requires
        count10_post(f, r),
        forall|args: (u64, u64, u64, u64, u64, u64, u64, u64, u64, u64), v: u64|
            #[trigger] call_ensures(f, args, v) ==> v == c,
    ensures
        r == 16 * bitcount(c as nat),
{
}

/// The constant-`T` formula of one variable counts `2^1` solutions, and
/// the constant-`F` formula counts none.
pub proof fn lemma_count1_units<FN: Fn(u64) -> u64>(f: FN, r: u32, c: u64)
    requires
        count1_post(f, r),
        forall|args: (u64,), v: u64| #[trigger] call_ensures(f, args, v) ==> v == c,
    ensures
        c == T ==> r == 2,
        c == F ==> r == 0,
{
    lemma_count1_const(f, r, c);
    lemma_and_units(0x3);
    lemma_bitcount_windows();
}

/// The constant-`T` formula of two variables counts `2^2` solutions, and
/// the constant-`F` formula counts none.
pub proof fn lemma_count2_units<FN: Fn(u64, u64) -> u64>(f: FN, r: u32, c: u64)
    requires
        count2_post(f, r),
        forall|args: (u64, u64), v: u64| #[trigger] call_ensures(f, args, v) ==> v == c,
    ensures
        c == T ==> r == 4,
        c == F ==> r == 0,
{
    lemma_count2_const(f, r, c);
    lemma_and_units(0xf);
    lemma_bitcount_windows();
}

/// The constant-`T` formula of three variables counts `2^3` solutions,
/// and the constant-`F` formula counts none.
pub proof fn lemma_count3_units<FN: Fn(u64, u64, u64) -> u64>(f: FN, r: u32, c: u64)
    requires
        count3_post(f, r),
        forall|args: (u64, u64, u64), v: u64| #[trigger] call_ensures(f, args, v) ==> v == c,
    ensures
        c == T ==> r == 8,
        c == F ==> r == 0,
{
    lemma_count3_const(f, r, c);
    lemma_and_units(0xff);
    lemma_bitcount_windows();
}

/// The constant-`T` formula of four variables counts `2^4` solutions, and
/// the constant-`F` formula counts none.
pub proof fn lemma_count4_units<FN: Fn(u64, u64, u64, u64) -> u64>(f: FN, r: u32, c: u64)
    requires
        count4_post(f, r),
        forall|args: (u64, u64, u64, u64), v: u64| #[trigger] call_ensures(f, args, v) ==> v == c,
    ensures
        c == T ==> r == 16,
        c == F ==> r == 0,
{
    lemma_count4_const(f, r, c);
    lemma_and_units(0xffff);
    lemma_bitcount_windows();
}

/// The constant-`T` formula of five variables counts `2^5` solutions, and
/// the constant-`F` formula counts none.
pub proof fn lemma_count5_units<FN: Fn(u64, u64, u64, u64, u64) -> u64>(f: FN, r: u32, c: u64)
    requires
        count5_post(f, r),
        forall|args: (u64, u64, u64, u64, u64), v: u64|
            #[trigger] call_ensures(f, args, v) ==> v == c,
    ensures
        c == T ==> r == 32,
        c == F ==> r == 0,
{
    lemma_count5_const(f, r, c);
    lemma_and_units(0xffff_ffff);
    lemma_bitcount_windows();
}

/// The constant-`T` formula of six variables counts `2^6` solutions, and
/// the constant-`F` formula counts none.
pub proof fn lemma_count6_units<FN: Fn(u64, u64, u64, u64, u64, u64) -> u64>(f: FN, r: u32, c: u64)
    requires
        count6_post(f, r),
        forall|args: (u64, u64, u64, u64, u64, u64), v: u64|
            #[trigger] call_ensures(f, args, v) ==> v == c,
    ensures
        c == T ==> r == 64,
        c == F ==> r == 0,
{
    lemma_count6_const(f, r, c);
    lemma_bitcount_windows();
}

/// The constant-`T` formula of seven variables counts `2^7` solutions,
/// and the constant-`F` formula counts none.
pub proof fn lemma_count7_units<FN: Fn(u64, u64, u64, u64, u64, u64, u64) -> u64>(
    f: FN,
    r: u32,
    c: u64,
)
    requires
        count7_post(f, r),
        forall|args: (u64, u64, u64, u64, u64, u64, u64), v: u64|
            #[trigger] call_ensures(f, args, v) ==> v == c,
    ensures
        c == T ==> r == 128,
        c == F ==> r == 0,
{
    lemma_count7_const(f, r, c);
    lemma_bitcount_windows();
}

/// The constant-`T` formula of eight variables counts `2^8` solutions,
/// and the constant-`F` formula counts none.
pub proof fn lemma_count8_units<FN: Fn(u64, u64, u64, u64, u64, u64, u64, u64) -> u64>(
    f: FN,
    r: u32,
    c: u64,
)
    requires
        count8_post(f, r),
        forall|args: (u64, u64, u64, u64, u64, u64, u64, u64), v: u64|
            #[trigger] call_ensures(f, args, v) ==> v == c,
    ensures
        c == T ==> r == 256,
        c == F ==> r == 0,
{
    lemma_count8_const(f, r, c);
    lemma_bitcount_windows();
}

/// The constant-`T` formula of nine variables counts `2^9` solutions, and
/// the constant-`F` formula counts none.
pub proof fn lemma_count9_units<FN: Fn(u64, u64, u64, u64, u64, u64, u64, u64, u64) -> u64>(
    f: FN,
    r: u32,
    c: u64,
)
    requires
        count9_post(f, r),
        forall|args: (u64, u64, u64, u64, u64, u64, u64, u64, u64), v: u64|
            #[trigger] call_ensures(f, args, v) ==> v == c,
    ensures
        c == T ==> r == 512,
        c == F ==> r == 0,
{
    lemma_count9_const(f, r, c);
    lemma_bitcount_windows();
}

/// The constant-`T` formula of ten variables counts `2^10` solutions, and
/// the constant-`F` formula counts none.
pub proof fn lemma_count10_units<FN: Fn(u64, u64, u64, u64, u64, u64, u64, u64, u64, u64) -> u64>(
    f: FN,
    r: u32,
    c: u64,
)
    requires
        count10_post(f, r),
        forall|args: (u64, u64, u64, u64, u64, u64, u64, u64, u64, u64), v: u64|
            #[trigger] call_ensures(f, args, v) ==> v == c,
    ensures
        c == T ==> r == 1024,
        c == F ==> r == 0,
{
    lemma_count10_const(f, r, c);
    lemma_bitcount_windows();
}

/// The summed population count of a constant sequence of words.
proof fn lemma_sum_bitcount_const(vals: Seq<u64>, c: u64)
    requires
        forall|i: int| 0 <= i < vals.len() ==> vals[i] == c,
    ensures
        sum_bitcount(vals) == vals.len() * bitcount(c as nat),
    decreases vals.len(),
{
    if vals.len() > 0 {
        lemma_sum_bitcount_const(vals.drop_last(), c);
        vstd::arithmetic::mul::lemma_mul_is_distributive_add_other_way(
            bitcount(c as nat) as int,
            vals.len() - 1,
            1,
        );
    }
}

/// The constant-`T` formula of `n >= 1` variables counts `2^n` solutions,
/// and the constant-`F` formula counts none, for every `n` the n-ary
/// counter takes.
pub proof fn lemma_countn_units<FN: Fn(&[u64]) -> u64>(n: usize, f: FN, r: u64, c: u64)
    requires
        n <= 63,
        countn_post(n, f, r),
        forall|args: (&[u64],), v: u64| #[trigger] call_ensures(f, args, v) ==> v == c,
    ensures
        c == T && 1 <= n ==> r == pow2(n as nat),
        c == F ==> r == 0,
{
    lemma_bitcount_windows();
    lemma2_to64();
    if n == 0 {
    } else if n <= 5 {
        lemma_and_units(crate::count::mask_of(n));
    } else if n == 6 {
    } else {
        let vals = choose|vals: Seq<u64>|
            #[trigger] sum_bitcount(vals) == r && vals.len() == pow2((n - 6) as nat) && (forall|
                i: int,
            |
                0 <= i < vals.len() ==> arg_result(f, n as int, i, vals[i]));
        assert forall|i: int| 0 <= i < vals.len() implies vals[i] == c by {
            let s = choose|s: &[u64]|
                s@ == ext_args(n as int, i) && #[trigger] call_ensures(f, (s,), vals[i]);
        }
        lemma_sum_bitcount_const(vals, c);
        vstd::arithmetic::power2::lemma_pow2_adds((n - 6) as nat, 6);
    }
}

/// The n-ary prover accepts the constant-`T` formula of `n >= 1`
/// variables and rejects the constant-`F` formula.
pub proof fn lemma_proven_units<FN: Fn(&[u64]) -> u64>(n: usize, f: FN, r: bool, c: u64)
    requires
        n <= 63,
        exists|cc: u64| #[trigger] countn_post(n, f, cc) && r == (cc == pow2(n as nat)),
        forall|args: (&[u64],), v: u64| #[trigger] call_ensures(f, args, v) ==> v == c,
    ensures
        c == T && 1 <= n ==> r == true,
        c == F ==> r == false,
{
    let cc = choose|cc: u64| #[trigger] countn_post(n, f, cc) && r == (cc == pow2(n as nat));
    lemma_countn_units(n, f, cc, c);
    vstd::arithmetic::power2::lemma_pow2_pos(n as nat);
}

/// On the same deterministic formula of one variable, `count1` and
/// `countn` agree: `g` is the slice-taking form of `f`.
pub proof fn lemma_count1_countn_agree<FN: Fn(u64) -> u64, GN: Fn(&[u64]) -> u64>(
    f: FN,
    g: GN,
    rf: u32,
    rg: u64,
)
    requires
        count1_post(f, rf),
        countn_post(1, g, rg),
        forall|args: (u64,), v1: u64, v2: u64|
            #[trigger] call_ensures(f, args, v1) && #[trigger] call_ensures(f, args, v2) ==> v1
                == v2,
        forall|s: &[u64], v: u64|
            s@.len() == 1 && #[trigger] call_ensures(g, (s,), v) ==> call_ensures(f, (s@[0],), v),
    ensures
        rf == rg,
{
    let (s, v) = choose|s: &[u64], v: u64|
        s@ == axes_seq(1) && #[trigger] call_ensures(g, (s,), v) && rg == bitcount(
            (v & mask_of(1)) as nat,
        );
    assert(s@[0] == P0);
    assert(call_ensures(f, (P0,), v));
}

/// On the same deterministic formula of two variables, `count2` and
/// `countn` agree: `g` is the slice-taking form of `f`.
pub proof fn lemma_count2_countn_agree<FN: Fn(u64, u64) -> u64, GN: Fn(&[u64]) -> u64>(
    f: FN,
    g: GN,
    rf: u32,
    rg: u64,
)
    requires
        count2_post(f, rf),
        countn_post(2, g, rg),
        forall|args: (u64, u64), v1: u64, v2: u64|
            #[trigger] call_ensures(f, args, v1) && #[trigger] call_ensures(f, args, v2) ==> v1
                == v2,
        forall|s: &[u64], v: u64|
            s@.len() == 2 && #[trigger] call_ensures(g, (s,), v) ==> call_ensures(
                f,
                (s@[0], s@[1]),
                v,
            ),
    ensures
        rf == rg,
{
    let (s, v) = choose|s: &[u64], v: u64|
        s@ == axes_seq(2) && #[trigger] call_ensures(g, (s,), v) && rg == bitcount(
            (v & mask_of(2)) as nat,
        );
    assert(s@[0] == P0 && s@[1] == P1);
    assert(call_ensures(f, (P0, P1), v));
}

/// On the same deterministic formula of three variables, `count3` and
/// `countn` agree: `g` is the slice-taking form of `f`.
pub proof fn lemma_count3_countn_agree<FN: Fn(u64, u64, u64) -> u64, GN: Fn(&[u64]) -> u64>(
    f: FN,
    g: GN,
    rf: u32,
    rg: u64,
)
    requires
        count3_post(f, rf),
        countn_post(3, g, rg),
        forall|args: (u64, u64, u64), v1: u64, v2: u64|
            #[trigger] call_ensures(f, args, v1) && #[trigger] call_ensures(f, args, v2) ==> v1
                == v2,
        forall|s: &[u64], v: u64|
            s@.len() == 3 && #[trigger] call_ensures(g, (s,), v) ==> call_ensures(
                f,
                (s@[0], s@[1], s@[2]),
                v,
            ),
    ensures
        rf == rg,
{
    let (s, v) = choose|s: &[u64], v: u64|
        s@ == axes_seq(3) && #[trigger] call_ensures(g, (s,), v) && rg == bitcount(
            (v & mask_of(3)) as nat,
        );
    assert(s@[0] == P0 && s@[1] == P1 && s@[2] == P2);
    assert(call_ensures(f, (P0, P1, P2), v));
}

/// On the same deterministic formula of four variables, `count4` and
/// `countn` agree: `g` is the slice-taking form of `f`.
pub proof fn lemma_count4_countn_agree<FN: Fn(u64, u64, u64, u64) -> u64, GN: Fn(&[u64]) -> u64>(
    f: FN,
    g: GN,
    rf: u32,
    rg: u64,
)
    requires
        count4_post(f, rf),
        countn_post(4, g, rg),
        forall|args: (u64, u64, u64, u64), v1: u64, v2: u64|
            #[trigger] call_ensures(f, args, v1) && #[trigger] call_ensures(f, args, v2) ==> v1
                == v2,
        forall|s: &[u64], v: u64|
            s@.len() == 4 && #[trigger] call_ensures(g, (s,), v) ==> call_ensures(
                f,
                (s@[0], s@[1], s@[2], s@[3]),
                v,
            ),
    ensures
        rf == rg,
{
    let (s, v) = choose|s: &[u64], v: u64|
        s@ == axes_seq(4) && #[trigger] call_ensures(g, (s,), v) && rg == bitcount(
            (v & mask_of(4)) as nat,
        );
    assert(s@[0] == P0 && s@[1] == P1 && s@[2] == P2 && s@[3] == P3);
    assert(call_ensures(f, (P0, P1, P2, P3), v));
}

/// On the same deterministic formula of five variables, `count5` and
/// `countn` agree: `g` is the slice-taking form of `f`.
pub proof fn lemma_count5_countn_agree<
    FN: Fn(u64, u64, u64, u64, u64) -> u64,
    GN: Fn(&[u64]) -> u64,
>(f: FN, g: GN, rf: u32, rg: u64)
    requires
        count5_post(f, rf),
        countn_post(5, g, rg),
        forall|args: (u64, u64, u64, u64, u64), v1: u64, v2: u64|
            #[trigger] call_ensures(f, args, v1) && #[trigger] call_ensures(f, args, v2) ==> v1
                == v2,
        forall|s: &[u64], v: u64|
            s@.len() == 5 && #[trigger] call_ensures(g, (s,), v) ==> call_ensures(
                f,
                (s@[0], s@[1], s@[2], s@[3], s@[4]),
                v,
            ),
    ensures
        rf == rg,
{
    let (s, v) = choose|s: &[u64], v: u64|
        s@ == axes_seq(5) && #[trigger] call_ensures(g, (s,), v) && rg == bitcount(
            (v & mask_of(5)) as nat,
        );
    assert(s@[0] == P0 && s@[1] == P1 && s@[2] == P2 && s@[3] == P3 && s@[4] == P4);
    assert(call_ensures(f, (P0, P1, P2, P3, P4), v));
}

/// On the same deterministic formula of six variables, `count6` and
/// `countn` agree: `g` is the slice-taking form of `f`.
pub proof fn lemma_count6_countn_agree<
    FN: Fn(u64, u64, u64, u64, u64, u64) -> u64,
    GN: Fn(&[u64]) -> u64,
>(f: FN, g: GN, rf: u32, rg: u64)
    requires
        count6_post(f, rf),
        countn_post(6, g, rg),
        forall|args: (u64, u64, u64, u64, u64, u64), v1: u64, v2: u64|
            #[trigger] call_ensures(f, args, v1) && #[trigger] call_ensures(f, args, v2) ==> v1
                == v2,
        forall|s: &[u64], v: u64|
            s@.len() == 6 && #[trigger] call_ensures(g, (s,), v) ==> call_ensures(
                f,
                (s@[0], s@[1], s@[2], s@[3], s@[4], s@[5]),
                v,
            ),
    ensures
        rf == rg,
{
    let (s, v) = choose|s: &[u64], v: u64|
        s@ == axes_seq(6) && #[trigger] call_ensures(g, (s,), v) && rg == bitcount(v as nat);
    assert(s@[0] == P0 && s@[1] == P1 && s@[2] == P2 && s@[3] == P3 && s@[4] == P4 && s@[5] == P5);
    assert(call_ensures(f, (P0, P1, P2, P3, P4, P5), v));
}

/// On the same deterministic formula of seven variables, `count7` and
/// `countn` agree: `g` is the slice-taking form of `f`.
pub proof fn lemma_count7_countn_agree<
    FN: Fn(u64, u64, u64, u64, u64, u64, u64) -> u64,
    GN: Fn(&[u64]) -> u64,
>(f: FN, g: GN, rf: u32, rg: u64)
    requires
        count7_post(f, rf),
        countn_post(7, g, rg),
        forall|args: (u64, u64, u64, u64, u64, u64, u64), v1: u64, v2: u64|
            #[trigger] call_ensures(f, args, v1) && #[trigger] call_ensures(f, args, v2) ==> v1
                == v2,
        forall|s: &[u64], v: u64|
            s@.len() == 7 && #[trigger] call_ensures(g, (s,), v) ==> call_ensures(
                f,
                (s@[0], s@[1], s@[2], s@[3], s@[4], s@[5], s@[6]),
                v,
            ),
    ensures
        rf == rg,
{
    lemma2_to64();
    let vals = choose|vals: Seq<u64>|
        #[trigger] sum_bitcount(vals) == rg && vals.len() == pow2(1) && (forall|i: int|
            0 <= i < vals.len() ==> arg_result(g, 7, i, vals[i]));
    assert(vals.len() == 2);
    assert(call_ensures(f, (P0, P1, P2, P3, P4, P5, F), vals[0])) by {
        assert(arg_result(g, 7, 0, vals[0]));
        let s = choose|s: &[u64]|
            s@ == ext_args(7, 0) && #[trigger] call_ensures(g, (s,), vals[0]);
        assert(s@.len() == 7);
        assert(s@[0] == P0 && s@[1] == P1 && s@[2] == P2 && s@[3] == P3 && s@[4] == P4 && s@[5]
            == P5);
        assert(s@[6] == F);
    }
    assert(call_ensures(f, (P0, P1, P2, P3, P4, P5, T), vals[1])) by {
        assert(arg_result(g, 7, 1, vals[1]));
        let s = choose|s: &[u64]|
            s@ == ext_args(7, 1) && #[trigger] call_ensures(g, (s,), vals[1]);
        assert(s@.len() == 7);
        assert(s@[0] == P0 && s@[1] == P1 && s@[2] == P2 && s@[3] == P3 && s@[4] == P4 && s@[5]
            == P5);
        assert(s@[6] == T);
    }
    let t1 = vals.drop_last();
    assert(sum_bitcount(vals) == sum_bitcount(t1) + bitcount(vals[1] as nat));
    assert(t1.len() == 1 && t1[0] == vals[0]);
    assert(sum_bitcount(t1.drop_last()) == 0);
    assert(sum_bitcount(t1) == bitcount(vals[0] as nat));
    assert(rg == bitcount(vals[0] as nat) + bitcount(vals[1] as nat));
}

/// On the same deterministic formula of eight variables, `count8` and
/// `countn` agree: `g` is the slice-taking form of `f`.
pub proof fn lemma_count8_countn_agree<
    FN: Fn(u64, u64, u64, u64, u64, u64, u64, u64) -> u64,
    GN: Fn(&[u64]) -> u64,
>(f: FN, g: GN, rf: u32, rg: u64)
    requires
        count8_post(f, rf),
        countn_post(8, g, rg),
        forall|args: (u64, u64, u64, u64, u64, u64, u64, u64), v1: u64, v2: u64|
            #[trigger] call_ensures(f, args, v1) && #[trigger] call_ensures(f, args, v2) ==> v1
                == v2,
        forall|s: &[u64], v: u64|
            s@.len() == 8 && #[trigger] call_ensures(g, (s,), v) ==> call_ensures(
                f,
                (s@[0], s@[1], s@[2], s@[3], s@[4], s@[5], s@[6], s@[7]),
                v,
            ),
    ensures
        rf == rg,
{
    lemma2_to64();
    let vals = choose|vals: Seq<u64>|
        #[trigger] sum_bitcount(vals) == rg && vals.len() == pow2(2) && (forall|i: int|
            0 <= i < vals.len() ==> arg_result(g, 8, i, vals[i]));
    assert(vals.len() == 4);
    assert(call_ensures(f, (P0, P1, P2, P3, P4, P5, F, F), vals[0])) by {
        assert(arg_result(g, 8, 0, vals[0]));
        let s = choose|s: &[u64]|
            s@ == ext_args(8, 0) && #[trigger] call_ensures(g, (s,), vals[0]);
        assert(s@.len() == 8);
        assert(s@[0] == P0 && s@[1] == P1 && s@[2] == P2 && s@[3] == P3 && s@[4] == P4 && s@[5]
            == P5);
        assert(s@[6] == F && s@[7] == F);
    }
    assert(call_ensures(f, (P0, P1, P2, P3, P4, P5, F, T), vals[1])) by {
        assert(arg_result(g, 8, 1, vals[1]));
        let s = choose|s: &[u64]|
            s@ == ext_args(8, 1) && #[trigger] call_ensures(g, (s,), vals[1]);
        assert(s@.len() == 8);
        assert(s@[0] == P0 && s@[1] == P1 && s@[2] == P2 && s@[3] == P3 && s@[4] == P4 && s@[5]
            == P5);
        assert(s@[6] == F && s@[7] == T);
    }
    assert(call_ensures(f, (P0, P1, P2, P3, P4, P5, T, F), vals[2])) by {
        assert(arg_result(g, 8, 2, vals[2]));
        let s = choose|s: &[u64]|
            s@ == ext_args(8, 2) && #[trigger] call_ensures(g, (s,), vals[2]);
        assert(s@.len() == 8);
        assert(s@[0] == P0 && s@[1] == P1 && s@[2] == P2 && s@[3] == P3 && s@[4] == P4 && s@[5]
            == P5);
        assert(s@[6] == T && s@[7] == F);
    }
    assert(call_ensures(f, (P0, P1, P2, P3, P4, P5, T, T), vals[3])) by {
        assert(arg_result(g, 8, 3, vals[3]));
        let s = choose|s: &[u64]|
            s@ == ext_args(8, 3) && #[trigger] call_ensures(g, (s,), vals[3]);
        assert(s@.len() == 8);
        assert(s@[0] == P0 && s@[1] == P1 && s@[2] == P2 && s@[3] == P3 && s@[4] == P4 && s@[5]
            == P5);
        assert(s@[6] == T && s@[7] == T);
    }
    let t3 = vals.drop_last();
    let t2 = t3.drop_last();
    let t1 = t2.drop_last();
    assert(sum_bitcount(vals) == sum_bitcount(t3) + bitcount(vals[3] as nat));
    assert(sum_bitcount(t3) == sum_bitcount(t2) + bitcount(vals[2] as nat));
    assert(sum_bitcount(t2) == sum_bitcount(t1) + bitcount(vals[1] as nat));
    assert(t1.len() == 1 && t1[0] == vals[0]);
    assert(sum_bitcount(t1.drop_last()) == 0);
    assert(sum_bitcount(t1) == bitcount(vals[0] as nat));
    assert(rg == bitcount(vals[0] as nat) + bitcount(vals[1] as nat) + bitcount(vals[2] as nat)
        + bitcount(vals[3] as nat));
}

/// On the same deterministic formula of nine variables, `count9` and
/// `countn` agree: `g` is the slice-taking form of `f`.
pub proof fn lemma_count9_countn_agree<
    FN: Fn(u64, u64, u64, u64, u64, u64, u64, u64, u64) -> u64,
    GN: Fn(&[u64]) -> u64,
>(f: FN, g: GN, rf: u32, rg: u64)
    requires
        count9_post(f, rf),
        countn_post(9, g, rg),
        forall|args: (u64, u64, u64, u64, u64, u64, u64, u64, u64), v1: u64, v2: u64|
            #[trigger] call_ensures(f, args, v1) && #[trigger] call_ensures(f, args, v2) ==> v1
                == v2,
        forall|s: &[u64], v: u64|
            s@.len() == 9 && #[trigger] call_ensures(g, (s,), v) ==> call_ensures(
                f,
                (s@[0], s@[1], s@[2], s@[3], s@[4], s@[5], s@[6], s@[7], s@[8]),
                v,
            ),
    ensures
        rf == rg,
{
    lemma2_to64();
    let vals = choose|vals: Seq<u64>|
        #[trigger] sum_bitcount(vals) == rg && vals.len() == pow2(3) && (forall|i: int|
            0 <= i < vals.len() ==> arg_result(g, 9, i, vals[i]));
    assert(vals.len() == 8);
    assert(call_ensures(f, (P0, P1, P2, P3, P4, P5, F, F, F), vals[0])) by {
        assert(arg_result(g, 9, 0, vals[0]));
        let s = choose|s: &[u64]|
            s@ == ext_args(9, 0) && #[trigger] call_ensures(g, (s,), vals[0]);
        assert(s@.len() == 9);
        assert(s@[0] == P0 && s@[1] == P1 && s@[2] == P2 && s@[3] == P3 && s@[4] == P4 && s@[5]
            == P5);
        assert(s@[6] == F && s@[7] == F && s@[8] == F);
    }
    assert(call_ensures(f, (P0, P1, P2, P3, P4, P5, F, F, T), vals[1])) by {
        assert(arg_result(g, 9, 1, vals[1]));
        let s = choose|s: &[u64]|
            s@ == ext_args(9, 1) && #[trigger] call_ensures(g, (s,), vals[1]);
        assert(s@.len() == 9);
        assert(s@[0] == P0 && s@[1] == P1 && s@[2] == P2 && s@[3] == P3 && s@[4] == P4 && s@[5]
            == P5);
        assert(s@[6] == F && s@[7] == F && s@[8] == T);
    }
    assert(call_ensures(f, (P0, P1, P2, P3, P4, P5, F, T, F), vals[2])) by {
        assert(arg_result(g, 9, 2, vals[2]));
        let s = choose|s: &[u64]|
            s@ == ext_args(9, 2) && #[trigger] call_ensures(g, (s,), vals[2]);
        assert(s@.len() == 9);
        assert(s@[0] == P0 && s@[1] == P1 && s@[2] == P2 && s@[3] == P3 && s@[4] == P4 && s@[5]
            == P5);
        assert(s@[6] == F && s@[7] == T && s@[8] == F);
    }
    assert(call_ensures(f, (P0, P1, P2, P3, P4, P5, F, T, T), vals[3])) by {
        assert(arg_result(g, 9, 3, vals[3]));
        let s = choose|s: &[u64]|
            s@ == ext_args(9, 3) && #[trigger] call_ensures(g, (s,), vals[3]);
        assert(s@.len() == 9);
        assert(s@[0] == P0 && s@[1] == P1 && s@[2] == P2 && s@[3] == P3 && s@[4] == P4 && s@[5]
            == P5);
        assert(s@[6] == F && s@[7] == T && s@[8] == T);
    }
    assert(call_ensures(f, (P0, P1, P2, P3, P4, P5, T, F, F), vals[4])) by {
        assert(arg_result(g, 9, 4, vals[4]));
        let s = choose|s: &[u64]|
            s@ == ext_args(9, 4) && #[trigger] call_ensures(g, (s,), vals[4]);
        assert(s@.len() == 9);
        assert(s@[0] == P0 && s@[1] == P1 && s@[2] == P2 && s@[3] == P3 && s@[4] == P4 && s@[5]
            == P5);
        assert(s@[6] == T && s@[7] == F && s@[8] == F);
    }
    assert(call_ensures(f, (P0, P1, P2, P3, P4, P5, T, F, T), vals[5])) by {
        assert(arg_result(g, 9, 5, vals[5]));
        let s = choose|s: &[u64]|
            s@ == ext_args(9, 5) && #[trigger] call_ensures(g, (s,), vals[5]);
        assert(s@.len() == 9);
        assert(s@[0] == P0 && s@[1] == P1 && s@[2] == P2 && s@[3] == P3 && s@[4] == P4 && s@[5]
            == P5);
        assert(s@[6] == T && s@[7] == F && s@[8] == T);
    }
    assert(call_ensures(f, (P0, P1, P2, P3, P4, P5, T, T, F), vals[6])) by {
        assert(arg_result(g, 9, 6, vals[6]));
        let s = choose|s: &[u64]|
            s@ == ext_args(9, 6) && #[trigger] call_ensures(g, (s,), vals[6]);
        assert(s@.len() == 9);
        assert(s@[0] == P0 && s@[1] == P1 && s@[2] == P2 && s@[3] == P3 && s@[4] == P4 && s@[5]
            == P5);
        assert(s@[6] == T && s@[7] == T && s@[8] == F);
    }
    assert(call_ensures(f, (P0, P1, P2, P3, P4, P5, T, T, T), vals[7])) by {
        assert(arg_result(g, 9, 7, vals[7]));
        let s = choose|s: &[u64]|
            s@ == ext_args(9, 7) && #[trigger] call_ensures(g, (s,), vals[7]);
        assert(s@.len() == 9);
        assert(s@[0] == P0 && s@[1] == P1 && s@[2] == P2 && s@[3] == P3 && s@[4] == P4 && s@[5]
            == P5);
        assert(s@[6] == T && s@[7] == T && s@[8] == T);
    }
    let t7 = vals.drop_last();
    let t6 = t7.drop_last();
    let t5 = t6.drop_last();
    let t4 = t5.drop_last();
    let t3 = t4.drop_last();
    let t2 = t3.drop_last();
    let t1 = t2.drop_last();
    assert(sum_bitcount(vals) == sum_bitcount(t7) + bitcount(vals[7] as nat));
    assert(sum_bitcount(t7) == sum_bitcount(t6) + bitcount(vals[6] as nat));
    assert(sum_bitcount(t6) == sum_bitcount(t5) + bitcount(vals[5] as nat));
    assert(sum_bitcount(t5) == sum_bitcount(t4) + bitcount(vals[4] as nat));
    assert(sum_bitcount(t4) == sum_bitcount(t3) + bitcount(vals[3] as nat));
    assert(sum_bitcount(t3) == sum_bitcount(t2) + bitcount(vals[2] as nat));
    assert(sum_bitcount(t2) == sum_bitcount(t1) + bitcount(vals[1] as nat));
    assert(t1.len() == 1 && t1[0] == vals[0]);
    assert(sum_bitcount(t1.drop_last()) == 0);
    assert(sum_bitcount(t1) == bitcount(vals[0] as nat));
    assert(rg == bitcount(vals[0] as nat) + bitcount(vals[1] as nat) + bitcount(vals[2] as nat) + bitcount(vals[3] as nat) + bitcount(vals[4] as nat) + bitcount(vals[5] as nat) + bitcount(vals[6] as nat) + bitcount(vals[7] as nat));
}

/// On the same deterministic formula of ten variables, `count10` and
/// `countn` agree: `g` is the slice-taking form of `f`.
pub proof fn lemma_count10_countn_agree<
    FN: Fn(u64, u64, u64, u64, u64, u64, u64, u64, u64, u64) -> u64,
    GN: Fn(&[u64]) -> u64,
>(f: FN, g: GN, rf: u32, rg: u64)
    requires
        count10_post(f, rf),
        countn_post(10, g, rg),
        forall|args: (u64, u64, u64, u64, u64, u64, u64, u64, u64, u64), v1: u64, v2: u64|
            #[trigger] call_ensures(f, args, v1) && #[trigger] call_ensures(f, args, v2) ==> v1
                == v2,
        forall|s: &[u64], v: u64|
            s@.len() == 10 && #[trigger] call_ensures(g, (s,), v) ==> call_ensures(
                f,
                (s@[0], s@[1], s@[2], s@[3], s@[4], s@[5], s@[6], s@[7], s@[8], s@[9]),
                v,
            ),
    ensures
        rf == rg,
{
    lemma2_to64();
    let vals = choose|vals: Seq<u64>|
        #[trigger] sum_bitcount(vals) == rg && vals.len() == pow2(4) && (forall|i: int|
            0 <= i < vals.len() ==> arg_result(g, 10, i, vals[i]));
    assert(vals.len() == 16);
    assert(call_ensures(f, (P0, P1, P2, P3, P4, P5, F, F, F, F), vals[0])) by {
        assert(arg_result(g, 10, 0, vals[0]));
        let s = choose|s: &[u64]|
            s@ == ext_args(10, 0) && #[trigger] call_ensures(g, (s,), vals[0]);
        assert(s@.len() == 10);
        assert(s@[0] == P0 && s@[1] == P1 && s@[2] == P2 && s@[3] == P3 && s@[4] == P4 && s@[5]
            == P5);
        assert(s@[6] == F && s@[7] == F && s@[8] == F && s@[9] == F);
    }
    assert(call_ensures(f, (P0, P1, P2, P3, P4, P5, F, F, F, T), vals[1])) by {
        assert(arg_result(g, 10, 1, vals[1]));
        let s = choose|s: &[u64]|
            s@ == ext_args(10, 1) && #[trigger] call_ensures(g, (s,), vals[1]);
        assert(s@.len() == 10);
        assert(s@[0] == P0 && s@[1] == P1 && s@[2] == P2 && s@[3] == P3 && s@[4] == P4 && s@[5]
            == P5);
        assert(s@[6] == F && s@[7] == F && s@[8] == F && s@[9] == T);
    }
    assert(call_ensures(f, (P0, P1, P2, P3, P4, P5, F, F, T, F), vals[2])) by {
        assert(arg_result(g, 10, 2, vals[2]));
        let s = choose|s: &[u64]|
            s@ == ext_args(10, 2) && #[trigger] call_ensures(g, (s,), vals[2]);
        assert(s@.len() == 10);
        assert(s@[0] == P0 && s@[1] == P1 && s@[2] == P2 && s@[3] == P3 && s@[4] == P4 && s@[5]
            == P5);
        assert(s@[6] == F && s@[7] == F && s@[8] == T && s@[9] == F);
    }
    assert(call_ensures(f, (P0, P1, P2, P3, P4, P5, F, F, T, T), vals[3])) by {
        assert(arg_result(g, 10, 3, vals[3]));
        let s = choose|s: &[u64]|
            s@ == ext_args(10, 3) && #[trigger] call_ensures(g, (s,), vals[3]);
        assert(s@.len() == 10);
        assert(s@[0] == P0 && s@[1] == P1 && s@[2] == P2 && s@[3] == P3 && s@[4] == P4 && s@[5]
            == P5);
        assert(s@[6] == F && s@[7] == F && s@[8] == T && s@[9] == T);
    }
    assert(call_ensures(f, (P0, P1, P2, P3, P4, P5, F, T, F, F), vals[4])) by {
        assert(arg_result(g, 10, 4, vals[4]));
        let s = choose|s: &[u64]|
            s@ == ext_args(10, 4) && #[trigger] call_ensures(g, (s,), vals[4]);
        assert(s@.len() == 10);
        assert(s@[0] == P0 && s@[1] == P1 && s@[2] == P2 && s@[3] == P3 && s@[4] == P4 && s@[5]
            == P5);
        assert(s@[6] == F && s@[7] == T && s@[8] == F && s@[9] == F);
    }
    assert(call_ensures(f, (P0, P1, P2, P3, P4, P5, F, T, F, T), vals[5])) by {
        assert(arg_result(g, 10, 5, vals[5]));
        let s = choose|s: &[u64]|
            s@ == ext_args(10, 5) && #[trigger] call_ensures(g, (s,), vals[5]);
        assert(s@.len() == 10);
        assert(s@[0] == P0 && s@[1] == P1 && s@[2] == P2 && s@[3] == P3 && s@[4] == P4 && s@[5]
            == P5);
        assert(s@[6] == F && s@[7] == T && s@[8] == F && s@[9] == T);
    }
    assert(call_ensures(f, (P0, P1, P2, P3, P4, P5, F, T, T, F), vals[6])) by {
        assert(arg_result(g, 10, 6, vals[6]));
        let s = choose|s: &[u64]|
            s@ == ext_args(10, 6) && #[trigger] call_ensures(g, (s,), vals[6]);
        assert(s@.len() == 10);
        assert(s@[0] == P0 && s@[1] == P1 && s@[2] == P2 && s@[3] == P3 && s@[4] == P4 && s@[5]
            == P5);
        assert(s@[6] == F && s@[7] == T && s@[8] == T && s@[9] == F);
    }
    assert(call_ensures(f, (P0, P1, P2, P3, P4, P5, F, T, T, T), vals[7])) by {
        assert(arg_result(g, 10, 7, vals[7]));
        let s = choose|s: &[u64]|
            s@ == ext_args(10, 7) && #[trigger] call_ensures(g, (s,), vals[7]);
        assert(s@.len() == 10);
        assert(s@[0] == P0 && s@[1] == P1 && s@[2] == P2 && s@[3] == P3 && s@[4] == P4 && s@[5]
            == P5);
        assert(s@[6] == F && s@[7] == T && s@[8] == T && s@[9] == T);
    }
    assert(call_ensures(f, (P0, P1, P2, P3, P4, P5, T, F, F, F), vals[8])) by {
        assert(arg_result(g, 10, 8, vals[8]));
        let s = choose|s: &[u64]|
            s@ == ext_args(10, 8) && #[trigger] call_ensures(g, (s,), vals[8]);
        assert(s@.len() == 10);
        assert(s@[0] == P0 && s@[1] == P1 && s@[2] == P2 && s@[3] == P3 && s@[4] == P4 && s@[5]
            == P5);
        assert(s@[6] == T && s@[7] == F && s@[8] == F && s@[9] == F);
    }
    assert(call_ensures(f, (P0, P1, P2, P3, P4, P5, T, F, F, T), vals[9])) by {
        assert(arg_result(g, 10, 9, vals[9]));
        let s = choose|s: &[u64]|
            s@ == ext_args(10, 9) && #[trigger] call_ensures(g, (s,), vals[9]);
        assert(s@.len() == 10);
        assert(s@[0] == P0 && s@[1] == P1 && s@[2] == P2 && s@[3] == P3 && s@[4] == P4 && s@[5]
            == P5);
        assert(s@[6] == T && s@[7] == F && s@[8] == F && s@[9] == T);
    }
    assert(call_ensures(f, (P0, P1, P2, P3, P4, P5, T, F, T, F), vals[10])) by {
        assert(arg_result(g, 10, 10, vals[10]));
        let s = choose|s: &[u64]|
            s@ == ext_args(10, 10) && #[trigger] call_ensures(g, (s,), vals[10]);
        assert(s@.len() == 10);
        assert(s@[0] == P0 && s@[1] == P1 && s@[2] == P2 && s@[3] == P3 && s@[4] == P4 && s@[5]
            == P5);
        assert(s@[6] == T && s@[7] == F && s@[8] == T && s@[9] == F);
    }
    assert(call_ensures(f, (P0, P1, P2, P3, P4, P5, T, F, T, T), vals[11])) by {
        assert(arg_result(g, 10, 11, vals[11]));
        let s = choose|s: &[u64]|
            s@ == ext_args(10, 11) && #[trigger] call_ensures(g, (s,), vals[11]);
        assert(s@.len() == 10);
        assert(s@[0] == P0 && s@[1] == P1 && s@[2] == P2 && s@[3] == P3 && s@[4] == P4 && s@[5]
            == P5);
        assert(s@[6] == T && s@[7] == F && s@[8] == T && s@[9] == T);
    }
    assert(call_ensures(f, (P0, P1, P2, P3, P4, P5, T, T, F, F), vals[12])) by {
        assert(arg_result(g, 10, 12, vals[12]));
        let s = choose|s: &[u64]|
            s@ == ext_args(10, 12) && #[trigger] call_ensures(g, (s,), vals[12]);
        assert(s@.len() == 10);
        assert(s@[0] == P0 && s@[1] == P1 && s@[2] == P2 && s@[3] == P3 && s@[4] == P4 && s@[5]
            == P5);
        assert(s@[6] == T && s@[7] == T && s@[8] == F && s@[9] == F);
    }
    assert(call_ensures(f, (P0, P1, P2, P3, P4, P5, T, T, F, T), vals[13])) by {
        assert(arg_result(g, 10, 13, vals[13]));
        let s = choose|s: &[u64]|
            s@ == ext_args(10, 13) && #[trigger] call_ensures(g, (s,), vals[13]);
        assert(s@.len() == 10);
        assert(s@[0] == P0 && s@[1] == P1 && s@[2] == P2 && s@[3] == P3 && s@[4] == P4 && s@[5]
            == P5);
        assert(s@[6] == T && s@[7] == T && s@[8] == F && s@[9] == T);
    }
    assert(call_ensures(f, (P0, P1, P2, P3, P4, P5, T, T, T, F), vals[14])) by {
        assert(arg_result(g, 10, 14, vals[14]));
        let s = choose|s: &[u64]|
            s@ == ext_args(10, 14) && #[trigger] call_ensures(g, (s,), vals[14]);
        assert(s@.len() == 10);
        assert(s@[0] == P0 && s@[1] == P1 && s@[2] == P2 && s@[3] == P3 && s@[4] == P4 && s@[5]
            == P5);
        assert(s@[6] == T && s@[7] == T && s@[8] == T && s@[9] == F);
    }
    assert(call_ensures(f, (P0, P1, P2, P3, P4, P5, T, T, T, T), vals[15])) by {
        assert(arg_result(g, 10, 15, vals[15]));
        let s = choose|s: &[u64]|
            s@ == ext_args(10, 15) && #[trigger] call_ensures(g, (s,), vals[15]);
        assert(s@.len() == 10);
        assert(s@[0] == P0 && s@[1] == P1 && s@[2] == P2 && s@[3] == P3 && s@[4] == P4 && s@[5]
            == P5);
        assert(s@[6] == T && s@[7] == T && s@[8] == T && s@[9] == T);
    }
    let t15 = vals.drop_last();
    let t14 = t15.drop_last();
    let t13 = t14.drop_last();
    let t12 = t13.drop_last();
    let t11 = t12.drop_last();
    let t10 = t11.drop_last();
    let t9 = t10.drop_last();
    let t8 = t9.drop_last();
    let t7 = t8.drop_last();
    let t6 = t7.drop_last();
    let t5 = t6.drop_last();
    let t4 = t5.drop_last();
    let t3 = t4.drop_last();
    let t2 = t3.drop_last();
    let t1 = t2.drop_last();
    assert(sum_bitcount(vals) == sum_bitcount(t15) + bitcount(vals[15] as nat));
    assert(sum_bitcount(t15) == sum_bitcount(t14) + bitcount(vals[14] as nat));
    assert(sum_bitcount(t14) == sum_bitcount(t13) + bitcount(vals[13] as nat));
    assert(sum_bitcount(t13) == sum_bitcount(t12) + bitcount(vals[12] as nat));
    assert(sum_bitcount(t12) == sum_bitcount(t11) + bitcount(vals[11] as nat));
    assert(sum_bitcount(t11) == sum_bitcount(t10) + bitcount(vals[10] as nat));
    assert(sum_bitcount(t10) == sum_bitcount(t9) + bitcount(vals[9] as nat));
    assert(sum_bitcount(t9) == sum_bitcount(t8) + bitcount(vals[8] as nat));
    assert(sum_bitcount(t8) == sum_bitcount(t7) + bitcount(vals[7] as nat));
    assert(sum_bitcount(t7) == sum_bitcount(t6) + bitcount(vals[6] as nat));
    assert(sum_bitcount(t6) == sum_bitcount(t5) + bitcount(vals[5] as nat));
    assert(sum_bitcount(t5) == sum_bitcount(t4) + bitcount(vals[4] as nat));
    assert(sum_bitcount(t4) == sum_bitcount(t3) + bitcount(vals[3] as nat));
    assert(sum_bitcount(t3) == sum_bitcount(t2) + bitcount(vals[2] as nat));
    assert(sum_bitcount(t2) == sum_bitcount(t1) + bitcount(vals[1] as nat));
    assert(t1.len() == 1 && t1[0] == vals[0]);
    assert(sum_bitcount(t1.drop_last()) == 0);
    assert(sum_bitcount(t1) == bitcount(vals[0] as nat));
    assert(rg == bitcount(vals[0] as nat) + bitcount(vals[1] as nat) + bitcount(vals[2] as nat) + bitcount(vals[3] as nat) + bitcount(vals[4] as nat) + bitcount(vals[5] as nat) + bitcount(vals[6] as nat) + bitcount(vals[7] as nat) + bitcount(vals[8] as nat) + bitcount(vals[9] as nat) + bitcount(vals[10] as nat) + bitcount(vals[11] as nat) + bitcount(vals[12] as nat) + bitcount(vals[13] as nat) + bitcount(vals[14] as nat) + bitcount(vals[15] as nat));
}

/// The 1-variable prover accepts the constant-`T` formula and rejects the
/// constant-`F` formula.
pub proof fn lemma_prove1_units<FN: Fn(u64) -> u64>(f: FN, r: bool, c: u64)
    requires
        exists|cc: u32| #[trigger] count1_post(f, cc) && r == (cc == 2),
        forall|args: (u64,), v: u64| #[trigger] call_ensures(f, args, v) ==> v == c,
    ensures
        c == T ==> r == true,
        c == F ==> r == false,
{
    let cc = choose|cc: u32| #[trigger] count1_post(f, cc) && r == (cc == 2);
    lemma_count1_units(f, cc, c);
}

/// The 2-variable prover accepts the constant-`T` formula and rejects the
/// constant-`F` formula.
pub proof fn lemma_prove2_units<FN: Fn(u64, u64) -> u64>(f: FN, r: bool, c: u64)
    requires
        exists|cc: u32| #[trigger] count2_post(f, cc) && r == (cc == 4),
        forall|args: (u64, u64), v: u64| #[trigger] call_ensures(f, args, v) ==> v == c,
    ensures
        c == T ==> r == true,
        c == F ==> r == false,
{
    let cc = choose|cc: u32| #[trigger] count2_post(f, cc) && r == (cc == 4);
    lemma_count2_units(f, cc, c);
}

/// The 3-variable prover accepts the constant-`T` formula and rejects the
/// constant-`F` formula.
pub proof fn lemma_prove3_units<FN: Fn(u64, u64, u64) -> u64>(f: FN, r: bool, c: u64)
    requires
        exists|cc: u32| #[trigger] count3_post(f, cc) && r == (cc == 8),
        forall|args: (u64, u64, u64), v: u64| #[trigger] call_ensures(f, args, v) ==> v == c,
    ensures
        c == T ==> r == true,
        c == F ==> r == false,
{
    let cc = choose|cc: u32| #[trigger] count3_post(f, cc) && r == (cc == 8);
    lemma_count3_units(f, cc, c);
}

/// The 4-variable prover accepts the constant-`T` formula and rejects the
/// constant-`F` formula.
pub proof fn lemma_prove4_units<FN: Fn(u64, u64, u64, u64) -> u64>(f: FN, r: bool, c: u64)
    requires
        exists|cc: u32| #[trigger] count4_post(f, cc) && r == (cc == 16),
        forall|args: (u64, u64, u64, u64), v: u64| #[trigger] call_ensures(f, args, v) ==> v == c,
    ensures
        c == T ==> r == true,
        c == F ==> r == false,
{
    let cc = choose|cc: u32| #[trigger] count4_post(f, cc) && r == (cc == 16);
    lemma_count4_units(f, cc, c);
}

/// The 5-variable prover accepts the constant-`T` formula and rejects the
/// constant-`F` formula.
pub proof fn lemma_prove5_units<FN: Fn(u64, u64, u64, u64, u64) -> u64>(f: FN, r: bool, c: u64)
    requires
        exists|cc: u32| #[trigger] count5_post(f, cc) && r == (cc == 32),
        forall|args: (u64, u64, u64, u64, u64), v: u64|
            #[trigger] call_ensures(f, args, v) ==> v == c,
    ensures
        c == T ==> r == true,
        c == F ==> r == false,
{
    let cc = choose|cc: u32| #[trigger] count5_post(f, cc) && r == (cc == 32);
    lemma_count5_units(f, cc, c);
}

/// The 6-variable prover accepts the constant-`T` formula and rejects the
/// constant-`F` formula.
pub proof fn lemma_prove6_units<FN: Fn(u64, u64, u64, u64, u64, u64) -> u64>(f: FN, r: bool, c: u64)
    requires
        exists|cc: u32| #[trigger] count6_post(f, cc) && r == (cc == 64),
        forall|args: (u64, u64, u64, u64, u64, u64), v: u64|
            #[trigger] call_ensures(f, args, v) ==> v == c,
    ensures
        c == T ==> r == true,
        c == F ==> r == false,
{
    let cc = choose|cc: u32| #[trigger] count6_post(f, cc) && r == (cc == 64);
    lemma_count6_units(f, cc, c);
}

/// The 7-variable prover accepts the constant-`T` formula and rejects the
/// constant-`F` formula.
pub proof fn lemma_prove7_units<FN: Fn(u64, u64, u64, u64, u64, u64, u64) -> u64>(
    f: FN,
    r: bool,
    c: u64,
)
    requires
        exists|cc: u32| #[trigger] count7_post(f, cc) && r == (cc == 128),
        forall|args: (u64, u64, u64, u64, u64, u64, u64), v: u64|
            #[trigger] call_ensures(f, args, v) ==> v == c,
    ensures
        c == T ==> r == true,
        c == F ==> r == false,
{
    let cc = choose|cc: u32| #[trigger] count7_post(f, cc) && r == (cc == 128);
    lemma_count7_units(f, cc, c);
}

/// The 8-variable prover accepts the constant-`T` formula and rejects the
/// constant-`F` formula.
pub proof fn lemma_prove8_units<FN: Fn(u64, u64, u64, u64, u64, u64, u64, u64) -> u64>(
    f: FN,
    r: bool,
    c: u64,
)
    requires
        exists|cc: u32| #[trigger] count8_post(f, cc) && r == (cc == 256),
        forall|args: (u64, u64, u64, u64, u64, u64, u64, u64), v: u64|
            #[trigger] call_ensures(f, args, v) ==> v == c,
    ensures
        c == T ==> r == true,
        c == F ==> r == false,
{
    let cc = choose|cc: u32| #[trigger] count8_post(f, cc) && r == (cc == 256);
    lemma_count8_units(f, cc, c);
}

/// The 9-variable prover accepts the constant-`T` formula and rejects the
/// constant-`F` formula.
pub proof fn lemma_prove9_units<FN: Fn(u64, u64, u64, u64, u64, u64, u64, u64, u64) -> u64>(
    f: FN,
    r: bool,
    c: u64,
)
    requires
        exists|cc: u32| #[trigger] count9_post(f, cc) && r == (cc == 512),
        forall|args: (u64, u64, u64, u64, u64, u64, u64, u64, u64), v: u64|
            #[trigger] call_ensures(f, args, v) ==> v == c,
    ensures
        c == T ==> r == true,
        c == F ==> r == false,
{
    let cc = choose|cc: u32| #[trigger] count9_post(f, cc) && r == (cc == 512);
    lemma_count9_units(f, cc, c);
}

/// The 10-variable prover accepts the constant-`T` formula and rejects
/// the constant-`F` formula.
pub proof fn lemma_prove10_units<FN: Fn(u64, u64, u64, u64, u64, u64, u64, u64, u64, u64) -> u64>(
    f: FN,
    r: bool,
    c: u64,
)
    requires
        exists|cc: u32| #[trigger] count10_post(f, cc) && r == (cc == 1024),
        forall|args: (u64, u64, u64, u64, u64, u64, u64, u64, u64, u64), v: u64|
            #[trigger] call_ensures(f, args, v) ==> v == c,
    ensures
        c == T ==> r == true,
        c == F ==> r == false,
{
    let cc = choose|cc: u32| #[trigger] count10_post(f, cc) && r == (cc == 1024);
    lemma_count10_units(f, cc, c);
}

/// Commutativity of AND: a formula computing `eq(and(a,b), and(b,a))`
/// is accepted by `prove2`.
pub proof fn lemma_and_commutative_tautology<FN: Fn(u64, u64) -> u64>(f: FN, r: bool)
    requires
        exists|cc: u32| #[trigger] count2_post(f, cc) && r == (cc == 4),
        forall|a: u64, b: u64, v: u64|
            #[trigger] call_ensures(f, (a, b), v) ==> v == (!((a & b) ^ (b & a))),
    ensures
        r == true,
{
    assert forall|args: (u64, u64), v: u64| #[trigger] call_ensures(f, args, v) implies v == T by {
        let (a, b) = args;
        assert((!((a & b) ^ (b & a))) == 0xffff_ffff_ffff_ffffu64) by (bit_vector);
    }
    lemma_prove2_units(f, r, T);
}

/// Commutativity of OR: a formula computing `eq(or(a,b), or(b,a))` is
/// accepted by `prove2`.
pub proof fn lemma_or_commutative_tautology<FN: Fn(u64, u64) -> u64>(f: FN, r: bool)
    requires
        exists|cc: u32| #[trigger] count2_post(f, cc) && r == (cc == 4),
        forall|a: u64, b: u64, v: u64|
            #[trigger] call_ensures(f, (a, b), v) ==> v == (!((a | b) ^ (b | a))),
    ensures
        r == true,
{
    assert forall|args: (u64, u64), v: u64| #[trigger] call_ensures(f, args, v) implies v == T by {
        let (a, b) = args;
        assert((!((a | b) ^ (b | a))) == 0xffff_ffff_ffff_ffffu64) by (bit_vector);
    }
    lemma_prove2_units(f, r, T);
}

/// Commutativity of XOR: a formula computing `eq(xor(a,b), xor(b,a))`
/// is accepted by `prove2`.
pub proof fn lemma_xor_commutative_tautology<FN: Fn(u64, u64) -> u64>(f: FN, r: bool)
    requires
        exists|cc: u32| #[trigger] count2_post(f, cc) && r == (cc == 4),
        forall|a: u64, b: u64, v: u64|
            #[trigger] call_ensures(f, (a, b), v) ==> v == (!((a ^ b) ^ (b ^ a))),
    ensures
        r == true,
{
    assert forall|args: (u64, u64), v: u64| #[trigger] call_ensures(f, args, v) implies v == T by {
        let (a, b) = args;
        assert((!((a ^ b) ^ (b ^ a))) == 0xffff_ffff_ffff_ffffu64) by (bit_vector);
    }
    lemma_prove2_units(f, r, T);
}

/// De Morgan's law: a formula computing
/// `eq(not(and(a,b)), or(not(a), not(b)))` is accepted by `prove2`.
pub proof fn lemma_de_morgan_tautology<FN: Fn(u64, u64) -> u64>(f: FN, r: bool)
    requires
        exists|cc: u32| #[trigger] count2_post(f, cc) && r == (cc == 4),
        forall|a: u64, b: u64, v: u64|
            #[trigger] call_ensures(f, (a, b), v) ==> v == (!((!(a & b)) ^ ((!a) | (!b)))),
    ensures
        r == true,
{
    assert forall|args: (u64, u64), v: u64| #[trigger] call_ensures(f, args, v) implies v == T by {
        let (a, b) = args;
        assert((!((!(a & b)) ^ ((!a) | (!b)))) == 0xffff_ffff_ffff_ffffu64) by (bit_vector);
    }
    lemma_prove2_units(f, r, T);
}

/// Modus ponens: a formula computing
/// `imply(and(imply(a,b), a), b)` is accepted by `prove2`.
pub proof fn lemma_modus_ponens_tautology<FN: Fn(u64, u64) -> u64>(f: FN, r: bool)
    requires
        exists|cc: u32| #[trigger] count2_post(f, cc) && r == (cc == 4),
        forall|a: u64, b: u64, v: u64|
            #[trigger] call_ensures(f, (a, b), v) ==> v == ((!(((!a | b) & a))) | b),
    ensures
        r == true,
{
    assert forall|args: (u64, u64), v: u64| #[trigger] call_ensures(f, args, v) implies v == T by {
        let (a, b) = args;
        assert(((!(((!a | b) & a))) | b) == 0xffff_ffff_ffff_ffffu64) by (bit_vector);
    }
    lemma_prove2_units(f, r, T);
}

/// Modus tollens: a formula computing
/// `imply(and(imply(a,b), not(b)), not(a))` is accepted by `prove2`.
pub proof fn lemma_modus_tollens_tautology<FN: Fn(u64, u64) -> u64>(f: FN, r: bool)
    requires
        exists|cc: u32| #[trigger] count2_post(f, cc) && r == (cc == 4),
        forall|a: u64, b: u64, v: u64|
            #[trigger] call_ensures(f, (a, b), v) ==> v == ((!(((!a | b) & (!b)))) | (!a)),
    ensures
        r == true,
{
    assert forall|args: (u64, u64), v: u64| #[trigger] call_ensures(f, args, v) implies v == T by {
        let (a, b) = args;
        assert(((!(((!a | b) & (!b)))) | (!a)) == 0xffff_ffff_ffff_ffffu64) by (bit_vector);
    }
    lemma_prove2_units(f, r, T);
}

/// Disjunctive syllogism: a formula computing
/// `imply(and(or(a,b), not(a)), b)` is accepted by `prove2`.
pub proof fn lemma_disjunctive_syllogism_tautology<FN: Fn(u64, u64) -> u64>(f: FN, r: bool)
    requires
        exists|cc: u32| #[trigger] count2_post(f, cc) && r == (cc == 4),
        forall|a: u64, b: u64, v: u64|
            #[trigger] call_ensures(f, (a, b), v) ==> v == ((!(((a | b) & (!a)))) | b),
    ensures
        r == true,
{
    assert forall|args: (u64, u64), v: u64| #[trigger] call_ensures(f, args, v) implies v == T by {
        let (a, b) = args;
        assert(((!(((a | b) & (!a)))) | b) == 0xffff_ffff_ffff_ffffu64) by (bit_vector);
    }
    lemma_prove2_units(f, r, T);
}

/// Associativity of AND: a formula computing
/// `eq(and(and(a,b),c), and(a,and(b,c)))` is accepted by `prove3`.
pub proof fn lemma_and_associative_tautology<FN: Fn(u64, u64, u64) -> u64>(f: FN, r: bool)
    requires
        exists|cc: u32| #[trigger] count3_post(f, cc) && r == (cc == 8),
        forall|a: u64, b: u64, c: u64, v: u64|
            #[trigger] call_ensures(f, (a, b, c), v) ==> v == (!(((a & b) & c) ^ (a & (b & c)))),
    ensures
        r == true,
{
    assert forall|args: (u64, u64, u64), v: u64|
        #[trigger] call_ensures(f, args, v) implies v == T by {
        let (a, b, c) = args;
        assert((!(((a & b) & c) ^ (a & (b & c)))) == 0xffff_ffff_ffff_ffffu64) by (bit_vector);
    }
    lemma_prove3_units(f, r, T);
}

/// Associativity of OR: a formula computing
/// `eq(or(or(a,b),c), or(a,or(b,c)))` is accepted by `prove3`.
pub proof fn lemma_or_associative_tautology<FN: Fn(u64, u64, u64) -> u64>(f: FN, r: bool)
    requires
        exists|cc: u32| #[trigger] count3_post(f, cc) && r == (cc == 8),
        forall|a: u64, b: u64, c: u64, v: u64|
            #[trigger] call_ensures(f, (a, b, c), v) ==> v == (!(((a | b) | c) ^ (a | (b | c)))),
    ensures
        r == true,
{
    assert forall|args: (u64, u64, u64), v: u64|
        #[trigger] call_ensures(f, args, v) implies v == T by {
        let (a, b, c) = args;
        assert((!(((a | b) | c) ^ (a | (b | c)))) == 0xffff_ffff_ffff_ffffu64) by (bit_vector);
    }
    lemma_prove3_units(f, r, T);
}

/// Associativity of XOR: a formula computing
/// `eq(xor(xor(a,b),c), xor(a,xor(b,c)))` is accepted by `prove3`.
pub proof fn lemma_xor_associative_tautology<FN: Fn(u64, u64, u64) -> u64>(f: FN, r: bool)
    requires
        exists|cc: u32| #[trigger] count3_post(f, cc) && r == (cc == 8),
        forall|a: u64, b: u64, c: u64, v: u64|
            #[trigger] call_ensures(f, (a, b, c), v) ==> v == (!(((a ^ b) ^ c) ^ (a ^ (b ^ c)))),
    ensures
        r == true,
{
    assert forall|args: (u64, u64, u64), v: u64|
        #[trigger] call_ensures(f, args, v) implies v == T by {
        let (a, b, c) = args;
        assert((!(((a ^ b) ^ c) ^ (a ^ (b ^ c)))) == 0xffff_ffff_ffff_ffffu64) by (bit_vector);
    }
    lemma_prove3_units(f, r, T);
}

/// Hypothetical syllogism: a formula computing
/// `imply(and(imply(a,b), imply(b,c)), imply(a,c))` is accepted by `prove3`.
pub proof fn lemma_hypothetical_syllogism_tautology<FN: Fn(u64, u64, u64) -> u64>(f: FN, r: bool)
    requires
        exists|cc: u32| #[trigger] count3_post(f, cc) && r == (cc == 8),
        forall|a: u64, b: u64, c: u64, v: u64|
            #[trigger] call_ensures(f, (a, b, c), v) ==> v == ((!(((!a | b) & ((!b) | c)))) | ((!a) | c)),
    ensures
        r == true,
{
    assert forall|args: (u64, u64, u64), v: u64|
        #[trigger] call_ensures(f, args, v) implies v == T by {
        let (a, b, c) = args;
        assert(((!(((!a | b) & ((!b) | c)))) | ((!a) | c)) == 0xffff_ffff_ffff_ffffu64) by (bit_vector);
    }
    lemma_prove3_units(f, r, T);
}

/// Resolution: a formula computing
/// `imply(and(or(a,b), or(not(a),c)), or(b,c))` is accepted by `prove3`.
pub proof fn lemma_resolution_tautology<FN: Fn(u64, u64, u64) -> u64>(f: FN, r: bool)
    requires
        exists|cc: u32| #[trigger] count3_post(f, cc) && r == (cc == 8),
        forall|a: u64, b: u64, c: u64, v: u64|
            #[trigger] call_ensures(f, (a, b, c), v) ==> v == ((!(((a | b) & ((!a) | c)))) | (b | c)),
    ensures
        r == true,
{
    assert forall|args: (u64, u64, u64), v: u64|
        #[trigger] call_ensures(f, args, v) implies v == T by {
        let (a, b, c) = args;
        assert(((!(((a | b) & ((!a) | c)))) | (b | c)) == 0xffff_ffff_ffff_ffffu64) by (bit_vector);
    }
    lemma_prove3_units(f, r, T);
}

} // verus!
