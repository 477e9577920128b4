//! Population count: the number of set bits of a word, as a specification
//! and as a verified executable function.  A tautology check is a
//! population count against `2^K`, so everything above rests on this.

use vstd::arithmetic::power2::lemma2_to64;
use vstd::arithmetic::power2::lemma2_to64_rest;
use vstd::arithmetic::power2::lemma_pow2_unfold;
use vstd::arithmetic::power2::pow2;
use vstd::prelude::*;

verus! {

/// The number of set bits in the binary representation of `n`.
pub open spec fn bitcount(n: nat) -> nat
    decreases n,
{
    if n == 0 {
        0
    } else {
        n % 2 + bitcount(n / 2)
    }
}

/// A number below `pow2(k)` has at most `k` set bits.
pub proof fn lemma_bitcount_bound(n: nat, k: nat)
    requires
        n < pow2(k),
    ensures
        bitcount(n) <= k,
    decreases k,
{
    if k == 0 {
        assert(pow2(0) == 1) by {
            lemma2_to64();
        }
    } else if n > 0 {
        lemma_pow2_unfold(k);
        lemma_bitcount_bound(n / 2, (k - 1) as nat);
    }
}

/// The mask of the low `k` bits, `pow2(k) - 1`, has exactly `k` set bits.
pub proof fn lemma_bitcount_mask(k: nat)
    ensures
        bitcount((pow2(k) - 1) as nat) == k,
    decreases k,
{
    vstd::arithmetic::power2::lemma_pow2_pos(k);
    if k == 0 {
        assert(pow2(0) == 1) by {
            lemma2_to64();
        }
    } else {
        lemma_pow2_unfold(k);
        vstd::arithmetic::power2::lemma_pow2_pos((k - 1) as nat);
        let m = (pow2((k - 1) as nat) - 1) as nat;
        assert((pow2(k) - 1) as nat == 2 * m + 1);
        assert((2 * m + 1) % 2 == 1);
        assert((2 * m + 1) / 2 == m);
        lemma_bitcount_mask((k - 1) as nat);
    }
}

/// The population counts of the truth-table windows: each window mask of
/// a `K`-variable formula has `2^K` set bits.
pub proof fn lemma_bitcount_windows()
    ensures
        bitcount(0) == 0,
        bitcount(0x3) == 2,
        bitcount(0xf) == 4,
        bitcount(0xff) == 8,
        bitcount(0xffff) == 16,
        bitcount(0xffff_ffff) == 32,
        bitcount(0xffff_ffff_ffff_ffff) == 64,
{
    lemma2_to64();
    lemma2_to64_rest();
    lemma_bitcount_mask(2);
    lemma_bitcount_mask(4);
    lemma_bitcount_mask(8);
    lemma_bitcount_mask(16);
    lemma_bitcount_mask(32);
    lemma_bitcount_mask(64);
}

/// Counts the set bits of a word.
pub fn popcount(x: u64) -> (r: u32)
    ensures
        r == bitcount(x as nat),
        r <= 64,
{
    proof {
        lemma2_to64_rest();
        lemma_bitcount_bound(x as nat, 64);
    }
    let mut n: u64 = x;
    let mut c: u32 = 0;
    while n != 0
        invariant
            c + bitcount(n as nat) == bitcount(x as nat),
            bitcount(x as nat) <= 64,
        decreases n,
    {
        c = c + (n % 2) as u32;
        n = n / 2;
    }
    c
}

} // verus!
