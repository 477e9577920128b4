//! The quality layer: a randomized equality connective and the
//! measurement combinator around it.
//!
//! `qubit` draws a pseudo-random word deterministically from a
//! proposition and an ambient 64-bit seed; `qual` is bitwise equality
//! gated by that word on the self-quality diagonal.  A formula that calls
//! them is not a classical tautology: its value depends on the seed, and
//! `measure` is the intended interface, running the formula on a fresh
//! seed per trial and keeping the worst outcome seen.
//!
//! The seed is an explicit argument here: `measure` draws one per trial
//! and hands it to its formula, which passes it on to `qual` and
//! `qubit`.  Within one trial repeated calls therefore agree, and across
//! trials the seeds differ.

use crate::bits::T;
use rand::Rng;
use rand::SeedableRng;
use vstd::prelude::*;

verus! {

/// The first word of the pinned pseudo-random generator, as a function
/// of its seed alone.
pub uninterp spec fn rng_word_of(seed: u64) -> u64;

/// Relies on `rand::rngs::StdRng::seed_from_u64` and `rand::Rng::gen`:
/// for the pinned generator both are deterministic, so the first 64-bit
/// word drawn is a function of the seed alone.
#[verifier::external_body]
fn rng_word(seed: u64) -> (r: u64)
    ensures
        r == rng_word_of(seed),
{
    let mut rng = rand::rngs::StdRng::seed_from_u64(seed);
    rng.gen()
}

/// Relies on `rand::random` drawing a fresh word from the thread-local
/// generator; nothing is promised of the outcome.
#[verifier::external_body]
fn fresh_seed() -> u64 {
    rand::random::<u64>()
}

/// The seed-derived pseudo-random word of a proposition.
pub open spec fn qubit_of(seed: u64, a: u64) -> u64 {
    rng_word_of(a ^ seed)
}

/// Prepares a qubit using a proposition as seed: a pseudo-random word
/// drawn deterministically from the proposition and the ambient seed.
pub fn qubit(seed: u64, a: u64) -> (r: u64)
    ensures
        r == qubit_of(seed, a),
{
    rng_word(a ^ seed)
}

/// The n-fold widening of a proposition by its qubit transform.
pub open spec fn amplify_of(seed: u64, n: u32, a: u64) -> u64
    decreases n,
{
    if n == 0 {
        a
    } else {
        amplify_of(seed, (n - 1) as u32, a) | qubit_of(
            seed,
            amplify_of(seed, (n - 1) as u32, a),
        )
    }
}

/// Amplify a "wavefunction" of a proposition using its qubit transform.
pub fn amplify(seed: u64, n: u32, a: u64) -> (r: u64)
    ensures
        r == amplify_of(seed, n, a),
{
    let mut acc = a;
    let mut k: u32 = 0;
    while k < n
        invariant
            k <= n,
            acc == amplify_of(seed, k, a),
        decreases n - k,
    {
        acc = acc | qubit(seed, acc);
        k = k + 1;
    }
    acc
}

/// The word `qual` returns: bitwise equality, gated by the qubit word
/// when the two propositions are literally the same pattern.
pub open spec fn qual_of(seed: u64, a: u64, b: u64) -> u64 {
    !(a ^ b) & (if a == b {
        qubit_of(seed, a)
    } else {
        T
    })
}

/// Path semantical quality `a ~~ b`: bitwise equality of `a` and `b`,
/// gated by a seed-dependent random word in the self-quality case.
pub fn qual(seed: u64, a: u64, b: u64) -> (r: u64)
    ensures
        r == qual_of(seed, a, b),
{
    crate::bits::and(
        crate::bits::eq(a, b),
        if a == b {
            qubit(seed, a)
        } else {
            T
        },
    )
}

/// The word `ps_core` returns: the core axiom of path semantics lifted
/// into the quality logic.
pub open spec fn ps_core_of(seed: u64, a: u64, b: u64, c: u64, d: u64) -> u64 {
    !(qual_of(seed, a, b) & (!a | c) & (!b | d)) | qual_of(seed, c, d)
}

/// Assumes the path semantical core axiom: quality of `a` and `b`,
/// together with `a => c` and `b => d`, implies quality of `c` and `d`.
pub fn ps_core(seed: u64, a: u64, b: u64, c: u64, d: u64) -> (r: u64)
    ensures
        r == ps_core_of(seed, a, b, c, d),
{
    crate::bits::imply(
        crate::bits::and3(qual(seed, a, b), crate::bits::imply(a, c), crate::bits::imply(b, d)),
        qual(seed, c, d),
    )
}

/// Implemented by observables.
pub trait Observable: Sized {
    /// The greatest energy level, in specification.
    spec fn spec_max_energy() -> Self;

    /// The lesser energy of two observables, in specification.
    spec fn spec_min_energy(self, other: Self) -> Self;

    /// Gets the maximum energy level of observable.
    fn max_energy() -> (r: Self)
        ensures
            r == Self::spec_max_energy(),
    ;

    /// Gets the minimum energy level of two observables.
    fn min_energy(self, other: Self) -> (r: Self)
        ensures
            r == self.spec_min_energy(other),
    ;

    /// The greatest energy level is a unit: lowering it by any
    /// observable gives that observable back.
    proof fn lemma_max_identity(x: Self)
        ensures
            Self::spec_max_energy().spec_min_energy(x) == x,
    ;
}

impl Observable for bool {
    open spec fn spec_max_energy() -> bool {
        true
    }

    open spec fn spec_min_energy(self, other: bool) -> bool {
        self && other
    }

    fn max_energy() -> bool {
        true
    }

    fn min_energy(self, other: bool) -> bool {
        self && other
    }

    proof fn lemma_max_identity(x: bool) {
    }
}

impl Observable for u32 {
    open spec fn spec_max_energy() -> u32 {
        u32::MAX
    }

    open spec fn spec_min_energy(self, other: u32) -> u32 {
        if self < other {
            self
        } else {
            other
        }
    }

    fn max_energy() -> u32 {
        u32::MAX
    }

    fn min_energy(self, other: u32) -> u32 {
        if self < other {
            self
        } else {
            other
        }
    }

    proof fn lemma_max_identity(x: u32) {
    }
}

/// The fold of trial outcomes by falling energy: the measured value is
/// the least energy seen, starting from the greatest level.
pub open spec fn measure_fold<O: Observable>(vs: Seq<O>) -> O
    decreases vs.len(),
{
    if vs.len() == 0 {
        O::spec_max_energy()
    } else {
        measure_fold(vs.drop_last()).spec_min_energy(vs.last())
    }
}

/// What `measure` returns: `n` trials, each handed a seed and returning
/// a possible outcome of the formula on it, folded by least energy.
pub open spec fn measure_post<O: Observable, FN: Fn(u64) -> O>(n: u32, f: FN, r: O) -> bool {
    exists|seeds: Seq<u64>, vs: Seq<O>|
        #[trigger] measure_fold(vs) == r && #[trigger] seeds.len() == n && vs.len() == n && (forall|
            i: int,
        |
            0 <= i < n ==> call_ensures(f, (seeds[i],), #[trigger] vs[i]))
}

/// Measures result repeatedly: each trial draws a fresh ambient seed,
/// hands it to the formula, and the outcomes combine by least energy.
pub fn measure<O: Observable, FN: Fn(u64) -> O>(n: u32, f: &FN) -> (r: O)
    requires
        forall|s: (u64,)| call_requires(*f, s),
    ensures
        measure_post(n, *f, r),
{
    let mut b = O::max_energy();
    let mut k: u32 = 0;
    let ghost mut seeds: Seq<u64> = Seq::<u64>::empty();
    let ghost mut vs: Seq<O> = Seq::<O>::empty();
    while k < n
        invariant
            k <= n,
            seeds.len() == k,
            vs.len() == k,
            forall|s: (u64,)| call_requires(*f, s),
            b == measure_fold(vs),
            forall|i: int| 0 <= i < k ==> call_ensures(*f, (seeds[i],), #[trigger] vs[i]),
        decreases n - k,
    {
        let s = fresh_seed();
        let v = f(s);
        proof {
            let old_vs = vs;
            seeds = seeds.push(s);
            vs = vs.push(v);
            assert(vs.drop_last() =~= old_vs);
        }
        b = b.min_energy(v);
        k = k + 1;
    }
    b
}

/// Quality is symmetric: on every seed the words `qual(a, b)` and
/// `qual(b, a)` are equal outright, so their bitwise equality is a
/// tautology.
pub proof fn lemma_qual_symmetric(seed: u64, a: u64, b: u64)
    ensures
        qual_of(seed, a, b) == qual_of(seed, b, a),
{
    assert((!(a ^ b)) == (!(b ^ a))) by (bit_vector);
}

/// Amplification is monotone: every bit set in the proposition stays
/// set, and every bit set after `n` rounds is still set after one more.
pub proof fn lemma_amplify_monotone(seed: u64, n: u32, a: u64)
    ensures
        a & amplify_of(seed, n, a) == a,
        n < u32::MAX ==> amplify_of(seed, n, a) & amplify_of(seed, (n + 1) as u32, a)
            == amplify_of(seed, n, a),
    decreases n,
{
    if n == 0 {
        assert(a & a == a) by (bit_vector);
    } else {
        lemma_amplify_monotone(seed, (n - 1) as u32, a);
        let x = amplify_of(seed, (n - 1) as u32, a);
        let q = qubit_of(seed, x);
        assert(a & (x | q) == a) by (bit_vector)
            requires
                a & x == a,
        ;
    }
    if n < u32::MAX {
        let x = amplify_of(seed, n, a);
        let q = qubit_of(seed, x);
        assert(x & (x | q) == x) by (bit_vector);
    }
}

/// A single measurement returns its trial's own outcome.
pub proof fn lemma_measure_one<O: Observable, FN: Fn(u64) -> O>(f: FN, r: O)
    requires
        measure_post(1, f, r),
    ensures
        exists|s: u64, v: O| #[trigger] call_ensures(f, (s,), v) && r == v,
{
    let (seeds, vs) = choose|seeds: Seq<u64>, vs: Seq<O>|
        #[trigger] measure_fold(vs) == r && #[trigger] seeds.len() == 1 && vs.len() == 1 && (
        forall|i: int| 0 <= i < 1 ==> call_ensures(f, (seeds[i],), #[trigger] vs[i]));
    assert(vs.drop_last() =~= Seq::<O>::empty());
    assert(measure_fold(vs.drop_last()) == O::spec_max_energy());
    assert(vs.last() == vs[0]);
    assert(measure_fold(vs) == O::spec_max_energy().spec_min_energy(vs[0]));
    O::lemma_max_identity(vs[0]);
    assert(call_ensures(f, (seeds[0],), vs[0]));
}

} // verus!
