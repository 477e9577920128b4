use pocket_prover::amplify;
use pocket_prover::and;
use pocket_prover::eq;
use pocket_prover::imply;
use pocket_prover::measure;
use pocket_prover::prove1;
use pocket_prover::ps_core;
use pocket_prover::qual;
use pocket_prover::qubit;
use pocket_prover::T;

#[test]
fn qubit_is_deterministic_per_seed_and_not_trivial() {
    assert_eq!(qubit(7, 42), qubit(7, 42));
    // the generator really runs: the word is neither the argument, the
    // seed, nor their xor
    assert_ne!(qubit(0, 0), 0);
    assert_ne!(qubit(3, 5), 3 ^ 5);
    assert_ne!(qubit(3, 5), 5);
}

#[test]
fn quality_off_the_diagonal_is_equality() {
    // for distinct patterns no randomness is involved
    assert_eq!(qual(11, 3, 5), eq(3, 5));
    assert_eq!(qual(99, 3, 5), eq(3, 5));
    assert_eq!(qual(11, 0, T), eq(0, T));
}

#[test]
fn quality_is_symmetric() {
    for seed in 0..20u64 {
        assert_eq!(qual(seed, 3, 5), qual(seed, 5, 3));
        assert_eq!(qual(seed, seed, 17), qual(seed, 17, seed));
        assert_eq!(qual(seed, 8, 8), qual(seed, 8, 8));
    }
}

#[test]
fn self_quality_depends_on_the_seed() {
    // across a few seeds the self-quality word varies
    let mut all_equal = true;
    let first = qual(0, 42, 42);
    for seed in 1..64u64 {
        if qual(seed, 42, 42) != first {
            all_equal = false;
        }
    }
    assert!(!all_equal);
}

#[test]
fn self_quality_consistency_measures_true_but_self_quality_does_not() {
    assert!(measure(100, &|s| prove1(&|a| eq(qual(s, a, a), qual(s, a, a)))));
    assert!(!measure(100, &|s| prove1(&|a| qual(s, a, a))));
}

#[test]
fn quality_is_transitive_under_measurement() {
    assert!(measure(100, &|s| pocket_prover::prove3(&|a, b, c| imply(
        and(qual(s, a, b), qual(s, b, c)),
        qual(s, a, c)
    ))));
}

#[test]
fn amplify_is_monotone() {
    for seed in 0..8u64 {
        let a = 0x0123_4567_89ab_cdef;
        assert_eq!(amplify(seed, 0, a), a);
        for n in 0..6u32 {
            let now = amplify(seed, n, a);
            let next = amplify(seed, n + 1, a);
            assert_eq!(a & now, a);
            assert_eq!(now & next, now);
        }
    }
}

#[test]
fn measure_folds_by_least_energy() {
    // a seed-independent observable measures as itself
    assert_eq!(measure(1, &|_s| 42u32), 42);
    assert_eq!(measure(7, &|_s| 42u32), 42);
    assert!(measure(5, &|_s| true));
    assert!(!measure(5, &|_s| false));
    // no trials leave the greatest energy level
    assert!(measure(0, &|_s| false));
    assert_eq!(measure(0, &|_s| 7u32), u32::MAX);
}

#[test]
fn core_axiom_matches_its_parts() {
    for seed in 0..8u64 {
        let (a, b, c, d) = (3, 3, 12, 13);
        let by_hand = imply(
            pocket_prover::and3(qual(seed, a, b), imply(a, c), imply(b, d)),
            qual(seed, c, d),
        );
        assert_eq!(ps_core(seed, a, b, c, d), by_hand);
    }
}
