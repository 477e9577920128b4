use pocket_prover::and;
use pocket_prover::and3;
use pocket_prover::andn;
use pocket_prover::count1;
use pocket_prover::count10;
use pocket_prover::count2;
use pocket_prover::count3;
use pocket_prover::count4;
use pocket_prover::count5;
use pocket_prover::count6;
use pocket_prover::count7;
use pocket_prover::count8;
use pocket_prover::count9;
use pocket_prover::countn;
use pocket_prover::eq;
use pocket_prover::false_1;
use pocket_prover::false_2;
use pocket_prover::id;
use pocket_prover::imply;
use pocket_prover::imply3;
use pocket_prover::imply4;
use pocket_prover::implyn;
use pocket_prover::not;
use pocket_prover::or;
use pocket_prover::or3;
use pocket_prover::or4;
use pocket_prover::orn;
use pocket_prover::prove1;
use pocket_prover::prove10;
use pocket_prover::prove2;
use pocket_prover::prove3;
use pocket_prover::proven;
use pocket_prover::true_1;
use pocket_prover::true_2;
use pocket_prover::xor;
use pocket_prover::xor3;
use pocket_prover::xor5;
use pocket_prover::xorn;
use pocket_prover::F;
use pocket_prover::T;

#[test]
fn test_2() {
    assert_eq!(count1(&false_1), 0);
    assert_eq!(count1(&not), 1);
    assert_eq!(count1(&id), 1);
    assert_eq!(count1(&true_1), 2);

    assert_eq!(count2(&false_2), 0);
    assert_eq!(count2(&and), 1);
    assert_eq!(count2(&xor), 2);
    assert_eq!(count2(&eq), 2);
    assert_eq!(count2(&or), 3);
    assert_eq!(count2(&true_2), 4);
    assert_eq!(count2(&imply), 3);
    assert_eq!(count2(&|a, b| imply(and(a, b), or(a, b))), 4);

    assert_eq!(count3(&|a, b, c| and(or(a, b), and(a, c))), 2);
    assert_eq!(count4(&|a, b, c, d| and(or(a, b), or(c, d))), 9);
    assert_eq!(count5(&|_, _, _, _, _| T), 32);
    assert_eq!(count6(&|_, _, _, _, _, _| T), 64);
    assert_eq!(count7(&|_, _, _, _, _, _, _| T), 128);
    assert_eq!(count8(&|_, _, _, _, _, _, _, _| T), 256);
    assert_eq!(count9(&|_, _, _, _, _, _, _, _, _| T), 512);
    assert_eq!(count10(&|_, _, _, _, _, _, _, _, _, _| T), 1024);
}

#[test]
fn constant_formulas_count_all_or_nothing() {
    assert_eq!(count1(&|_| T), 2);
    assert_eq!(count1(&|_| F), 0);
    assert_eq!(count2(&|_, _| T), 4);
    assert_eq!(count2(&|_, _| F), 0);
    assert_eq!(count3(&|_, _, _| T), 8);
    assert_eq!(count3(&|_, _, _| F), 0);
    assert_eq!(count4(&|_, _, _, _| T), 16);
    assert_eq!(count4(&|_, _, _, _| F), 0);
    assert_eq!(count10(&|_, _, _, _, _, _, _, _, _, _| F), 0);
    for n in 0..14usize {
        assert_eq!(countn(n, &|_vs: &[u64]| F), 0);
    }
    for n in 1..14usize {
        assert_eq!(countn(n, &|_vs: &[u64]| T), 1u64 << n);
    }
    // with no variables the whole 64-bit word is counted
    assert_eq!(countn(0, &|_vs: &[u64]| T), 64);
}

#[test]
fn constant_formulas_prove_as_expected() {
    assert!(prove1(&|_| T));
    assert!(!prove1(&|_| F));
    assert!(prove2(&|_, _| T));
    assert!(!prove2(&|_, _| F));
    assert!(prove10(&|_, _, _, _, _, _, _, _, _, _| T));
    assert!(!prove10(&|_, _, _, _, _, _, _, _, _, _| F));
    for n in 1..14usize {
        assert!(proven(n, &|_vs: &[u64]| T));
        assert!(!proven(n, &|_vs: &[u64]| F));
    }
}

#[test]
fn modus_ponens() {
    assert!(prove2(&|p, q| imply(and(imply(p, q), p), q)));
    assert_eq!(count2(&|p, q| imply(and(imply(p, q), p), q)), 4);
}

#[test]
fn socrates_is_mortal() {
    assert!(prove3(&|man, mortal, socrates| imply(
        and(imply(man, mortal), imply(socrates, man)),
        imply(socrates, mortal)
    )));
}

#[test]
fn connective_laws_are_tautologies() {
    assert!(prove2(&|a, b| eq(and(a, b), and(b, a))));
    assert!(prove2(&|a, b| eq(or(a, b), or(b, a))));
    assert!(prove2(&|a, b| eq(xor(a, b), xor(b, a))));
    assert!(prove3(&|a, b, c| eq(and(and(a, b), c), and(a, and(b, c)))));
    assert!(prove3(&|a, b, c| eq(or(or(a, b), c), or(a, or(b, c)))));
    assert!(prove3(&|a, b, c| eq(xor(xor(a, b), c), xor(a, xor(b, c)))));
    assert!(prove2(&|a, b| eq(not(and(a, b)), or(not(a), not(b)))));
}

#[test]
fn inference_rules_are_tautologies() {
    assert!(prove2(&|p, q| imply(and(imply(p, q), p), q)));
    assert!(prove2(&|p, q| imply(and(imply(p, q), not(q)), not(p))));
    assert!(prove3(&|p, q, r| imply(and(imply(p, q), imply(q, r)), imply(p, r))));
    assert!(prove2(&|p, q| imply(and(or(p, q), not(p)), q)));
    assert!(prove3(&|p, q, r| imply(and(or(p, q), or(not(p), r)), or(q, r))));
}

#[test]
fn fixed_and_generic_counters_agree() {
    assert_eq!(count1(&|a| a) as u64, countn(1, &|vs: &[u64]| vs[0]));
    assert_eq!(count2(&|a, b| or(a, b)) as u64, countn(2, &|vs: &[u64]| orn(vs)));
    assert_eq!(count3(&|a, b, c| or3(a, b, c)) as u64, countn(3, &|vs: &[u64]| orn(vs)));
    assert_eq!(
        count4(&|a, b, c, d| or(or(a, b), or(c, d))) as u64,
        countn(4, &|vs: &[u64]| orn(vs))
    );
    assert_eq!(
        count5(&|a, b, c, d, e| or(or3(a, b, c), or(d, e))) as u64,
        countn(5, &|vs: &[u64]| orn(vs))
    );
    assert_eq!(
        count6(&|a, b, c, d, e, f| or(or3(a, b, c), or3(d, e, f))) as u64,
        countn(6, &|vs: &[u64]| orn(vs))
    );
    assert_eq!(
        count7(&|a, b, c, d, e, f, g| or(or3(a, b, c), or(or(d, e), or(f, g)))) as u64,
        countn(7, &|vs: &[u64]| orn(vs))
    );
    assert_eq!(
        count8(&|a, b, c, d, e, f, g, h| or(or(or(a, b), or(c, d)), or(or(e, f), or(g, h))))
            as u64,
        countn(8, &|vs: &[u64]| orn(vs))
    );
    assert_eq!(
        count9(&|a, b, c, d, e, f, g, h, i| or(
            or(or(a, b), or(c, d)),
            or(or(e, f), or3(g, h, i))
        )) as u64,
        countn(9, &|vs: &[u64]| orn(vs))
    );
    assert_eq!(
        count10(&|a, b, c, d, e, f, g, h, i, j| or(
            or(or(a, b), or3(c, d, e)),
            or(or(f, g), or3(h, i, j))
        )) as u64,
        countn(10, &|vs: &[u64]| orn(vs))
    );
}

#[test]
fn generic_counter_beyond_ten_variables() {
    // an OR of n variables misses only the all-false assignment
    assert_eq!(countn(11, &|vs: &[u64]| orn(vs)), (1u64 << 11) - 1);
    assert_eq!(countn(12, &|vs: &[u64]| orn(vs)), (1u64 << 12) - 1);
    assert!(proven(11, &|vs: &[u64]| imply(vs[10], orn(vs))));
    assert!(!proven(11, &|vs: &[u64]| vs[0]));
}

#[test]
fn variadic_connectives_and_their_edges() {
    assert_eq!(andn(&[]), T);
    assert_eq!(orn(&[]), F);
    assert_eq!(xorn(&[]), F);
    assert_eq!(implyn(&[]), T);
    assert_eq!(andn(&[5]), 5);
    assert_eq!(orn(&[5]), 5);
    assert_eq!(xorn(&[5]), 5);
    assert_eq!(implyn(&[5]), 5);
    assert_eq!(andn(&[T, T, F]), F);
    assert_eq!(andn(&[T; 12]), T);
    assert_eq!(orn(&[F, F, T]), T);
    // an XOR of three or more arguments is true when exactly one of them
    // is, not on odd parity
    assert_eq!(xor3(T, T, T), F);
    assert_eq!(xor3(T, F, F), T);
    assert_eq!(xorn(&[T, T, T]), F);
    assert_eq!(xorn(&[F, T, F, F]), T);
    assert_eq!(xorn(&[T, T, F, F]), F);
    assert_eq!(xorn(&[F, F, F, F, F, F, F, F, F, F, F, T]), T);
    // an IMPLY chain holds between consecutive arguments, and is not a
    // right-associated implication
    assert_eq!(implyn(&[T, F, T]), F);
    assert_eq!(imply3(T, F, T), F);
    assert_eq!(implyn(&[F, T, T]), T);
    // the fixed arities match the slice forms
    assert_eq!(and3(1, 3, 7), andn(&[1, 3, 7]));
    assert_eq!(or4(1, 2, 4, 8), orn(&[1, 2, 4, 8]));
    assert_eq!(xor5(T, F, T, F, F), xorn(&[T, F, T, F, F]));
    assert_eq!(imply4(1, 3, 7, 15), implyn(&[1, 3, 7, 15]));
    assert_eq!(pocket_prover::true_3(5, 6, 7), T);
    assert_eq!(pocket_prover::false_7(1, 2, 3, 4, 5, 6, 7), F);
}
