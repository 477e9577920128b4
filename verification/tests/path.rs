use pocket_prover::and;
use pocket_prover::and3;
use pocket_prover::andn;
use pocket_prover::eq;
use pocket_prover::imply;
use pocket_prover::implyn;
use pocket_prover::or;
use pocket_prover::orn;
use pocket_prover::path1_count1;
use pocket_prover::path1_count10;
use pocket_prover::path1_count2;
use pocket_prover::path1_count3;
use pocket_prover::path1_count4;
use pocket_prover::path1_count5;
use pocket_prover::path1_count6;
use pocket_prover::path1_count7;
use pocket_prover::path1_count8;
use pocket_prover::path1_count9;
use pocket_prover::path1_countn;
use pocket_prover::path1_countnm;
use pocket_prover::path1_lennm;
use pocket_prover::path1_prove4;
use pocket_prover::path1_proven;
use pocket_prover::path1_provenm;
use pocket_prover::xor;
use pocket_prover::xorn;
use pocket_prover::F;
use pocket_prover::T;

#[test]
fn closed_form_counts_compatible_assignments() {
    // L(f, x) = 2^(f+1) + (f+1) * (2^x - 2)
    assert_eq!(path1_lennm(1, 1), 4);
    assert_eq!(path1_lennm(2, 1), 8);
    assert_eq!(path1_lennm(2, 2), 14);
    assert_eq!(path1_lennm(3, 2), 24);
    assert_eq!(path1_lennm(3, 3), 40);
    assert_eq!(path1_lennm(4, 3), 62);
    assert_eq!(path1_lennm(4, 4), 102);
    assert_eq!(path1_lennm(5, 4), 148);
    assert_eq!(path1_lennm(5, 5), 244);
    assert_eq!(path1_lennm(0, 1), 2);
    assert_eq!(path1_lennm(10, 6), 2730);
    // with no value-level propositions the form is 2^(f+1) - (f+1)
    assert_eq!(path1_lennm(0, 0), 1);
    assert_eq!(path1_lennm(1, 0), 2);
    assert_eq!(path1_lennm(3, 0), 12);
}

#[test]
fn constant_formulas_fill_every_window() {
    assert_eq!(path1_count1(&|_| T), 2);
    assert_eq!(path1_count2(&|_, _| T), 4);
    assert_eq!(path1_count3(&|_, _| T), 8);
    assert_eq!(path1_count4(&|_, _| T), 14);
    assert_eq!(path1_count5(&|_, _| T), 24);
    assert_eq!(path1_count6(&|_, _| T), 40);
    assert_eq!(path1_count7(&|_, _| T), 62);
    assert_eq!(path1_count8(&|_, _| T), 102);
    assert_eq!(path1_count9(&|_, _| T), 148);
    assert_eq!(path1_count10(&|_, _| T), 244);
    assert_eq!(path1_count4(&|_, _| F), 0);
    assert_eq!(path1_count10(&|_, _| F), 0);
}

#[test]
fn uniquely_associated_values_are_equal() {
    // (f(x), g(y), f = g) => (x = y)
    assert!(path1_prove4(&|fg: (u64, u64), xy: (u64, u64)| imply(
        and3(imply(fg.0, xy.0), imply(fg.1, xy.1), eq(fg.0, fg.1)),
        eq(xy.0, xy.1)
    )));
    assert_eq!(
        path1_count4(&|fg: (u64, u64), xy: (u64, u64)| imply(
            and3(imply(fg.0, xy.0), imply(fg.1, xy.1), eq(fg.0, fg.1)),
            eq(xy.0, xy.1)
        )),
        14
    );
}

#[test]
fn fixed_and_generic_path_counters_agree() {
    let fun = |fs: &[u64], xs: &[u64]| imply(orn(fs), andn(xs));
    assert_eq!(
        path1_count3(&|fg: (u64, u64), x: u64| imply(or(fg.0, fg.1), x)) as u64,
        path1_countnm(2, 1, &fun)
    );
    assert_eq!(
        path1_count4(&|fg: (u64, u64), xy: (u64, u64)| imply(or(fg.0, fg.1), and(xy.0, xy.1)))
            as u64,
        path1_countnm(2, 2, &fun)
    );
    assert_eq!(
        path1_count5(&|fg: (u64, u64, u64), xy: (u64, u64)| imply(
            or(or(fg.0, fg.1), fg.2),
            and(xy.0, xy.1)
        )) as u64,
        path1_countnm(3, 2, &fun)
    );
    assert_eq!(
        path1_count6(&|fg: (u64, u64, u64), xy: (u64, u64, u64)| imply(
            or(or(fg.0, fg.1), fg.2),
            and(and(xy.0, xy.1), xy.2)
        )) as u64,
        path1_countnm(3, 3, &fun)
    );
    assert_eq!(
        path1_count7(&|fg: (u64, u64, u64, u64), xy: (u64, u64, u64)| imply(
            or(or(or(fg.0, fg.1), fg.2), fg.3),
            and(and(xy.0, xy.1), xy.2)
        )) as u64,
        path1_countnm(4, 3, &fun)
    );
    assert_eq!(
        path1_count8(&|fg: (u64, u64, u64, u64), xy: (u64, u64, u64, u64)| imply(
            or(or(or(fg.0, fg.1), fg.2), fg.3),
            and(and(and(xy.0, xy.1), xy.2), xy.3)
        )) as u64,
        path1_countnm(4, 4, &fun)
    );
    assert_eq!(
        path1_count9(&|fg: (u64, u64, u64, u64, u64), xy: (u64, u64, u64, u64)| imply(
            or(or(or(or(fg.0, fg.1), fg.2), fg.3), fg.4),
            and(and(and(xy.0, xy.1), xy.2), xy.3)
        )) as u64,
        path1_countnm(5, 4, &fun)
    );
    assert_eq!(
        path1_count10(&|fg: (u64, u64, u64, u64, u64), xy: (u64, u64, u64, u64, u64)| imply(
            or(or(or(or(fg.0, fg.1), fg.2), fg.3), fg.4),
            and(and(and(and(xy.0, xy.1), xy.2), xy.3), xy.4)
        )) as u64,
        path1_countnm(5, 5, &fun)
    );
}

#[test]
fn constant_formulas_reach_the_closed_form() {
    for f in 1..6usize {
        for x in 1..6usize {
            assert_eq!(path1_countnm(f, x, &|_: &[u64], _: &[u64]| T), path1_lennm(f, x));
            assert_eq!(path1_countnm(f, x, &|_: &[u64], _: &[u64]| F), 0);
            assert!(path1_provenm(f, x, &|_: &[u64], _: &[u64]| T));
            assert!(!path1_provenm(f, x, &|_: &[u64], _: &[u64]| F));
        }
    }
    for n in 2..13usize {
        assert!(path1_proven(n, &|_: &[u64], _: &[u64]| T));
        assert!(!path1_proven(n, &|_: &[u64], _: &[u64]| F));
    }
    // a single proposition sits alone on the function level: L(1, 0) = 2
    assert!(path1_proven(1, &|_: &[u64], _: &[u64]| T));
    assert!(!path1_proven(1, &|_: &[u64], _: &[u64]| F));
}

#[test]
fn generic_path_counter_dispatches_by_arity() {
    let fun = |fs: &[u64], xs: &[u64]| imply(implyn(fs), xorn(xs));
    // implyn of [a, b] is a => b; xorn of one element is the element
    assert_eq!(path1_countn(3, &fun), {
        let h = |fg: (u64, u64), x: u64| imply(imply(fg.0, fg.1), x);
        path1_count3(&h) as u64
    });
    assert_eq!(path1_countn(4, &fun), {
        let h = |fg: (u64, u64), xy: (u64, u64)| imply(imply(fg.0, fg.1), xor(xy.0, xy.1));
        path1_count4(&h) as u64
    });
    // beyond ten propositions the split is f = n - n/2, x = n/2
    assert_eq!(path1_countn(11, &fun), path1_countnm(6, 5, &fun));
}
