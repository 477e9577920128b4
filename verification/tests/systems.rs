use pocket_prover::all;
use pocket_prover::and;
use pocket_prover::any;
use pocket_prover::bit;
use pocket_prover::bitv;
use pocket_prover::eq;
use pocket_prover::imply;
use pocket_prover::not;
use pocket_prover::or;
use pocket_prover::prop;
use pocket_prover::Unary;
use pocket_prover::BaseSystem;
use pocket_prover::Construct;
use pocket_prover::CoreRules;
use pocket_prover::Prove;
use pocket_prover::F;
use pocket_prover::T;

pub struct Foo {
    pub a: u64,
    pub b: u64,
}

impl Construct for Foo {
    fn construct(vs: &[u64]) -> Self {
        Foo { a: vs[0], b: vs[1] }
    }

    fn n() -> usize {
        2
    }
}

pub struct Bar<T = ()> {
    pub foo: T,
    pub a: u64,
    pub b: u64,
}

impl<T: Construct> Construct for Bar<T> {
    fn construct(vs: &[u64]) -> Self {
        let n0 = T::n();
        Bar { foo: T::construct(vs), a: vs[n0], b: vs[n0 + 1] }
    }

    fn n() -> usize {
        T::n() + 2
    }
}

#[test]
fn foo_a_b() {
    let vs = &[1, 2];
    let foo: Foo = Construct::construct(vs);
    assert_eq!(foo.a, 1);
    assert_eq!(foo.b, 2);
}

#[test]
fn bar_a_b() {
    let vs = &[1, 2];
    let bar: Bar = Construct::construct(vs);
    assert_eq!(bar.a, 1);
    assert_eq!(bar.b, 2);
}

#[test]
fn bar_foo_a_b() {
    let vs = &[1, 2, 3, 4];
    let bar: Bar<Foo> = Construct::construct(vs);
    assert_eq!(bar.foo.a, 1);
    assert_eq!(bar.foo.b, 2);
    assert_eq!(bar.a, 3);
    assert_eq!(bar.b, 4);
}

#[test]
fn bar_bar_foo_a_b() {
    let vs = &[1, 2, 3, 4, 5, 6];
    let bar: Bar<Bar<Foo>> = Construct::construct(vs);
    assert_eq!(bar.foo.foo.a, 1);
    assert_eq!(bar.foo.foo.b, 2);
    assert_eq!(bar.foo.a, 3);
    assert_eq!(bar.foo.b, 4);
    assert_eq!(bar.a, 5);
    assert_eq!(bar.b, 6);
}

#[derive(Clone, Copy)]
pub struct Weather {
    pub rain: u64,
    pub wet: u64,
}

impl Construct for Weather {
    fn construct(vs: &[u64]) -> Self {
        Weather { rain: vs[0], wet: vs[1] }
    }

    fn n() -> usize {
        2
    }
}

impl CoreRules for Weather {
    fn core_rules(&self) -> u64 {
        imply(self.rain, self.wet)
    }
}

impl BaseSystem for Weather {
}

#[test]
fn system_counts_under_its_rules() {
    // without constraints on the statement every assignment counts
    assert_eq!(Weather::count(&|_w| T), 4);
    // `imply(rules, F)` holds only where the rules fail: one assignment
    assert_eq!(Weather::count(&|_w| F), 1);
    assert_eq!(Weather::count(&|w: Weather| w.wet), 3);
}

#[test]
fn system_judgments_follow_the_rules() {
    assert!(Weather::prove(&|w: Weather| imply(w.rain, w.wet)));
    assert!(!Weather::prove(&|w: Weather| imply(w.wet, w.rain)));
    assert!(Weather::means(&|w: Weather| w.rain, &|w: Weather| w.wet));
    assert!(Weather::does_not_mean(&|w: Weather| w.wet, &|w: Weather| w.rain));
    assert!(Weather::eq(&|w: Weather| and(w.rain, w.wet), &|w: Weather| w.rain));
    assert!(Weather::exc(&|w: Weather| w.rain, &|w: Weather| not(w.rain)));
    assert!(Weather::imply(&|w: Weather| w.rain, &|w: Weather| w.wet));
}

#[test]
fn tuple_systems_compose() {
    type Two = (Weather, Weather);
    assert_eq!(<Two as Construct>::n(), 4);
    let sys: Two = Construct::construct(&[T, T, F, F]);
    assert_eq!(sys.0.rain, T);
    assert_eq!(sys.1.rain, F);
    // both inner rule sets apply
    assert_eq!(<Two as Prove>::count(&|_s| T), 16);
    assert!(<Two as Prove>::prove(&|s: Two| and(
        imply(s.0.rain, s.0.wet),
        imply(s.1.rain, s.1.wet)
    )));
}

#[test]
fn enumeration_checks_small_types() {
    // the enumeration walks the successors of the start value
    assert_eq!(any(&|x: u8| prop(x == 10)), T);
    assert_eq!(any(&|x: u8| prop(x == 0)), F);
    assert_eq!(all(&|x: u8| prop(x >= 1)), T);
    assert_eq!(all(&|x: u8| prop(x > 100)), F);
}

#[test]
fn unary_functions_enumerate() {
    // the enumeration walks the successors of the start value:
    // negation, identity, and the constant-true function
    assert_eq!(any(&|p: Unary| p.apply(F)), T);
    assert_eq!(all(&|p: Unary| p.apply(F)), F);
    assert_eq!(all(&|p: Unary| or(p.apply(T), p.apply(F))), T);
    // none of them is false on both inputs
    assert_eq!(any(&|p: Unary| and(not(p.apply(T)), not(p.apply(F)))), F);
}

#[test]
fn bits_convert_both_ways() {
    assert_eq!(bit(true), 1);
    assert_eq!(bit(false), 0);
    assert!(bitv(1));
    assert!(bitv(64));
    assert!(!bitv(0));
    assert_eq!(prop(true), T);
    assert_eq!(prop(false), F);
    assert_eq!(bit(bitv(5)), 1);
    assert_eq!(eq(T, T), T);
}
