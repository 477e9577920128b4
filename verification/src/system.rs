//! Configurable logical systems and enumeration of small finite types.
//!
//! A logical system is a record of proposition words together with rule
//! functions: its own axioms, and axioms linking it to a nested inner
//! system.  Proving a statement over a system is proving that the
//! conjunction of all rules implies the statement, which reduces to the
//! ordinary counters.  `Construct` deserializes a system from a flat
//! slice of words and is the interface a build-time generator targets.
//!
//! Each trait pairs its methods with specification counterparts, and the
//! method contracts pin the results to them.  An implementation written
//! outside the verifier leaves a defaulted specification method at its
//! default, which promises nothing definite; nothing is then proved
//! about that implementation.

use crate::bits::F;
use crate::bits::T;
use crate::count::countn;
use crate::count::countn_value;
use crate::count::lemma_countn_post_determined;
use vstd::arithmetic::power2::pow2;
use vstd::prelude::*;
use vstd::slice::slice_subrange;

verus! {

/// Implemented by types to use with `all` and `any`.
pub trait Enumerable: Sized {
    /// How many successors are left after this value; each step of the
    /// enumeration lowers it, so the enumeration ends.
    spec fn rank(&self) -> nat;

    /// The start value, in specification.
    spec fn spec_start() -> Self;

    /// The successor of a value, in specification.
    spec fn spec_inc(&self) -> Option<Self>;

    /// Returns start value.
    fn start() -> (r: Self)
        ensures
            r == Self::spec_start(),
    ;

    /// Increases value.
    fn inc(&self) -> (r: Option<Self>)
        ensures
            r == self.spec_inc(),
            r matches Some(v) ==> v.rank() < self.rank(),
    ;
}

/// The value the enumeration holds after `k` successor steps from the
/// start value, or `None` once the chain has ended.
pub open spec fn enum_at<E: Enumerable>(k: nat) -> Option<E>
    decreases k,
{
    if k == 0 {
        Some(E::spec_start())
    } else {
        match enum_at::<E>((k - 1) as nat) {
            Some(v) => v.spec_inc(),
            None => None,
        }
    }
}

impl Enumerable for u8 {
    open spec fn rank(&self) -> nat {
        (255 - *self) as nat
    }

    open spec fn spec_start() -> u8 {
        0
    }

    open spec fn spec_inc(&self) -> Option<u8> {
        if *self == 255 {
            None
        } else {
            Some((*self + 1) as u8)
        }
    }

    fn start() -> u8 {
        0
    }

    fn inc(&self) -> Option<u8> {
        if *self == 255 {
            None
        } else {
            Some(*self + 1)
        }
    }
}

/// One of the four boolean functions of one argument, enumerable for
/// use with `all` and `any`.  A function-pointer type cannot carry the
/// enumeration, so the four functions are named outright.
#[derive(Clone, Copy, PartialEq, Eq, Structural)]
pub enum Unary {
    /// Ignores its argument and returns `F`.
    Never,
    /// Returns the complement of its argument.
    Negate,
    /// Returns its argument.
    Same,
    /// Ignores its argument and returns `T`.
    Always,
}

/// The word each unary function returns.
pub open spec fn unary_of(p: Unary, a: u64) -> u64 {
    match p {
        Unary::Never => F,
        Unary::Negate => !a,
        Unary::Same => a,
        Unary::Always => T,
    }
}

impl Unary {
    /// Applies the function to a proposition.
    pub fn apply(self, a: u64) -> (r: u64)
        ensures
            r == unary_of(self, a),
    {
        match self {
            Unary::Never => F,
            Unary::Negate => !a,
            Unary::Same => a,
            Unary::Always => T,
        }
    }
}

impl Enumerable for Unary {
    open spec fn rank(&self) -> nat {
        match *self {
            Unary::Never => 3,
            Unary::Negate => 2,
            Unary::Same => 1,
            Unary::Always => 0,
        }
    }

    open spec fn spec_start() -> Unary {
        Unary::Never
    }

    open spec fn spec_inc(&self) -> Option<Unary> {
        match *self {
            Unary::Never => Some(Unary::Negate),
            Unary::Negate => Some(Unary::Same),
            Unary::Same => Some(Unary::Always),
            Unary::Always => None,
        }
    }

    fn start() -> Unary {
        Unary::Never
    }

    fn inc(&self) -> Option<Unary> {
        match *self {
            Unary::Never => Some(Unary::Negate),
            Unary::Negate => Some(Unary::Same),
            Unary::Same => Some(Unary::Always),
            Unary::Always => None,
        }
    }
}

/// Enumerates the type, checking that at least one output is true: walks
/// the successor chain of the start value (the start value itself is not
/// tested) and stops at the first value whose output is not `F`.  When
/// the result is `F` the chain was exhausted and every tested value gave
/// back `F`.
pub fn any<E: Enumerable + Copy, FN: Fn(E) -> u64>(f: &FN) -> (r: u64)
    requires
        forall|v: (E,)| call_requires(*f, v),
    ensures
        r == T || r == F,
        r == T ==> exists|k: nat, v: E, w: u64|
            1 <= k && #[trigger] enum_at::<E>(k) == Some(v) && #[trigger] call_ensures(
                *f,
                (v,),
                w,
            ) && w != F && (forall|j: nat|
                1 <= j < k ==> ((#[trigger] enum_at::<E>(j)) matches Some(u) ==> call_ensures(
                    *f,
                    (u,),
                    F,
                ))),
        r == F ==> exists|k: nat|
            1 <= k && (#[trigger] enum_at::<E>(k)) is None && (forall|j: nat|
                1 <= j < k ==> ((#[trigger] enum_at::<E>(j)) matches Some(u) ==> call_ensures(
                    *f,
                    (u,),
                    F,
                ))),
{
    let mut val = E::start();
    let ghost mut i: nat = 0;
    loop
        invariant
            forall|v: (E,)| call_requires(*f, v),
            enum_at::<E>(i) == Some(val),
            forall|j: nat|
                1 <= j <= i ==> ((#[trigger] enum_at::<E>(j)) matches Some(u) ==> call_ensures(
                    *f,
                    (u,),
                    F,
                )),
        decreases val.rank(),
    {
        match val.inc() {
            Some(new_val) => {
                proof {
                    i = i + 1;
                    assert(enum_at::<E>(i) == Some(new_val));
                }
                let w = f(new_val);
                if w != F {
                    return T;
                }
                proof {
                    assert(call_ensures(*f, (new_val,), F));
                }
                val = new_val;
            },
            None => {
                proof {
                    i = i + 1;
                    assert((enum_at::<E>(i)) is None);
                }
                return F;
            },
        }
    }
}

/// Enumerates the type, checking that all outputs are true: walks the
/// successor chain of the start value (the start value itself is not
/// tested) and stops at the first value whose output is not `T`.  When
/// the result is `T` the chain was exhausted and every tested value gave
/// back `T`.
pub fn all<E: Enumerable + Copy, FN: Fn(E) -> u64>(f: &FN) -> (r: u64)
    requires
        forall|v: (E,)| call_requires(*f, v),
    ensures
        r == T || r == F,
        r == F ==> exists|k: nat, v: E, w: u64|
            1 <= k && #[trigger] enum_at::<E>(k) == Some(v) && #[trigger] call_ensures(
                *f,
                (v,),
                w,
            ) && w != T && (forall|j: nat|
                1 <= j < k ==> ((#[trigger] enum_at::<E>(j)) matches Some(u) ==> call_ensures(
                    *f,
                    (u,),
                    T,
                ))),
        r == T ==> exists|k: nat|
            1 <= k && (#[trigger] enum_at::<E>(k)) is None && (forall|j: nat|
                1 <= j < k ==> ((#[trigger] enum_at::<E>(j)) matches Some(u) ==> call_ensures(
                    *f,
                    (u,),
                    T,
                ))),
{
    let mut val = E::start();
    let ghost mut i: nat = 0;
    loop
        invariant
            forall|v: (E,)| call_requires(*f, v),
            enum_at::<E>(i) == Some(val),
            forall|j: nat|
                1 <= j <= i ==> ((#[trigger] enum_at::<E>(j)) matches Some(u) ==> call_ensures(
                    *f,
                    (u,),
                    T,
                )),
        decreases val.rank(),
    {
        match val.inc() {
            Some(new_val) => {
                proof {
                    i = i + 1;
                    assert(enum_at::<E>(i) == Some(new_val));
                }
                let w = f(new_val);
                if w != T {
                    return F;
                }
                proof {
                    assert(call_ensures(*f, (new_val,), T));
                }
                val = new_val;
            },
            None => {
                proof {
                    i = i + 1;
                    assert((enum_at::<E>(i)) is None);
                }
                return T;
            },
        }
    }
}

/// Adds two word counts, stopping at the machine limit.
fn sat_add_usize(a: usize, b: usize) -> (r: usize)
    ensures
        a + b <= usize::MAX ==> r == a + b,
        a + b > usize::MAX ==> r == usize::MAX,
{
    if a <= usize::MAX - b {
        a + b
    } else {
        usize::MAX
    }
}

/// Used to construct logical systems.  Implementations read their words
/// from the front of the slice; a build-time generator may provide them
/// for record types.
pub trait Construct: Sized {
    /// The number of proposition words the system is built from.
    open spec fn spec_n() -> nat {
        arbitrary()
    }

    /// The system read off the front of a sequence of words.
    open spec fn spec_construct(vs: Seq<u64>) -> Self {
        arbitrary()
    }

    /// Creates a logical system out of proof arguments.
    fn construct(vs: &[u64]) -> (r: Self)
        requires
            vs@.len() >= Self::spec_n(),
        ensures
            r == Self::spec_construct(vs@),
    ;

    /// Gets the number of bits in logical system, stopping at the
    /// machine limit.
    fn n() -> (r: usize)
        ensures
            Self::spec_n() <= usize::MAX ==> r == Self::spec_n(),
            Self::spec_n() > usize::MAX ==> r == usize::MAX,
    ;
}

impl Construct for () {
    open spec fn spec_n() -> nat {
        0
    }

    open spec fn spec_construct(vs: Seq<u64>) -> () {
        ()
    }

    fn construct(_vs: &[u64]) -> () {
        ()
    }

    fn n() -> usize {
        0
    }
}

impl<T0: Construct, T1: Construct> Construct for (T0, T1) {
    open spec fn spec_n() -> nat {
        T0::spec_n() + T1::spec_n()
    }

    open spec fn spec_construct(vs: Seq<u64>) -> (T0, T1) {
        let s1 = vs.skip(T0::spec_n() as int);
        (T0::spec_construct(vs), T1::spec_construct(s1))
    }

    fn construct(vs: &[u64]) -> (r: (T0, T1)) {
        let n0 = T0::n();
        let r1 = slice_subrange(vs, n0, vs.len());
        proof {
            assert(r1@ =~= vs@.skip(T0::spec_n() as int));
        }
        (T0::construct(vs), T1::construct(r1))
    }

    fn n() -> usize {
        sat_add_usize(T0::n(), T1::n())
    }
}

impl<T0: Construct, T1: Construct, T2: Construct> Construct for (T0, T1, T2) {
    open spec fn spec_n() -> nat {
        T0::spec_n() + T1::spec_n() + T2::spec_n()
    }

    open spec fn spec_construct(vs: Seq<u64>) -> (T0, T1, T2) {
        let s1 = vs.skip(T0::spec_n() as int);
        let s2 = s1.skip(T1::spec_n() as int);
        (T0::spec_construct(vs), T1::spec_construct(s1), T2::spec_construct(s2))
    }

    fn construct(vs: &[u64]) -> (r: (T0, T1, T2)) {
        let n0 = T0::n();
        let r1 = slice_subrange(vs, n0, vs.len());
        proof {
            assert(r1@ =~= vs@.skip(T0::spec_n() as int));
        }
        let n1 = T1::n();
        let r2 = slice_subrange(r1, n1, r1.len());
        proof {
            assert(r2@ =~= r1@.skip(T1::spec_n() as int));
        }
        (T0::construct(vs), T1::construct(r1), T2::construct(r2))
    }

    fn n() -> usize {
        sat_add_usize(sat_add_usize(T0::n(), T1::n()), T2::n())
    }
}

impl<T0: Construct, T1: Construct, T2: Construct, T3: Construct> Construct for (T0, T1, T2, T3) {
    open spec fn spec_n() -> nat {
        T0::spec_n() + T1::spec_n() + T2::spec_n() + T3::spec_n()
    }

    open spec fn spec_construct(vs: Seq<u64>) -> (T0, T1, T2, T3) {
        let s1 = vs.skip(T0::spec_n() as int);
        let s2 = s1.skip(T1::spec_n() as int);
        let s3 = s2.skip(T2::spec_n() as int);
        (T0::spec_construct(vs), T1::spec_construct(s1), T2::spec_construct(s2), T3::spec_construct(s3))
    }

    fn construct(vs: &[u64]) -> (r: (T0, T1, T2, T3)) {
        let n0 = T0::n();
        let r1 = slice_subrange(vs, n0, vs.len());
        proof {
            assert(r1@ =~= vs@.skip(T0::spec_n() as int));
        }
        let n1 = T1::n();
        let r2 = slice_subrange(r1, n1, r1.len());
        proof {
            assert(r2@ =~= r1@.skip(T1::spec_n() as int));
        }
        let n2 = T2::n();
        let r3 = slice_subrange(r2, n2, r2.len());
        proof {
            assert(r3@ =~= r2@.skip(T2::spec_n() as int));
        }
        (T0::construct(vs), T1::construct(r1), T2::construct(r2), T3::construct(r3))
    }

    fn n() -> usize {
        sat_add_usize(sat_add_usize(sat_add_usize(T0::n(), T1::n()), T2::n()), T3::n())
    }
}

impl<T0: Construct, T1: Construct, T2: Construct, T3: Construct, T4: Construct> Construct for (T0, T1, T2, T3, T4) {
    open spec fn spec_n() -> nat {
        T0::spec_n() + T1::spec_n() + T2::spec_n() + T3::spec_n() + T4::spec_n()
    }

    open spec fn spec_construct(vs: Seq<u64>) -> (T0, T1, T2, T3, T4) {
        let s1 = vs.skip(T0::spec_n() as int);
        let s2 = s1.skip(T1::spec_n() as int);
        let s3 = s2.skip(T2::spec_n() as int);
        let s4 = s3.skip(T3::spec_n() as int);
        (T0::spec_construct(vs), T1::spec_construct(s1), T2::spec_construct(s2), T3::spec_construct(s3), T4::spec_construct(s4))
    }

    fn construct(vs: &[u64]) -> (r: (T0, T1, T2, T3, T4)) {
        let n0 = T0::n();
        let r1 = slice_subrange(vs, n0, vs.len());
        proof {
            assert(r1@ =~= vs@.skip(T0::spec_n() as int));
        }
        let n1 = T1::n();
        let r2 = slice_subrange(r1, n1, r1.len());
        proof {
            assert(r2@ =~= r1@.skip(T1::spec_n() as int));
        }
        let n2 = T2::n();
        let r3 = slice_subrange(r2, n2, r2.len());
        proof {
            assert(r3@ =~= r2@.skip(T2::spec_n() as int));
        }
        let n3 = T3::n();
        let r4 = slice_subrange(r3, n3, r3.len());
        proof {
            assert(r4@ =~= r3@.skip(T3::spec_n() as int));
        }
        (T0::construct(vs), T1::construct(r1), T2::construct(r2), T3::construct(r3), T4::construct(r4))
    }

    fn n() -> usize {
        sat_add_usize(sat_add_usize(sat_add_usize(sat_add_usize(T0::n(), T1::n()), T2::n()), T3::n()), T4::n())
    }
}

impl<T0: Construct, T1: Construct, T2: Construct, T3: Construct, T4: Construct, T5: Construct> Construct for (T0, T1, T2, T3, T4, T5) {
    open spec fn spec_n() -> nat {
        T0::spec_n() + T1::spec_n() + T2::spec_n() + T3::spec_n() + T4::spec_n() + T5::spec_n()
    }

    open spec fn spec_construct(vs: Seq<u64>) -> (T0, T1, T2, T3, T4, T5) {
        let s1 = vs.skip(T0::spec_n() as int);
        let s2 = s1.skip(T1::spec_n() as int);
        let s3 = s2.skip(T2::spec_n() as int);
        let s4 = s3.skip(T3::spec_n() as int);
        let s5 = s4.skip(T4::spec_n() as int);
        (T0::spec_construct(vs), T1::spec_construct(s1), T2::spec_construct(s2), T3::spec_construct(s3), T4::spec_construct(s4), T5::spec_construct(s5))
    }

    fn construct(vs: &[u64]) -> (r: (T0, T1, T2, T3, T4, T5)) {
        let n0 = T0::n();
        let r1 = slice_subrange(vs, n0, vs.len());
        proof {
            assert(r1@ =~= vs@.skip(T0::spec_n() as int));
        }
        let n1 = T1::n();
        let r2 = slice_subrange(r1, n1, r1.len());
        proof {
            assert(r2@ =~= r1@.skip(T1::spec_n() as int));
        }
        let n2 = T2::n();
        let r3 = slice_subrange(r2, n2, r2.len());
        proof {
            assert(r3@ =~= r2@.skip(T2::spec_n() as int));
        }
        let n3 = T3::n();
        let r4 = slice_subrange(r3, n3, r3.len());
        proof {
            assert(r4@ =~= r3@.skip(T3::spec_n() as int));
        }
        let n4 = T4::n();
        let r5 = slice_subrange(r4, n4, r4.len());
        proof {
            assert(r5@ =~= r4@.skip(T4::spec_n() as int));
        }
        (T0::construct(vs), T1::construct(r1), T2::construct(r2), T3::construct(r3), T4::construct(r4), T5::construct(r5))
    }

    fn n() -> usize {
        sat_add_usize(sat_add_usize(sat_add_usize(sat_add_usize(sat_add_usize(T0::n(), T1::n()), T2::n()), T3::n()), T4::n()), T5::n())
    }
}

impl<T0: Construct, T1: Construct, T2: Construct, T3: Construct, T4: Construct, T5: Construct, T6: Construct> Construct for (T0, T1, T2, T3, T4, T5, T6) {
    open spec fn spec_n() -> nat {
        T0::spec_n() + T1::spec_n() + T2::spec_n() + T3::spec_n() + T4::spec_n() + T5::spec_n() + T6::spec_n()
    }

    open spec fn spec_construct(vs: Seq<u64>) -> (T0, T1, T2, T3, T4, T5, T6) {
        let s1 = vs.skip(T0::spec_n() as int);
        let s2 = s1.skip(T1::spec_n() as int);
        let s3 = s2.skip(T2::spec_n() as int);
        let s4 = s3.skip(T3::spec_n() as int);
        let s5 = s4.skip(T4::spec_n() as int);
        let s6 = s5.skip(T5::spec_n() as int);
        (T0::spec_construct(vs), T1::spec_construct(s1), T2::spec_construct(s2), T3::spec_construct(s3), T4::spec_construct(s4), T5::spec_construct(s5), T6::spec_construct(s6))
    }

    fn construct(vs: &[u64]) -> (r: (T0, T1, T2, T3, T4, T5, T6)) {
        let n0 = T0::n();
        let r1 = slice_subrange(vs, n0, vs.len());
        proof {
            assert(r1@ =~= vs@.skip(T0::spec_n() as int));
        }
        let n1 = T1::n();
        let r2 = slice_subrange(r1, n1, r1.len());
        proof {
            assert(r2@ =~= r1@.skip(T1::spec_n() as int));
        }
        let n2 = T2::n();
        let r3 = slice_subrange(r2, n2, r2.len());
        proof {
            assert(r3@ =~= r2@.skip(T2::spec_n() as int));
        }
        let n3 = T3::n();
        let r4 = slice_subrange(r3, n3, r3.len());
        proof {
            assert(r4@ =~= r3@.skip(T3::spec_n() as int));
        }
        let n4 = T4::n();
        let r5 = slice_subrange(r4, n4, r4.len());
        proof {
            assert(r5@ =~= r4@.skip(T4::spec_n() as int));
        }
        let n5 = T5::n();
        let r6 = slice_subrange(r5, n5, r5.len());
        proof {
            assert(r6@ =~= r5@.skip(T5::spec_n() as int));
        }
        (T0::construct(vs), T1::construct(r1), T2::construct(r2), T3::construct(r3), T4::construct(r4), T5::construct(r5), T6::construct(r6))
    }

    fn n() -> usize {
        sat_add_usize(sat_add_usize(sat_add_usize(sat_add_usize(sat_add_usize(sat_add_usize(T0::n(), T1::n()), T2::n()), T3::n()), T4::n()), T5::n()), T6::n())
    }
}

impl<T0: Construct, T1: Construct, T2: Construct, T3: Construct, T4: Construct, T5: Construct, T6: Construct, T7: Construct> Construct for (T0, T1, T2, T3, T4, T5, T6, T7) {
    open spec fn spec_n() -> nat {
        T0::spec_n() + T1::spec_n() + T2::spec_n() + T3::spec_n() + T4::spec_n() + T5::spec_n() + T6::spec_n() + T7::spec_n()
    }

    open spec fn spec_construct(vs: Seq<u64>) -> (T0, T1, T2, T3, T4, T5, T6, T7) {
        let s1 = vs.skip(T0::spec_n() as int);
        let s2 = s1.skip(T1::spec_n() as int);
        let s3 = s2.skip(T2::spec_n() as int);
        let s4 = s3.skip(T3::spec_n() as int);
        let s5 = s4.skip(T4::spec_n() as int);
        let s6 = s5.skip(T5::spec_n() as int);
        let s7 = s6.skip(T6::spec_n() as int);
        (T0::spec_construct(vs), T1::spec_construct(s1), T2::spec_construct(s2), T3::spec_construct(s3), T4::spec_construct(s4), T5::spec_construct(s5), T6::spec_construct(s6), T7::spec_construct(s7))
    }

    fn construct(vs: &[u64]) -> (r: (T0, T1, T2, T3, T4, T5, T6, T7)) {
        let n0 = T0::n();
        let r1 = slice_subrange(vs, n0, vs.len());
        proof {
            assert(r1@ =~= vs@.skip(T0::spec_n() as int));
        }
        let n1 = T1::n();
        let r2 = slice_subrange(r1, n1, r1.len());
        proof {
            assert(r2@ =~= r1@.skip(T1::spec_n() as int));
        }
        let n2 = T2::n();
        let r3 = slice_subrange(r2, n2, r2.len());
        proof {
            assert(r3@ =~= r2@.skip(T2::spec_n() as int));
        }
        let n3 = T3::n();
        let r4 = slice_subrange(r3, n3, r3.len());
        proof {
            assert(r4@ =~= r3@.skip(T3::spec_n() as int));
        }
        let n4 = T4::n();
        let r5 = slice_subrange(r4, n4, r4.len());
        proof {
            assert(r5@ =~= r4@.skip(T4::spec_n() as int));
        }
        let n5 = T5::n();
        let r6 = slice_subrange(r5, n5, r5.len());
        proof {
            assert(r6@ =~= r5@.skip(T5::spec_n() as int));
        }
        let n6 = T6::n();
        let r7 = slice_subrange(r6, n6, r6.len());
        proof {
            assert(r7@ =~= r6@.skip(T6::spec_n() as int));
        }
        (T0::construct(vs), T1::construct(r1), T2::construct(r2), T3::construct(r3), T4::construct(r4), T5::construct(r5), T6::construct(r6), T7::construct(r7))
    }

    fn n() -> usize {
        sat_add_usize(sat_add_usize(sat_add_usize(sat_add_usize(sat_add_usize(sat_add_usize(sat_add_usize(T0::n(), T1::n()), T2::n()), T3::n()), T4::n()), T5::n()), T6::n()), T7::n())
    }
}

impl<T0: Construct, T1: Construct, T2: Construct, T3: Construct, T4: Construct, T5: Construct, T6: Construct, T7: Construct, T8: Construct> Construct for (T0, T1, T2, T3, T4, T5, T6, T7, T8) {
    open spec fn spec_n() -> nat {
        T0::spec_n() + T1::spec_n() + T2::spec_n() + T3::spec_n() + T4::spec_n() + T5::spec_n() + T6::spec_n() + T7::spec_n() + T8::spec_n()
    }

    open spec fn spec_construct(vs: Seq<u64>) -> (T0, T1, T2, T3, T4, T5, T6, T7, T8) {
        let s1 = vs.skip(T0::spec_n() as int);
        let s2 = s1.skip(T1::spec_n() as int);
        let s3 = s2.skip(T2::spec_n() as int);
        let s4 = s3.skip(T3::spec_n() as int);
        let s5 = s4.skip(T4::spec_n() as int);
        let s6 = s5.skip(T5::spec_n() as int);
        let s7 = s6.skip(T6::spec_n() as int);
        let s8 = s7.skip(T7::spec_n() as int);
        (T0::spec_construct(vs), T1::spec_construct(s1), T2::spec_construct(s2), T3::spec_construct(s3), T4::spec_construct(s4), T5::spec_construct(s5), T6::spec_construct(s6), T7::spec_construct(s7), T8::spec_construct(s8))
    }

    fn construct(vs: &[u64]) -> (r: (T0, T1, T2, T3, T4, T5, T6, T7, T8)) {
        let n0 = T0::n();
        let r1 = slice_subrange(vs, n0, vs.len());
        proof {
            assert(r1@ =~= vs@.skip(T0::spec_n() as int));
        }
        let n1 = T1::n();
        let r2 = slice_subrange(r1, n1, r1.len());
        proof {
            assert(r2@ =~= r1@.skip(T1::spec_n() as int));
        }
        let n2 = T2::n();
        let r3 = slice_subrange(r2, n2, r2.len());
        proof {
            assert(r3@ =~= r2@.skip(T2::spec_n() as int));
        }
        let n3 = T3::n();
        let r4 = slice_subrange(r3, n3, r3.len());
        proof {
            assert(r4@ =~= r3@.skip(T3::spec_n() as int));
        }
        let n4 = T4::n();
        let r5 = slice_subrange(r4, n4, r4.len());
        proof {
            assert(r5@ =~= r4@.skip(T4::spec_n() as int));
        }
        let n5 = T5::n();
        let r6 = slice_subrange(r5, n5, r5.len());
        proof {
            assert(r6@ =~= r5@.skip(T5::spec_n() as int));
        }
        let n6 = T6::n();
        let r7 = slice_subrange(r6, n6, r6.len());
        proof {
            assert(r7@ =~= r6@.skip(T6::spec_n() as int));
        }
        let n7 = T7::n();
        let r8 = slice_subrange(r7, n7, r7.len());
        proof {
            assert(r8@ =~= r7@.skip(T7::spec_n() as int));
        }
        (T0::construct(vs), T1::construct(r1), T2::construct(r2), T3::construct(r3), T4::construct(r4), T5::construct(r5), T6::construct(r6), T7::construct(r7), T8::construct(r8))
    }

    fn n() -> usize {
        sat_add_usize(sat_add_usize(sat_add_usize(sat_add_usize(sat_add_usize(sat_add_usize(sat_add_usize(sat_add_usize(T0::n(), T1::n()), T2::n()), T3::n()), T4::n()), T5::n()), T6::n()), T7::n()), T8::n())
    }
}

impl<T0: Construct, T1: Construct, T2: Construct, T3: Construct, T4: Construct, T5: Construct, T6: Construct, T7: Construct, T8: Construct, T9: Construct> Construct for (T0, T1, T2, T3, T4, T5, T6, T7, T8, T9) {
    open spec fn spec_n() -> nat {
        T0::spec_n() + T1::spec_n() + T2::spec_n() + T3::spec_n() + T4::spec_n() + T5::spec_n() + T6::spec_n() + T7::spec_n() + T8::spec_n() + T9::spec_n()
    }

    open spec fn spec_construct(vs: Seq<u64>) -> (T0, T1, T2, T3, T4, T5, T6, T7, T8, T9) {
        let s1 = vs.skip(T0::spec_n() as int);
        let s2 = s1.skip(T1::spec_n() as int);
        let s3 = s2.skip(T2::spec_n() as int);
        let s4 = s3.skip(T3::spec_n() as int);
        let s5 = s4.skip(T4::spec_n() as int);
        let s6 = s5.skip(T5::spec_n() as int);
        let s7 = s6.skip(T6::spec_n() as int);
        let s8 = s7.skip(T7::spec_n() as int);
        let s9 = s8.skip(T8::spec_n() as int);
        (T0::spec_construct(vs), T1::spec_construct(s1), T2::spec_construct(s2), T3::spec_construct(s3), T4::spec_construct(s4), T5::spec_construct(s5), T6::spec_construct(s6), T7::spec_construct(s7), T8::spec_construct(s8), T9::spec_construct(s9))
    }

    fn construct(vs: &[u64]) -> (r: (T0, T1, T2, T3, T4, T5, T6, T7, T8, T9)) {
        let n0 = T0::n();
        let r1 = slice_subrange(vs, n0, vs.len());
        proof {
            assert(r1@ =~= vs@.skip(T0::spec_n() as int));
        }
        let n1 = T1::n();
        let r2 = slice_subrange(r1, n1, r1.len());
        proof {
            assert(r2@ =~= r1@.skip(T1::spec_n() as int));
        }
        let n2 = T2::n();
        let r3 = slice_subrange(r2, n2, r2.len());
        proof {
            assert(r3@ =~= r2@.skip(T2::spec_n() as int));
        }
        let n3 = T3::n();
        let r4 = slice_subrange(r3, n3, r3.len());
        proof {
            assert(r4@ =~= r3@.skip(T3::spec_n() as int));
        }
        let n4 = T4::n();
        let r5 = slice_subrange(r4, n4, r4.len());
        proof {
            assert(r5@ =~= r4@.skip(T4::spec_n() as int));
        }
        let n5 = T5::n();
        let r6 = slice_subrange(r5, n5, r5.len());
        proof {
            assert(r6@ =~= r5@.skip(T5::spec_n() as int));
        }
        let n6 = T6::n();
        let r7 = slice_subrange(r6, n6, r6.len());
        proof {
            assert(r7@ =~= r6@.skip(T6::spec_n() as int));
        }
        let n7 = T7::n();
        let r8 = slice_subrange(r7, n7, r7.len());
        proof {
            assert(r8@ =~= r7@.skip(T7::spec_n() as int));
        }
        let n8 = T8::n();
        let r9 = slice_subrange(r8, n8, r8.len());
        proof {
            assert(r9@ =~= r8@.skip(T8::spec_n() as int));
        }
        (T0::construct(vs), T1::construct(r1), T2::construct(r2), T3::construct(r3), T4::construct(r4), T5::construct(r5), T6::construct(r6), T7::construct(r7), T8::construct(r8), T9::construct(r9))
    }

    fn n() -> usize {
        sat_add_usize(sat_add_usize(sat_add_usize(sat_add_usize(sat_add_usize(sat_add_usize(sat_add_usize(sat_add_usize(sat_add_usize(T0::n(), T1::n()), T2::n()), T3::n()), T4::n()), T5::n()), T6::n()), T7::n()), T8::n()), T9::n())
    }
}

/// Implemented by logical systems to define core rules.
pub trait CoreRules {
    /// The core rules, in specification.
    open spec fn spec_core_rules(&self) -> u64 {
        arbitrary()
    }

    /// The core rules of the logical system.
    fn core_rules(&self) -> (r: u64)
        ensures
            r == self.spec_core_rules(),
    ;
}

/// Implemented by logical systems to extend existing ones.  The inner
/// system is itself expected to carry rules; `spec_inner_full_rules`
/// stands for them, and `full_rules` is pinned to the conjunction of
/// the core rules, the extension rules, and the inner system's full
/// rules.
pub trait ExtendRules: CoreRules {
    /// The inner logical system.
    type Inner;

    /// The inner logical system, in specification.
    spec fn spec_inner(&self) -> Self::Inner;

    /// The extension rules, in specification.
    spec fn spec_extend_rules(&self, inner: Self::Inner) -> u64;

    /// The inner system's full rules, in specification.
    spec fn spec_inner_full_rules(&self) -> u64;

    /// Gets the inner logical system.
    fn inner(&self) -> (r: &Self::Inner)
        ensures
            *r == self.spec_inner(),
    ;

    /// Rules used to integrate with inner logical system.
    fn extend_rules(&self, inner: &Self::Inner) -> (r: u64)
        ensures
            r == self.spec_extend_rules(*inner),
    ;

    /// The full rules of the entire logical system: its own core rules,
    /// the extension rules for its inner system, and the inner system's
    /// full rules.
    fn full_rules(&self) -> (r: u64)
        ensures
            r == (self.spec_core_rules() & self.spec_extend_rules(self.spec_inner())
                & self.spec_inner_full_rules()),
    ;
}

/// The full rules of a system, in specification.
pub open spec fn spec_full_rules<S: ExtendRules>(sys: S) -> u64 {
    sys.spec_core_rules() & sys.spec_extend_rules(sys.spec_inner()) & sys.spec_inner_full_rules()
}

impl CoreRules for () {
    open spec fn spec_core_rules(&self) -> u64 {
        T
    }

    fn core_rules(&self) -> u64 {
        T
    }
}

impl ExtendRules for () {
    type Inner = ();

    open spec fn spec_inner(&self) -> () {
        ()
    }

    open spec fn spec_extend_rules(&self, _inner: ()) -> u64 {
        T
    }

    open spec fn spec_inner_full_rules(&self) -> u64 {
        T
    }

    fn inner(&self) -> &() {
        &()
    }

    fn extend_rules(&self, _inner: &()) -> u64 {
        T
    }

    fn full_rules(&self) -> u64 {
        proof {
            crate::bitlemmas::lemma_and_units(T);
        }
        T
    }
}

impl<T0: CoreRules, T1: CoreRules> CoreRules for (T0, T1) {
    open spec fn spec_core_rules(&self) -> u64 {
        self.0.spec_core_rules() & self.1.spec_core_rules()
    }

    fn core_rules(&self) -> u64 {
        crate::bits::and(self.0.core_rules(), self.1.core_rules())
    }
}

impl<T0: CoreRules, T1: CoreRules, T2: CoreRules> CoreRules for (T0, T1, T2) {
    open spec fn spec_core_rules(&self) -> u64 {
        self.0.spec_core_rules() & self.1.spec_core_rules() & self.2.spec_core_rules()
    }

    fn core_rules(&self) -> u64 {
        crate::bits::and3(self.0.core_rules(), self.1.core_rules(), self.2.core_rules())
    }
}

impl<T0: CoreRules, T1: CoreRules, T2: CoreRules, T3: CoreRules> CoreRules for (T0, T1, T2, T3) {
    open spec fn spec_core_rules(&self) -> u64 {
        self.0.spec_core_rules() & self.1.spec_core_rules() & self.2.spec_core_rules() & self.3.spec_core_rules()
    }

    fn core_rules(&self) -> u64 {
        crate::bits::and4(self.0.core_rules(), self.1.core_rules(), self.2.core_rules(), self.3.core_rules())
    }
}

impl<T0: CoreRules, T1: CoreRules, T2: CoreRules, T3: CoreRules, T4: CoreRules> CoreRules for (T0, T1, T2, T3, T4) {
    open spec fn spec_core_rules(&self) -> u64 {
        self.0.spec_core_rules() & self.1.spec_core_rules() & self.2.spec_core_rules() & self.3.spec_core_rules() & self.4.spec_core_rules()
    }

    fn core_rules(&self) -> u64 {
        crate::bits::and5(self.0.core_rules(), self.1.core_rules(), self.2.core_rules(), self.3.core_rules(), self.4.core_rules())
    }
}

impl<T0: CoreRules, T1: CoreRules, T2: CoreRules, T3: CoreRules, T4: CoreRules, T5: CoreRules> CoreRules for (T0, T1, T2, T3, T4, T5) {
    open spec fn spec_core_rules(&self) -> u64 {
        self.0.spec_core_rules() & self.1.spec_core_rules() & self.2.spec_core_rules() & self.3.spec_core_rules() & self.4.spec_core_rules() & self.5.spec_core_rules()
    }

    fn core_rules(&self) -> u64 {
        crate::bits::and6(self.0.core_rules(), self.1.core_rules(), self.2.core_rules(), self.3.core_rules(), self.4.core_rules(), self.5.core_rules())
    }
}

impl<T0: CoreRules, T1: CoreRules, T2: CoreRules, T3: CoreRules, T4: CoreRules, T5: CoreRules, T6: CoreRules> CoreRules for (T0, T1, T2, T3, T4, T5, T6) {
    open spec fn spec_core_rules(&self) -> u64 {
        self.0.spec_core_rules() & self.1.spec_core_rules() & self.2.spec_core_rules() & self.3.spec_core_rules() & self.4.spec_core_rules() & self.5.spec_core_rules() & self.6.spec_core_rules()
    }

    fn core_rules(&self) -> u64 {
        crate::bits::and7(self.0.core_rules(), self.1.core_rules(), self.2.core_rules(), self.3.core_rules(), self.4.core_rules(), self.5.core_rules(), self.6.core_rules())
    }
}

impl<T0: CoreRules, T1: CoreRules, T2: CoreRules, T3: CoreRules, T4: CoreRules, T5: CoreRules, T6: CoreRules, T7: CoreRules> CoreRules for (T0, T1, T2, T3, T4, T5, T6, T7) {
    open spec fn spec_core_rules(&self) -> u64 {
        self.0.spec_core_rules() & self.1.spec_core_rules() & self.2.spec_core_rules() & self.3.spec_core_rules() & self.4.spec_core_rules() & self.5.spec_core_rules() & self.6.spec_core_rules() & self.7.spec_core_rules()
    }

    fn core_rules(&self) -> u64 {
        crate::bits::and8(self.0.core_rules(), self.1.core_rules(), self.2.core_rules(), self.3.core_rules(), self.4.core_rules(), self.5.core_rules(), self.6.core_rules(), self.7.core_rules())
    }
}

impl<T0: CoreRules, T1: CoreRules, T2: CoreRules, T3: CoreRules, T4: CoreRules, T5: CoreRules, T6: CoreRules, T7: CoreRules, T8: CoreRules> CoreRules for (T0, T1, T2, T3, T4, T5, T6, T7, T8) {
    open spec fn spec_core_rules(&self) -> u64 {
        self.0.spec_core_rules() & self.1.spec_core_rules() & self.2.spec_core_rules() & self.3.spec_core_rules() & self.4.spec_core_rules() & self.5.spec_core_rules() & self.6.spec_core_rules() & self.7.spec_core_rules() & self.8.spec_core_rules()
    }

    fn core_rules(&self) -> u64 {
        crate::bits::and9(self.0.core_rules(), self.1.core_rules(), self.2.core_rules(), self.3.core_rules(), self.4.core_rules(), self.5.core_rules(), self.6.core_rules(), self.7.core_rules(), self.8.core_rules())
    }
}

impl<T0: CoreRules, T1: CoreRules, T2: CoreRules, T3: CoreRules, T4: CoreRules, T5: CoreRules, T6: CoreRules, T7: CoreRules, T8: CoreRules, T9: CoreRules> CoreRules for (T0, T1, T2, T3, T4, T5, T6, T7, T8, T9) {
    open spec fn spec_core_rules(&self) -> u64 {
        self.0.spec_core_rules() & self.1.spec_core_rules() & self.2.spec_core_rules() & self.3.spec_core_rules() & self.4.spec_core_rules() & self.5.spec_core_rules() & self.6.spec_core_rules() & self.7.spec_core_rules() & self.8.spec_core_rules() & self.9.spec_core_rules()
    }

    fn core_rules(&self) -> u64 {
        crate::bits::and10(self.0.core_rules(), self.1.core_rules(), self.2.core_rules(), self.3.core_rules(), self.4.core_rules(), self.5.core_rules(), self.6.core_rules(), self.7.core_rules(), self.8.core_rules(), self.9.core_rules())
    }
}

impl<T0: ExtendRules, T1: ExtendRules> ExtendRules for (T0, T1) {
    type Inner = ();

    open spec fn spec_inner(&self) -> () {
        ()
    }

    open spec fn spec_extend_rules(&self, _inner: ()) -> u64 {
        T
    }

    open spec fn spec_inner_full_rules(&self) -> u64 {
        T
    }

    fn inner(&self) -> &() {
        &()
    }

    fn extend_rules(&self, _inner: &()) -> u64 {
        T
    }

    fn full_rules(&self) -> u64 {
        crate::bits::and3(self.core_rules(), self.extend_rules(self.inner()), T)
    }
}

impl<T0: ExtendRules, T1: ExtendRules, T2: ExtendRules> ExtendRules for (T0, T1, T2) {
    type Inner = ();

    open spec fn spec_inner(&self) -> () {
        ()
    }

    open spec fn spec_extend_rules(&self, _inner: ()) -> u64 {
        T
    }

    open spec fn spec_inner_full_rules(&self) -> u64 {
        T
    }

    fn inner(&self) -> &() {
        &()
    }

    fn extend_rules(&self, _inner: &()) -> u64 {
        T
    }

    fn full_rules(&self) -> u64 {
        crate::bits::and3(self.core_rules(), self.extend_rules(self.inner()), T)
    }
}

impl<T0: ExtendRules, T1: ExtendRules, T2: ExtendRules, T3: ExtendRules> ExtendRules for (T0, T1, T2, T3) {
    type Inner = ();

    open spec fn spec_inner(&self) -> () {
        ()
    }

    open spec fn spec_extend_rules(&self, _inner: ()) -> u64 {
        T
    }

    open spec fn spec_inner_full_rules(&self) -> u64 {
        T
    }

    fn inner(&self) -> &() {
        &()
    }

    fn extend_rules(&self, _inner: &()) -> u64 {
        T
    }

    fn full_rules(&self) -> u64 {
        crate::bits::and3(self.core_rules(), self.extend_rules(self.inner()), T)
    }
}

impl<T0: ExtendRules, T1: ExtendRules, T2: ExtendRules, T3: ExtendRules, T4: ExtendRules> ExtendRules for (T0, T1, T2, T3, T4) {
    type Inner = ();

    open spec fn spec_inner(&self) -> () {
        ()
    }

    open spec fn spec_extend_rules(&self, _inner: ()) -> u64 {
        T
    }

    open spec fn spec_inner_full_rules(&self) -> u64 {
        T
    }

    fn inner(&self) -> &() {
        &()
    }

    fn extend_rules(&self, _inner: &()) -> u64 {
        T
    }

    fn full_rules(&self) -> u64 {
        crate::bits::and3(self.core_rules(), self.extend_rules(self.inner()), T)
    }
}

impl<T0: ExtendRules, T1: ExtendRules, T2: ExtendRules, T3: ExtendRules, T4: ExtendRules, T5: ExtendRules> ExtendRules for (T0, T1, T2, T3, T4, T5) {
    type Inner = ();

    open spec fn spec_inner(&self) -> () {
        ()
    }

    open spec fn spec_extend_rules(&self, _inner: ()) -> u64 {
        T
    }

    open spec fn spec_inner_full_rules(&self) -> u64 {
        T
    }

    fn inner(&self) -> &() {
        &()
    }

    fn extend_rules(&self, _inner: &()) -> u64 {
        T
    }

    fn full_rules(&self) -> u64 {
        crate::bits::and3(self.core_rules(), self.extend_rules(self.inner()), T)
    }
}

impl<T0: ExtendRules, T1: ExtendRules, T2: ExtendRules, T3: ExtendRules, T4: ExtendRules, T5: ExtendRules, T6: ExtendRules> ExtendRules for (T0, T1, T2, T3, T4, T5, T6) {
    type Inner = ();

    open spec fn spec_inner(&self) -> () {
        ()
    }

    open spec fn spec_extend_rules(&self, _inner: ()) -> u64 {
        T
    }

    open spec fn spec_inner_full_rules(&self) -> u64 {
        T
    }

    fn inner(&self) -> &() {
        &()
    }

    fn extend_rules(&self, _inner: &()) -> u64 {
        T
    }

    fn full_rules(&self) -> u64 {
        crate::bits::and3(self.core_rules(), self.extend_rules(self.inner()), T)
    }
}

impl<T0: ExtendRules, T1: ExtendRules, T2: ExtendRules, T3: ExtendRules, T4: ExtendRules, T5: ExtendRules, T6: ExtendRules, T7: ExtendRules> ExtendRules for (T0, T1, T2, T3, T4, T5, T6, T7) {
    type Inner = ();

    open spec fn spec_inner(&self) -> () {
        ()
    }

    open spec fn spec_extend_rules(&self, _inner: ()) -> u64 {
        T
    }

    open spec fn spec_inner_full_rules(&self) -> u64 {
        T
    }

    fn inner(&self) -> &() {
        &()
    }

    fn extend_rules(&self, _inner: &()) -> u64 {
        T
    }

    fn full_rules(&self) -> u64 {
        crate::bits::and3(self.core_rules(), self.extend_rules(self.inner()), T)
    }
}

impl<T0: ExtendRules, T1: ExtendRules, T2: ExtendRules, T3: ExtendRules, T4: ExtendRules, T5: ExtendRules, T6: ExtendRules, T7: ExtendRules, T8: ExtendRules> ExtendRules for (T0, T1, T2, T3, T4, T5, T6, T7, T8) {
    type Inner = ();

    open spec fn spec_inner(&self) -> () {
        ()
    }

    open spec fn spec_extend_rules(&self, _inner: ()) -> u64 {
        T
    }

    open spec fn spec_inner_full_rules(&self) -> u64 {
        T
    }

    fn inner(&self) -> &() {
        &()
    }

    fn extend_rules(&self, _inner: &()) -> u64 {
        T
    }

    fn full_rules(&self) -> u64 {
        crate::bits::and3(self.core_rules(), self.extend_rules(self.inner()), T)
    }
}

impl<T0: ExtendRules, T1: ExtendRules, T2: ExtendRules, T3: ExtendRules, T4: ExtendRules, T5: ExtendRules, T6: ExtendRules, T7: ExtendRules, T8: ExtendRules, T9: ExtendRules> ExtendRules for (T0, T1, T2, T3, T4, T5, T6, T7, T8, T9) {
    type Inner = ();

    open spec fn spec_inner(&self) -> () {
        ()
    }

    open spec fn spec_extend_rules(&self, _inner: ()) -> u64 {
        T
    }

    open spec fn spec_inner_full_rules(&self) -> u64 {
        T
    }

    fn inner(&self) -> &() {
        &()
    }

    fn extend_rules(&self, _inner: &()) -> u64 {
        T
    }

    fn full_rules(&self) -> u64 {
        crate::bits::and3(self.core_rules(), self.extend_rules(self.inner()), T)
    }
}

/// Implemented by base logical systems: the rules are the core rules
/// alone, with a trivial inner system.
pub trait BaseSystem: Construct + CoreRules {

}

impl<S: BaseSystem> ExtendRules for S {
    type Inner = ();

    open spec fn spec_inner(&self) -> () {
        ()
    }

    open spec fn spec_extend_rules(&self, _inner: ()) -> u64 {
        T
    }

    open spec fn spec_inner_full_rules(&self) -> u64 {
        T
    }

    fn inner(&self) -> &() {
        &()
    }

    fn extend_rules(&self, _inner: &()) -> u64 {
        T
    }

    fn full_rules(&self) -> u64 {
        crate::bits::and3(self.core_rules(), T, T)
    }
}

/// The word the judged statement produces on the system read off a
/// sequence of argument words: the system's full rules imply the
/// statement.
pub open spec fn sys_formula<S: Construct + ExtendRules>(
    g: spec_fn(S) -> u64,
) -> spec_fn(Seq<u64>) -> u64 {
    |vs: Seq<u64>| !spec_full_rules(S::spec_construct(vs)) | g(S::spec_construct(vs))
}

/// Implemented by provable systems of logic: a system is judged by
/// counting the assignments on which its rules imply a statement.
///
/// A statement is handed in as a function; each contract pins the result
/// through the specification counterparts `spec_count` and `spec_prove`
/// for every statement that computes a fixed word function of the
/// system.
pub trait Prove: Sized + Copy {
    /// What `count` returns on a statement computing the word function
    /// `g`.
    spec fn spec_count(g: spec_fn(Self) -> u64) -> nat;

    /// What `prove` returns on a statement computing the word function
    /// `g`.
    spec fn spec_prove(g: spec_fn(Self) -> u64) -> bool;

    /// A method to count true statements.
    ///
    /// Counts `imply(<system>, f)` since this permits deriving all other
    /// methods automatically.
    fn count<FN: Fn(Self) -> u64>(f: &FN) -> (r: u64)
        requires
            forall|v: (Self,)| call_requires(*f, v),
        ensures
            forall|g: spec_fn(Self) -> u64|
                (forall|x: Self, v: u64| #[trigger] call_ensures(*f, (x,), v) ==> v == g(x))
                    ==> r == #[trigger] Self::spec_count(g),
    ;

    /// A method to prove a statement according to the rules.
    fn prove<FN: Fn(Self) -> u64>(f: &FN) -> (r: bool)
        requires
            forall|v: (Self,)| call_requires(*f, v),
        ensures
            forall|g: spec_fn(Self) -> u64|
                (forall|x: Self, v: u64| #[trigger] call_ensures(*f, (x,), v) ==> v == g(x))
                    ==> r == #[trigger] Self::spec_prove(g),
    ;

    /// According to the rules, the assumption does not lead to the
    /// conclusion, but neither does it lead to the opposite conclusion.
    fn does_not_mean<FN: Fn(Self) -> u64, GN: Fn(Self) -> u64>(
        assumption: &FN,
        conclusion: &GN,
    ) -> (r: bool)
        requires
            forall|v: (Self,)| call_requires(*assumption, v),
            forall|v: (Self,)| call_requires(*conclusion, v),
        ensures
            forall|g1: spec_fn(Self) -> u64, g2: spec_fn(Self) -> u64|
                ((forall|x: Self, av: u64, bv: u64|
                    #[trigger] call_ensures(*assumption, (x,), av) && #[trigger] call_ensures(
                        *conclusion,
                        (x,),
                        bv,
                    ) ==> g1(x) == (!av | bv)) && (forall|x: Self, av: u64, bv: u64|
                    #[trigger] call_ensures(*assumption, (x,), av) && #[trigger] call_ensures(
                        *conclusion,
                        (x,),
                        bv,
                    ) ==> g2(x) == (!av | !bv))) ==> r == (!#[trigger] Self::spec_prove(g1)
                    && !#[trigger] Self::spec_prove(g2)),
    {
        let pos = |x: Self| -> (out: u64)
            requires
                forall|v: (Self,)| call_requires(*assumption, v),
                forall|v: (Self,)| call_requires(*conclusion, v),
            ensures
                exists|av: u64, bv: u64|
                    #[trigger] call_ensures(*assumption, (x,), av) && #[trigger] call_ensures(
                        *conclusion,
                        (x,),
                        bv,
                    ) && out == (!av | bv),
            { crate::bits::imply(assumption(x), conclusion(x)) };
        let neg = |x: Self| -> (out: u64)
            requires
                forall|v: (Self,)| call_requires(*assumption, v),
                forall|v: (Self,)| call_requires(*conclusion, v),
            ensures
                exists|av: u64, bv: u64|
                    #[trigger] call_ensures(*assumption, (x,), av) && #[trigger] call_ensures(
                        *conclusion,
                        (x,),
                        bv,
                    ) && out == (!av | !bv),
            { crate::bits::imply(assumption(x), crate::bits::not(conclusion(x))) };
        let r1 = Self::prove(&pos);
        let r2 = Self::prove(&neg);
        proof {
            assert forall|g1: spec_fn(Self) -> u64, g2: spec_fn(Self) -> u64|
                ((forall|x: Self, av: u64, bv: u64|
                    #[trigger] call_ensures(*assumption, (x,), av) && #[trigger] call_ensures(
                        *conclusion,
                        (x,),
                        bv,
                    ) ==> g1(x) == (!av | bv)) && (forall|x: Self, av: u64, bv: u64|
                    #[trigger] call_ensures(*assumption, (x,), av) && #[trigger] call_ensures(
                        *conclusion,
                        (x,),
                        bv,
                    ) ==> g2(x) == (!av | !bv))) implies (!r1 && !r2) == (!Self::spec_prove(g1)
                && !Self::spec_prove(g2)) by {
                assert forall|x: Self, v: u64| #[trigger] call_ensures(pos, (x,), v) implies v
                    == g1(x) by {
                    let (av, bv) = choose|av: u64, bv: u64|
                        #[trigger] call_ensures(*assumption, (x,), av) && #[trigger] call_ensures(
                            *conclusion,
                            (x,),
                            bv,
                        ) && v == (!av | bv);
                }
                assert forall|x: Self, v: u64| #[trigger] call_ensures(neg, (x,), v) implies v
                    == g2(x) by {
                    let (av, bv) = choose|av: u64, bv: u64|
                        #[trigger] call_ensures(*assumption, (x,), av) && #[trigger] call_ensures(
                            *conclusion,
                            (x,),
                            bv,
                        ) && v == (!av | !bv);
                }
                assert(r1 == Self::spec_prove(g1));
                assert(r2 == Self::spec_prove(g2));
            }
        }
        !r1 && !r2
    }

    /// According to the rules, the conclusion follows from the
    /// assumptions, but the assumptions can not be used to get the
    /// opposite conclusion.
    fn means<FN: Fn(Self) -> u64, GN: Fn(Self) -> u64>(assumption: &FN, conclusion: &GN) -> (r:
        bool)
        requires
            forall|v: (Self,)| call_requires(*assumption, v),
            forall|v: (Self,)| call_requires(*conclusion, v),
        ensures
            forall|g1: spec_fn(Self) -> u64, g2: spec_fn(Self) -> u64|
                ((forall|x: Self, av: u64, bv: u64|
                    #[trigger] call_ensures(*assumption, (x,), av) && #[trigger] call_ensures(
                        *conclusion,
                        (x,),
                        bv,
                    ) ==> g1(x) == (!av | bv)) && (forall|x: Self, av: u64, bv: u64|
                    #[trigger] call_ensures(*assumption, (x,), av) && #[trigger] call_ensures(
                        *conclusion,
                        (x,),
                        bv,
                    ) ==> g2(x) == (!av | !bv))) ==> r == (#[trigger] Self::spec_prove(g1)
                    && !#[trigger] Self::spec_prove(g2)),
    {
        let pos = |x: Self| -> (out: u64)
            requires
                forall|v: (Self,)| call_requires(*assumption, v),
                forall|v: (Self,)| call_requires(*conclusion, v),
            ensures
                exists|av: u64, bv: u64|
                    #[trigger] call_ensures(*assumption, (x,), av) && #[trigger] call_ensures(
                        *conclusion,
                        (x,),
                        bv,
                    ) && out == (!av | bv),
            { crate::bits::imply(assumption(x), conclusion(x)) };
        let neg = |x: Self| -> (out: u64)
            requires
                forall|v: (Self,)| call_requires(*assumption, v),
                forall|v: (Self,)| call_requires(*conclusion, v),
            ensures
                exists|av: u64, bv: u64|
                    #[trigger] call_ensures(*assumption, (x,), av) && #[trigger] call_ensures(
                        *conclusion,
                        (x,),
                        bv,
                    ) && out == (!av | !bv),
            { crate::bits::imply(assumption(x), crate::bits::not(conclusion(x))) };
        let r1 = Self::prove(&pos);
        let r2 = Self::prove(&neg);
        proof {
            assert forall|g1: spec_fn(Self) -> u64, g2: spec_fn(Self) -> u64|
                ((forall|x: Self, av: u64, bv: u64|
                    #[trigger] call_ensures(*assumption, (x,), av) && #[trigger] call_ensures(
                        *conclusion,
                        (x,),
                        bv,
                    ) ==> g1(x) == (!av | bv)) && (forall|x: Self, av: u64, bv: u64|
                    #[trigger] call_ensures(*assumption, (x,), av) && #[trigger] call_ensures(
                        *conclusion,
                        (x,),
                        bv,
                    ) ==> g2(x) == (!av | !bv))) implies (r1 && !r2) == (Self::spec_prove(g1)
                && !Self::spec_prove(g2)) by {
                assert forall|x: Self, v: u64| #[trigger] call_ensures(pos, (x,), v) implies v
                    == g1(x) by {
                    let (av, bv) = choose|av: u64, bv: u64|
                        #[trigger] call_ensures(*assumption, (x,), av) && #[trigger] call_ensures(
                            *conclusion,
                            (x,),
                            bv,
                        ) && v == (!av | bv);
                }
                assert forall|x: Self, v: u64| #[trigger] call_ensures(neg, (x,), v) implies v
                    == g2(x) by {
                    let (av, bv) = choose|av: u64, bv: u64|
                        #[trigger] call_ensures(*assumption, (x,), av) && #[trigger] call_ensures(
                            *conclusion,
                            (x,),
                            bv,
                        ) && v == (!av | !bv);
                }
                assert(r1 == Self::spec_prove(g1));
                assert(r2 == Self::spec_prove(g2));
            }
        }
        r1 && !r2
    }

    /// Proves that according to the rules, two statements are
    /// equivalent.
    fn eq<FN: Fn(Self) -> u64, GN: Fn(Self) -> u64>(a: &FN, b: &GN) -> (r: bool)
        requires
            forall|v: (Self,)| call_requires(*a, v),
            forall|v: (Self,)| call_requires(*b, v),
        ensures
            forall|gc: spec_fn(Self) -> u64|
                (forall|x: Self, av: u64, bv: u64|
                    #[trigger] call_ensures(*a, (x,), av) && #[trigger] call_ensures(*b, (x,), bv)
                        ==> gc(x) == !(av ^ bv)) ==> r == #[trigger] Self::spec_prove(gc),
    {
        let w = |x: Self| -> (out: u64)
            requires
                forall|v: (Self,)| call_requires(*a, v),
                forall|v: (Self,)| call_requires(*b, v),
            ensures
                exists|av: u64, bv: u64|
                    #[trigger] call_ensures(*a, (x,), av) && #[trigger] call_ensures(*b, (x,), bv)
                        && out == !(av ^ bv),
            { crate::bits::eq(a(x), b(x)) };
        let r = Self::prove(&w);
        proof {
            assert forall|gc: spec_fn(Self) -> u64|
                (forall|x: Self, av: u64, bv: u64|
                    #[trigger] call_ensures(*a, (x,), av) && #[trigger] call_ensures(*b, (x,), bv)
                        ==> gc(x) == !(av ^ bv)) implies r == Self::spec_prove(gc) by {
                assert forall|x: Self, v: u64| #[trigger] call_ensures(w, (x,), v) implies v == gc(
                    x,
                ) by {
                    let (av, bv) = choose|av: u64, bv: u64|
                        #[trigger] call_ensures(*a, (x,), av) && #[trigger] call_ensures(
                            *b,
                            (x,),
                            bv,
                        ) && v == !(av ^ bv);
                }
                assert(r == Self::spec_prove(gc));
            }
        }
        r
    }

    /// Proves that according to the rules, two statements are exclusive.
    fn exc<FN: Fn(Self) -> u64, GN: Fn(Self) -> u64>(a: &FN, b: &GN) -> (r: bool)
        requires
            forall|v: (Self,)| call_requires(*a, v),
            forall|v: (Self,)| call_requires(*b, v),
        ensures
            forall|gc: spec_fn(Self) -> u64|
                (forall|x: Self, av: u64, bv: u64|
                    #[trigger] call_ensures(*a, (x,), av) && #[trigger] call_ensures(*b, (x,), bv)
                        ==> gc(x) == ((!av | !bv) & (!bv | !av))) ==> r == #[trigger] Self::spec_prove(
                    gc,
                ),
    {
        let w = |x: Self| -> (out: u64)
            requires
                forall|v: (Self,)| call_requires(*a, v),
                forall|v: (Self,)| call_requires(*b, v),
            ensures
                exists|av: u64, bv: u64|
                    #[trigger] call_ensures(*a, (x,), av) && #[trigger] call_ensures(*b, (x,), bv)
                        && out == ((!av | !bv) & (!bv | !av)),
            {
                let av = a(x);
                let bv = b(x);
                crate::bits::and(
                    crate::bits::imply(av, crate::bits::not(bv)),
                    crate::bits::imply(bv, crate::bits::not(av)),
                )
            };
        let r = Self::prove(&w);
        proof {
            assert forall|gc: spec_fn(Self) -> u64|
                (forall|x: Self, av: u64, bv: u64|
                    #[trigger] call_ensures(*a, (x,), av) && #[trigger] call_ensures(*b, (x,), bv)
                        ==> gc(x) == ((!av | !bv) & (!bv | !av))) implies r == Self::spec_prove(
                gc,
            ) by {
                assert forall|x: Self, v: u64| #[trigger] call_ensures(w, (x,), v) implies v == gc(
                    x,
                ) by {
                    let (av, bv) = choose|av: u64, bv: u64|
                        #[trigger] call_ensures(*a, (x,), av) && #[trigger] call_ensures(
                            *b,
                            (x,),
                            bv,
                        ) && v == ((!av | !bv) & (!bv | !av));
                }
                assert(r == Self::spec_prove(gc));
            }
        }
        r
    }

    /// Proves that according to the rules, the first statement implies
    /// the other.
    fn imply<FN: Fn(Self) -> u64, GN: Fn(Self) -> u64>(a: &FN, b: &GN) -> (r: bool)
        requires
            forall|v: (Self,)| call_requires(*a, v),
            forall|v: (Self,)| call_requires(*b, v),
        ensures
            forall|gc: spec_fn(Self) -> u64|
                (forall|x: Self, av: u64, bv: u64|
                    #[trigger] call_ensures(*a, (x,), av) && #[trigger] call_ensures(*b, (x,), bv)
                        ==> gc(x) == (!av | bv)) ==> r == #[trigger] Self::spec_prove(gc),
    {
        let w = |x: Self| -> (out: u64)
            requires
                forall|v: (Self,)| call_requires(*a, v),
                forall|v: (Self,)| call_requires(*b, v),
            ensures
                exists|av: u64, bv: u64|
                    #[trigger] call_ensures(*a, (x,), av) && #[trigger] call_ensures(*b, (x,), bv)
                        && out == (!av | bv),
            { crate::bits::imply(a(x), b(x)) };
        let r = Self::prove(&w);
        proof {
            assert forall|gc: spec_fn(Self) -> u64|
                (forall|x: Self, av: u64, bv: u64|
                    #[trigger] call_ensures(*a, (x,), av) && #[trigger] call_ensures(*b, (x,), bv)
                        ==> gc(x) == (!av | bv)) implies r == Self::spec_prove(gc) by {
                assert forall|x: Self, v: u64| #[trigger] call_ensures(w, (x,), v) implies v == gc(
                    x,
                ) by {
                    let (av, bv) = choose|av: u64, bv: u64|
                        #[trigger] call_ensures(*a, (x,), av) && #[trigger] call_ensures(
                            *b,
                            (x,),
                            bv,
                        ) && v == (!av | bv);
                }
                assert(r == Self::spec_prove(gc));
            }
        }
        r
    }
}

impl<S: Copy + Construct + ExtendRules> Prove for S {
    open spec fn spec_count(g: spec_fn(S) -> u64) -> nat {
        if S::spec_n() > 63 {
            0
        } else {
            countn_value(S::spec_n() as usize, sys_formula::<S>(g))
        }
    }

    open spec fn spec_prove(g: spec_fn(S) -> u64) -> bool {
        S::spec_n() <= 63 && Self::spec_count(g) == pow2(S::spec_n())
    }

    fn count<FN: Fn(S) -> u64>(f: &FN) -> (r: u64) {
        let nn = S::n();
        // a system of more words than the counters take would need more
        // evaluations than can ever run; such a system counts as empty
        if nn > 63 {
            return 0;
        }
        let h = |vs: &[u64]| -> (out: u64)
            requires
                vs@.len() == S::spec_n(),
                forall|v: (S,)| call_requires(*f, v),
            ensures
                exists|fv: u64|
                    #[trigger] call_ensures(*f, (S::spec_construct(vs@),), fv) && out == (
                    !spec_full_rules(S::spec_construct(vs@)) | fv),
            {
                let sys: S = Construct::construct(vs);
                crate::bits::imply(sys.full_rules(), f(sys))
            };
        let c = countn(nn, &h);
        proof {
            assert forall|g: spec_fn(S) -> u64|
                (forall|x: S, v: u64| #[trigger] call_ensures(*f, (x,), v) ==> v == g(
                    x,
                )) implies c == Self::spec_count(g) by {
                let hw = sys_formula::<S>(g);
                assert forall|s: &[u64], v: u64| #[trigger] call_ensures(h, (s,), v) implies v
                    == hw(s@) by {
                    let fv = choose|fv: u64|
                        #[trigger] call_ensures(*f, (S::spec_construct(s@),), fv) && v == (
                        !spec_full_rules(S::spec_construct(s@)) | fv);
                }
                lemma_countn_post_determined(nn, h, c, hw);
            }
        }
        c
    }

    fn prove<FN: Fn(S) -> u64>(f: &FN) -> (r: bool) {
        let nn = S::n();
        if nn > 63 {
            return false;
        }
        proof {
            vstd::bits::lemma_u64_pow2_no_overflow(nn as nat);
            vstd::bits::lemma_u64_shl_is_mul(1u64, nn as u64);
        }
        let c = Self::count(f);
        let total: u64 = 1u64 << (nn as u64);
        let r = c == total;
        proof {
            assert forall|g: spec_fn(S) -> u64|
                (forall|x: S, v: u64| #[trigger] call_ensures(*f, (x,), v) ==> v == g(
                    x,
                )) implies r == Self::spec_prove(g) by {
                assert(c == Self::spec_count(g));
            }
        }
        r
    }
}

} // verus!
