//! Truth-table bit patterns and the propositional connectives.
//!
//! A proposition in a formula of up to six variables is one of the fixed
//! words `P0..P5`; the j-th bit of `P_i` is the value of variable `i` under
//! the j-th of the `2^6` assignments.  A formula built from the connectives
//! below therefore returns a word whose bits are its whole truth table.

use vstd::prelude::*;

verus! {

/// The False proposition: all bits zero.
/// Also used to pin extra variables beyond the sixth to `false`.
pub const F: u64 = 0;
/// Truth table axis of variable 0: alternation period 2 bits.
pub const P0: u64 = 0xaaaa_aaaa_aaaa_aaaa;
/// Truth table axis of variable 1: alternation period 4 bits.
pub const P1: u64 = 0xcccc_cccc_cccc_cccc;
/// Truth table axis of variable 2: alternation period 8 bits.
pub const P2: u64 = 0xf0f0_f0f0_f0f0_f0f0;
/// Truth table axis of variable 3: alternation period 16 bits.
pub const P3: u64 = 0xff00_ff00_ff00_ff00;
/// Truth table axis of variable 4: alternation period 32 bits.
pub const P4: u64 = 0xffff_0000_ffff_0000;
/// Truth table axis of variable 5: alternation period 64 bits.
pub const P5: u64 = 0xffff_ffff_0000_0000;
/// The True proposition: all bits set.
/// Also used to pin extra variables beyond the sixth to `true`.
pub const T: u64 = 0xffff_ffff_ffff_ffff;

broadcast use crate::bitlemmas::lemma_and_assoc, crate::bitlemmas::lemma_or_assoc;

/// If input is `true`, returns `false` and vice versa.
pub fn not(a: u64) -> (r: u64)
    ensures
        r == !a,
{
    !a
}

/// Returns argument.
pub fn id(a: u64) -> (r: u64)
    ensures
        r == a,
{
    a
}

/// Returns `true` if all arguments are `true`.
pub fn and(a: u64, b: u64) -> (r: u64)
    ensures
        r == (a & b),
{
    a & b
}

/// Returns `true` if at least one argument is `true`.
pub fn or(a: u64, b: u64) -> (r: u64)
    ensures
        r == (a | b),
{
    a | b
}

/// Returns `true` if only one argument is `true`.
pub fn xor(a: u64, b: u64) -> (r: u64)
    ensures
        r == (a ^ b),
{
    a ^ b
}

/// Returns `true` if arguments are equal.
pub fn eq(a: u64, b: u64) -> (r: u64)
    ensures
        r == !(a ^ b),
{
    !(a ^ b)
}

/// First argument implies the second.
pub fn imply(a: u64, b: u64) -> (r: u64)
    ensures
        r == (!a | b),
{
    !a | b
}

/// Returns `T` if `a` is `true`, `F` otherwise.
/// In logical terminology this corresponds to a proposition.
pub fn prop(a: bool) -> (r: u64)
    ensures
        r == if a {
            T
        } else {
            F
        },
{
    if a {
        T
    } else {
        F
    }
}

/// Ignores argument, always returning `false`.
pub fn false_1(_a: u64) -> (r: u64)
    ensures
        r == F,
{
    0
}

/// Ignores argument, always returning `true`.
pub fn true_1(_a: u64) -> (r: u64)
    ensures
        r == T,
{
    T
}

/// Ignores both arguments, returning `false` for all inputs.
pub fn false_2(_a: u64, _b: u64) -> (r: u64)
    ensures
        r == F,
{
    0
}

/// Ignores both arguments, returning `true` for all inputs.
pub fn true_2(_a: u64, _b: u64) -> (r: u64)
    ensures
        r == T,
{
    T
}

/// Ignores all 3 arguments, returning `false` for all inputs.
pub fn false_3(_a: u64, _b: u64, _c: u64) -> (r: u64)
    ensures
        r == F,
{
    0
}

/// Ignores all 4 arguments, returning `false` for all inputs.
pub fn false_4(_a: u64, _b: u64, _c: u64, _d: u64) -> (r: u64)
    ensures
        r == F,
{
    0
}

/// Ignores all 5 arguments, returning `false` for all inputs.
pub fn false_5(_a: u64, _b: u64, _c: u64, _d: u64, _e: u64) -> (r: u64)
    ensures
        r == F,
{
    0
}

/// Ignores all 6 arguments, returning `false` for all inputs.
pub fn false_6(_a: u64, _b: u64, _c: u64, _d: u64, _e: u64, _f: u64) -> (r: u64)
    ensures
        r == F,
{
    0
}

/// Ignores all 7 arguments, returning `false` for all inputs.
pub fn false_7(_a: u64, _b: u64, _c: u64, _d: u64, _e: u64, _f: u64, _g: u64) -> (r: u64)
    ensures
        r == F,
{
    0
}

/// Ignores all 8 arguments, returning `false` for all inputs.
pub fn false_8(_a: u64, _b: u64, _c: u64, _d: u64, _e: u64, _f: u64, _g: u64, _h: u64) -> (r: u64)
    ensures
        r == F,
{
    0
}

/// Ignores all 9 arguments, returning `false` for all inputs.
pub fn false_9(
    _a: u64,
    _b: u64,
    _c: u64,
    _d: u64,
    _e: u64,
    _f: u64,
    _g: u64,
    _h: u64,
    _i: u64,
) -> (r: u64)
    ensures
        r == F,
{
    0
}

/// Ignores all 10 arguments, returning `false` for all inputs.
pub fn false_10(
    _a: u64,
    _b: u64,
    _c: u64,
    _d: u64,
    _e: u64,
    _f: u64,
    _g: u64,
    _h: u64,
    _i: u64,
    _j: u64,
) -> (r: u64)
    ensures
        r == F,
{
    0
}

/// Ignores all 3 arguments, returning `true` for all inputs.
pub fn true_3(_a: u64, _b: u64, _c: u64) -> (r: u64)
    ensures
        r == T,
{
    T
}

/// Ignores all 4 arguments, returning `true` for all inputs.
pub fn true_4(_a: u64, _b: u64, _c: u64, _d: u64) -> (r: u64)
    ensures
        r == T,
{
    T
}

/// Ignores all 5 arguments, returning `true` for all inputs.
pub fn true_5(_a: u64, _b: u64, _c: u64, _d: u64, _e: u64) -> (r: u64)
    ensures
        r == T,
{
    T
}

/// Ignores all 6 arguments, returning `true` for all inputs.
pub fn true_6(_a: u64, _b: u64, _c: u64, _d: u64, _e: u64, _f: u64) -> (r: u64)
    ensures
        r == T,
{
    T
}

/// Ignores all 7 arguments, returning `true` for all inputs.
pub fn true_7(_a: u64, _b: u64, _c: u64, _d: u64, _e: u64, _f: u64, _g: u64) -> (r: u64)
    ensures
        r == T,
{
    T
}

/// Ignores all 8 arguments, returning `true` for all inputs.
pub fn true_8(_a: u64, _b: u64, _c: u64, _d: u64, _e: u64, _f: u64, _g: u64, _h: u64) -> (r: u64)
    ensures
        r == T,
{
    T
}

/// Ignores all 9 arguments, returning `true` for all inputs.
pub fn true_9(
    _a: u64,
    _b: u64,
    _c: u64,
    _d: u64,
    _e: u64,
    _f: u64,
    _g: u64,
    _h: u64,
    _i: u64,
) -> (r: u64)
    ensures
        r == T,
{
    T
}

/// Ignores all 10 arguments, returning `true` for all inputs.
pub fn true_10(
    _a: u64,
    _b: u64,
    _c: u64,
    _d: u64,
    _e: u64,
    _f: u64,
    _g: u64,
    _h: u64,
    _i: u64,
    _j: u64,
) -> (r: u64)
    ensures
        r == T,
{
    T
}

/// An AND relation of 3 arguments.
pub fn and3(a: u64, b: u64, c: u64) -> (r: u64)
    ensures
        r == (a & b & c),
{
    and(and(a, b), c)
}

/// An AND relation of 4 arguments.
pub fn and4(a: u64, b: u64, c: u64, d: u64) -> (r: u64)
    ensures
        r == (a & b & c & d),
{
    and(and(a, b), and(c, d))
}

/// An AND relation of 5 arguments.
pub fn and5(a: u64, b: u64, c: u64, d: u64, e: u64) -> (r: u64)
    ensures
        r == (a & b & c & d & e),
{
    and(and(a, b), and3(c, d, e))
}

/// An AND relation of 6 arguments.
pub fn and6(a: u64, b: u64, c: u64, d: u64, e: u64, f: u64) -> (r: u64)
    ensures
        r == (a & b & c & d & e & f),
{
    and(and3(a, b, c), and3(d, e, f))
}

/// An AND relation of 7 arguments.
pub fn and7(a: u64, b: u64, c: u64, d: u64, e: u64, f: u64, g: u64) -> (r: u64)
    ensures
        r == (a & b & c & d & e & f & g),
{
    and(and4(a, b, c, d), and3(e, f, g))
}

/// An AND relation of 8 arguments.
pub fn and8(a: u64, b: u64, c: u64, d: u64, e: u64, f: u64, g: u64, h: u64) -> (r: u64)
    ensures
        r == (a & b & c & d & e & f & g & h),
{
    and(and4(a, b, c, d), and4(e, f, g, h))
}

/// An AND relation of 9 arguments.
pub fn and9(a: u64, b: u64, c: u64, d: u64, e: u64, f: u64, g: u64, h: u64, i: u64) -> (r: u64)
    ensures
        r == (a & b & c & d & e & f & g & h & i),
{
    and(and5(a, b, c, d, e), and4(f, g, h, i))
}

/// An AND relation of 10 arguments.
pub fn and10(
    a: u64,
    b: u64,
    c: u64,
    d: u64,
    e: u64,
    f: u64,
    g: u64,
    h: u64,
    i: u64,
    j: u64,
) -> (r: u64)
    ensures
        r == (a & b & c & d & e & f & g & h & i & j),
{
    and(and5(a, b, c, d, e), and5(f, g, h, i, j))
}

/// An OR relation of 3 arguments.
pub fn or3(a: u64, b: u64, c: u64) -> (r: u64)
    ensures
        r == (a | b | c),
{
    or(or(a, b), c)
}

/// An OR relation of 4 arguments.
pub fn or4(a: u64, b: u64, c: u64, d: u64) -> (r: u64)
    ensures
        r == (a | b | c | d),
{
    or(or(a, b), or(c, d))
}

/// An OR relation of 5 arguments.
pub fn or5(a: u64, b: u64, c: u64, d: u64, e: u64) -> (r: u64)
    ensures
        r == (a | b | c | d | e),
{
    or(or3(a, b, c), or(d, e))
}

/// An OR relation of 6 arguments.
pub fn or6(a: u64, b: u64, c: u64, d: u64, e: u64, f: u64) -> (r: u64)
    ensures
        r == (a | b | c | d | e | f),
{
    or(or3(a, b, c), or3(d, e, f))
}

/// An OR relation of 7 arguments.
pub fn or7(a: u64, b: u64, c: u64, d: u64, e: u64, f: u64, g: u64) -> (r: u64)
    ensures
        r == (a | b | c | d | e | f | g),
{
    or(or4(a, b, c, d), or3(e, f, g))
}

/// An OR relation of 8 arguments.
pub fn or8(a: u64, b: u64, c: u64, d: u64, e: u64, f: u64, g: u64, h: u64) -> (r: u64)
    ensures
        r == (a | b | c | d | e | f | g | h),
{
    or(or4(a, b, c, d), or4(e, f, g, h))
}

/// An OR relation of 9 arguments.
pub fn or9(a: u64, b: u64, c: u64, d: u64, e: u64, f: u64, g: u64, h: u64, i: u64) -> (r: u64)
    ensures
        r == (a | b | c | d | e | f | g | h | i),
{
    or(or5(a, b, c, d, e), or4(f, g, h, i))
}

/// An OR relation of 10 arguments.
pub fn or10(
    a: u64,
    b: u64,
    c: u64,
    d: u64,
    e: u64,
    f: u64,
    g: u64,
    h: u64,
    i: u64,
    j: u64,
) -> (r: u64)
    ensures
        r == (a | b | c | d | e | f | g | h | i | j),
{
    or(or5(a, b, c, d, e), or5(f, g, h, i, j))
}

/// Truth table of `xor3` as a word function: exactly one of the three
/// arguments holds.
pub open spec fn xor3_of(a: u64, b: u64, c: u64) -> u64 {
    ((a ^ b) & !c) | !((a | b) | !c)
}

/// Truth table of `xor4` as a word function: exactly one argument holds.
pub open spec fn xor4_of(a: u64, b: u64, c: u64, d: u64) -> u64 {
    (xor3_of(a, b, c) & !d) | !((a | b | c) | !d)
}

/// Truth table of `xor5` as a word function: exactly one argument holds.
pub open spec fn xor5_of(a: u64, b: u64, c: u64, d: u64, e: u64) -> u64 {
    (xor4_of(a, b, c, d) & !e) | !((a | b | c | d) | !e)
}

/// Truth table of `xor6` as a word function: exactly one argument holds.
pub open spec fn xor6_of(a: u64, b: u64, c: u64, d: u64, e: u64, f: u64) -> u64 {
    (xor5_of(a, b, c, d, e) & !f) | !((a | b | c | d | e) | !f)
}

/// Truth table of `xor7` as a word function: exactly one argument holds.
pub open spec fn xor7_of(a: u64, b: u64, c: u64, d: u64, e: u64, f: u64, g: u64) -> u64 {
    (xor6_of(a, b, c, d, e, f) & !g) | !((a | b | c | d | e | f) | !g)
}

/// Truth table of `xor8` as a word function: exactly one argument holds.
pub open spec fn xor8_of(a: u64, b: u64, c: u64, d: u64, e: u64, f: u64, g: u64, h: u64) -> u64 {
    (xor7_of(a, b, c, d, e, f, g) & !h) | !((a | b | c | d | e | f | g) | !h)
}

/// Truth table of `xor9` as a word function: exactly one argument holds.
pub open spec fn xor9_of(
    a: u64,
    b: u64,
    c: u64,
    d: u64,
    e: u64,
    f: u64,
    g: u64,
    h: u64,
    i: u64,
) -> u64 {
    (xor8_of(a, b, c, d, e, f, g, h) & !i) | !((a | b | c | d | e | f | g | h) | !i)
}

/// Truth table of `xor10` as a word function: exactly one argument holds.
pub open spec fn xor10_of(
    a: u64,
    b: u64,
    c: u64,
    d: u64,
    e: u64,
    f: u64,
    g: u64,
    h: u64,
    i: u64,
    j: u64,
) -> u64 {
    (xor9_of(a, b, c, d, e, f, g, h, i) & !j) | !((a | b | c | d | e | f | g | h | i) | !j)
}

/// An XOR relation of 3 arguments: true when exactly one argument is true.
pub fn xor3(a: u64, b: u64, c: u64) -> (r: u64)
    ensures
        r == xor3_of(a, b, c),
{
    or(and(xor(a, b), not(c)), not(or3(a, b, not(c))))
}

/// An XOR relation of 4 arguments: true when exactly one argument is true.
pub fn xor4(a: u64, b: u64, c: u64, d: u64) -> (r: u64)
    ensures
        r == xor4_of(a, b, c, d),
{
    or(and(xor3(a, b, c), not(d)), not(or4(a, b, c, not(d))))
}

/// An XOR relation of 5 arguments: true when exactly one argument is true.
pub fn xor5(a: u64, b: u64, c: u64, d: u64, e: u64) -> (r: u64)
    ensures
        r == xor5_of(a, b, c, d, e),
{
    or(and(xor4(a, b, c, d), not(e)), not(or5(a, b, c, d, not(e))))
}

/// An XOR relation of 6 arguments: true when exactly one argument is true.
pub fn xor6(a: u64, b: u64, c: u64, d: u64, e: u64, f: u64) -> (r: u64)
    ensures
        r == xor6_of(a, b, c, d, e, f),
{
    or(and(xor5(a, b, c, d, e), not(f)), not(or6(a, b, c, d, e, not(f))))
}

/// An XOR relation of 7 arguments: true when exactly one argument is true.
pub fn xor7(a: u64, b: u64, c: u64, d: u64, e: u64, f: u64, g: u64) -> (r: u64)
    ensures
        r == xor7_of(a, b, c, d, e, f, g),
{
    or(and(xor6(a, b, c, d, e, f), not(g)), not(or7(a, b, c, d, e, f, not(g))))
}

/// An XOR relation of 8 arguments: true when exactly one argument is true.
pub fn xor8(a: u64, b: u64, c: u64, d: u64, e: u64, f: u64, g: u64, h: u64) -> (r: u64)
    ensures
        r == xor8_of(a, b, c, d, e, f, g, h),
{
    or(and(xor7(a, b, c, d, e, f, g), not(h)), not(or8(a, b, c, d, e, f, g, not(h))))
}

/// An XOR relation of 9 arguments: true when exactly one argument is true.
pub fn xor9(a: u64, b: u64, c: u64, d: u64, e: u64, f: u64, g: u64, h: u64, i: u64) -> (r: u64)
    ensures
        r == xor9_of(a, b, c, d, e, f, g, h, i),
{
    or(and(xor8(a, b, c, d, e, f, g, h), not(i)), not(or9(a, b, c, d, e, f, g, h, not(i))))
}

/// An XOR relation of 10 arguments: true when exactly one argument is true.
pub fn xor10(
    a: u64,
    b: u64,
    c: u64,
    d: u64,
    e: u64,
    f: u64,
    g: u64,
    h: u64,
    i: u64,
    j: u64,
) -> (r: u64)
    ensures
        r == xor10_of(a, b, c, d, e, f, g, h, i, j),
{
    or(and(xor9(a, b, c, d, e, f, g, h, i), not(j)), not(or10(a, b, c, d, e, f, g, h, i, not(j))))
}

/// An IMPLY chain of 3 arguments.
pub fn imply3(a: u64, b: u64, c: u64) -> (r: u64)
    ensures
        r == ((!a | b) & (!b | c)),
{
    and(imply(a, b), imply(b, c))
}

/// An IMPLY chain of 4 arguments.
pub fn imply4(a: u64, b: u64, c: u64, d: u64) -> (r: u64)
    ensures
        r == ((!a | b) & (!b | c) & (!c | d)),
{
    and3(imply(a, b), imply(b, c), imply(c, d))
}

/// An IMPLY chain of 5 arguments.
pub fn imply5(a: u64, b: u64, c: u64, d: u64, e: u64) -> (r: u64)
    ensures
        r == ((!a | b) & (!b | c) & (!c | d) & (!d | e)),
{
    and4(imply(a, b), imply(b, c), imply(c, d), imply(d, e))
}

/// An IMPLY chain of 6 arguments.
pub fn imply6(a: u64, b: u64, c: u64, d: u64, e: u64, f: u64) -> (r: u64)
    ensures
        r == ((!a | b) & (!b | c) & (!c | d) & (!d | e) & (!e | f)),
{
    and5(imply(a, b), imply(b, c), imply(c, d), imply(d, e), imply(e, f))
}

/// An IMPLY chain of 7 arguments.
pub fn imply7(a: u64, b: u64, c: u64, d: u64, e: u64, f: u64, g: u64) -> (r: u64)
    ensures
        r == ((!a | b) & (!b | c) & (!c | d) & (!d | e) & (!e | f) & (!f | g)),
{
    and6(imply(a, b), imply(b, c), imply(c, d), imply(d, e), imply(e, f), imply(f, g))
}

/// An IMPLY chain of 8 arguments.
pub fn imply8(a: u64, b: u64, c: u64, d: u64, e: u64, f: u64, g: u64, h: u64) -> (r: u64)
    ensures
        r == ((!a | b) & (!b | c) & (!c | d) & (!d | e) & (!e | f) & (!f | g) & (!g | h)),
{
    and7(
        imply(a, b),
        imply(b, c),
        imply(c, d),
        imply(d, e),
        imply(e, f),
        imply(f, g),
        imply(g, h),
    )
}

/// An IMPLY chain of 9 arguments.
pub fn imply9(a: u64, b: u64, c: u64, d: u64, e: u64, f: u64, g: u64, h: u64, i: u64) -> (r: u64)
    ensures
        r == ((!a | b) & (!b | c) & (!c | d) & (!d | e) & (!e | f) & (!f | g) & (!g | h) & (!h
            | i)),
{
    and8(
        imply(a, b),
        imply(b, c),
        imply(c, d),
        imply(d, e),
        imply(e, f),
        imply(f, g),
        imply(g, h),
        imply(h, i),
    )
}

/// An IMPLY chain of 10 arguments.
pub fn imply10(
    a: u64,
    b: u64,
    c: u64,
    d: u64,
    e: u64,
    f: u64,
    g: u64,
    h: u64,
    i: u64,
    j: u64,
) -> (r: u64)
    ensures
        r == ((!a | b) & (!b | c) & (!c | d) & (!d | e) & (!e | f) & (!f | g) & (!g | h) & (!h | i)
            & (!i | j)),
{
    and9(
        imply(a, b),
        imply(b, c),
        imply(c, d),
        imply(d, e),
        imply(e, f),
        imply(f, g),
        imply(g, h),
        imply(h, i),
        imply(i, j),
    )
}

/// Truth table of the variadic AND over a sequence of words.
pub open spec fn andn_of(s: Seq<u64>) -> u64
    decreases s.len(),
{
    if s.len() == 0 {
        T
    } else if s.len() == 1 {
        s[0]
    } else {
        andn_of(s.drop_last()) & s.last()
    }
}

/// Truth table of the variadic OR over a sequence of words.
pub open spec fn orn_of(s: Seq<u64>) -> u64
    decreases s.len(),
{
    if s.len() == 0 {
        F
    } else if s.len() == 1 {
        s[0]
    } else {
        orn_of(s.drop_last()) | s.last()
    }
}

/// Truth table of the variadic XOR over a sequence of words: true in a
/// given truth-table row when exactly one of the words is true there.
pub open spec fn xorn_of(s: Seq<u64>) -> u64
    decreases s.len(),
{
    if s.len() == 0 {
        F
    } else if s.len() == 1 {
        s[0]
    } else if s.len() == 2 {
        s[0] ^ s[1]
    } else {
        (xorn_of(s.drop_last()) & !s.last()) | !(orn_of(s.drop_last()) | !s.last())
    }
}

/// Truth table of the variadic IMPLY chain over a sequence of words: the
/// conjunction of the implications between consecutive words, not a
/// right-associated implication.
pub open spec fn implyn_of(s: Seq<u64>) -> u64
    decreases s.len(),
{
    if s.len() == 0 {
        T
    } else if s.len() == 1 {
        s[0]
    } else if s.len() == 2 {
        !s[0] | s[1]
    } else {
        implyn_of(s.drop_last()) & (!s[s.len() - 2] | s.last())
    }
}

/// An AND relation of a variable number of arguments.
pub fn andn(vs: &[u64]) -> (r: u64)
    ensures
        r == andn_of(vs@),
{
    if vs.len() == 0 {
        return T;
    }
    let mut r: u64 = vs[0];
    let mut k: usize = 1;
    while k < vs.len()
        invariant
            1 <= k <= vs@.len(),
            r == andn_of(vs@.take(k as int)),
        decreases vs@.len() - k,
    {
        proof {
            assert(vs@.take(k + 1).drop_last() =~= vs@.take(k as int));
        }
        r = r & vs[k];
        k = k + 1;
    }
    proof {
        assert(vs@.take(vs@.len() as int) =~= vs@);
    }
    r
}

/// An OR relation of a variable number of arguments.
pub fn orn(vs: &[u64]) -> (r: u64)
    ensures
        r == orn_of(vs@),
{
    if vs.len() == 0 {
        return F;
    }
    let mut r: u64 = vs[0];
    let mut k: usize = 1;
    while k < vs.len()
        invariant
            1 <= k <= vs@.len(),
            r == orn_of(vs@.take(k as int)),
        decreases vs@.len() - k,
    {
        proof {
            assert(vs@.take(k + 1).drop_last() =~= vs@.take(k as int));
        }
        r = r | vs[k];
        k = k + 1;
    }
    proof {
        assert(vs@.take(vs@.len() as int) =~= vs@);
    }
    r
}

/// An XOR relation of a variable number of arguments: true when exactly
/// one argument is true.
pub fn xorn(vs: &[u64]) -> (r: u64)
    ensures
        r == xorn_of(vs@),
{
    if vs.len() == 0 {
        return F;
    }
    if vs.len() == 1 {
        return vs[0];
    }
    let mut x: u64 = vs[0] ^ vs[1];
    let mut o: u64 = vs[0] | vs[1];
    proof {
        assert(vs@.take(2int).drop_last() =~= vs@.take(1int));
        assert(orn_of(vs@.take(1int)) == vs@[0]);
        assert(vs@.take(2int).last() == vs@[1]);
        assert(orn_of(vs@.take(2int)) == (vs@[0] | vs@[1]));
    }
    let mut k: usize = 2;
    while k < vs.len()
        invariant
            2 <= k <= vs@.len(),
            x == xorn_of(vs@.take(k as int)),
            o == orn_of(vs@.take(k as int)),
        decreases vs@.len() - k,
    {
        proof {
            assert(vs@.take(k + 1).drop_last() =~= vs@.take(k as int));
        }
        let v = vs[k];
        x = (x & !v) | !(o | !v);
        o = o | v;
        k = k + 1;
    }
    proof {
        assert(vs@.take(vs@.len() as int) =~= vs@);
    }
    x
}

/// An IMPLY chain of a variable number of arguments.
pub fn implyn(vs: &[u64]) -> (r: u64)
    ensures
        r == implyn_of(vs@),
{
    if vs.len() == 0 {
        return T;
    }
    if vs.len() == 1 {
        return vs[0];
    }
    let mut r: u64 = !vs[0] | vs[1];
    let mut k: usize = 2;
    while k < vs.len()
        invariant
            2 <= k <= vs@.len(),
            r == implyn_of(vs@.take(k as int)),
        decreases vs@.len() - k,
    {
        proof {
            assert(vs@.take(k + 1).drop_last() =~= vs@.take(k as int));
        }
        r = r & (!vs[k - 1] | vs[k]);
        k = k + 1;
    }
    proof {
        assert(vs@.take(vs@.len() as int) =~= vs@);
    }
    r
}

} // verus!
