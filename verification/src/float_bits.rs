//! The bit-level model of IEEE 754 single-precision values.
//!
//! Every kernel in this crate works on 32-bit float values carried as their
//! raw bit patterns (`u32`). Addition of two such values is a deterministic
//! function of the two bit patterns alone; it is performed by the
//! `rustc_apfloat` software implementation of IEEE 754 and named here by the
//! uninterpreted spec function `fadd_bits`. Everything the kernels promise is
//! stated as a fold of `fadd_bits` over the input sequence, so a contract pins
//! down the exact order in which elements are added.

use vstd::prelude::*;
use rustc_apfloat::Float;

verus! {

/// The bit pattern of positive zero, the initial accumulator of every kernel.
pub const ZERO_BITS: u32 = 0;

/// The bit pattern of negative zero.
pub const NEG_ZERO_BITS: u32 = 0x8000_0000;

/// Whether a bit pattern encodes a NaN: exponent all ones, mantissa nonzero.
pub open spec fn is_nan_bits(b: u32) -> bool {
    (b >> 23) & 0xff == 0xff && b & 0x7f_ffff != 0
}

/// The bit pattern of the IEEE 754 single-precision sum of two bit patterns,
/// rounded to nearest, ties to even. Left uninterpreted: the only things known
/// about it are what the contract of `ieee_add` states.
pub uninterp spec fn fadd_bits(a: u32, b: u32) -> u32;

/// Relies on `rustc_apfloat::ieee::Single`: `from_bits`, `+` (which rounds to
/// nearest, ties to even) and `to_bits`. The sum depends on the two operand
/// bit patterns alone, so it is named by `fadd_bits`. The two zero-identity
/// clauses restate `add_r`'s special cases: adding a zero hands back the other
/// operand unchanged when that operand is not a NaN, except that the sum of
/// two zeroes of unlike sign is positive zero.
#[verifier::external_body]
pub(crate) fn ieee_add(a: u32, b: u32) -> (r: u32)
    ensures
        r == fadd_bits(a, b),
        a == ZERO_BITS && !is_nan_bits(b) && b != NEG_ZERO_BITS ==> r == b,
        b == ZERO_BITS && !is_nan_bits(a) && a != NEG_ZERO_BITS ==> r == a,
{
    let x = rustc_apfloat::ieee::Single::from_bits(a as u128);
    let y = rustc_apfloat::ieee::Single::from_bits(b as u128);
    (x + y).value.to_bits() as u32
}

/// The left-to-right fold of `fadd_bits` over `s`, starting from `init`.
pub open spec fn fold_bits(init: u32, s: Seq<u32>) -> u32
    decreases s.len(),
{
    if s.len() == 0 {
        init
    } else {
        fadd_bits(fold_bits(init, s.drop_last()), s.last())
    }
}

/// The canonical sum: the left-to-right fold starting from positive zero.
/// This is the evaluation order of the reference reducer, and the order every
/// scalar kernel reproduces.
pub open spec fn sum_bits(s: Seq<u32>) -> u32 {
    fold_bits(ZERO_BITS, s)
}

/// Positive zero is not a NaN (its exponent field is all zeroes), so the
/// zero-identity clauses of `ieee_add` apply to a zero accumulator.
pub proof fn lemma_zero_not_nan()
    ensures
        !is_nan_bits(ZERO_BITS),
        ZERO_BITS != NEG_ZERO_BITS,
{
    assert((0u32 >> 23) & 0xff != 0xff) by (bit_vector);
}

/// Folding a single element is one addition onto the initial value.
pub proof fn lemma_fold_singleton(init: u32, x: u32)
    ensures
        fold_bits(init, seq![x]) == fadd_bits(init, x),
{
    assert(seq![x].drop_last() =~= Seq::<u32>::empty());
    assert(fold_bits(init, seq![x]) == fadd_bits(fold_bits(init, seq![x].drop_last()), seq![x].last()));
}

/// Folding one more element on the right is one more addition.
pub proof fn lemma_fold_push(init: u32, s: Seq<u32>, x: u32)
    ensures
        fold_bits(init, s.push(x)) == fadd_bits(fold_bits(init, s), x),
{
    assert(s.push(x).drop_last() =~= s);
    assert(s.push(x).last() == x);
}

/// Extending the summed prefix of `s` from `i` to `i + 1` elements adds
/// `s[i]` on the right.
pub proof fn lemma_sum_take_step(s: Seq<u32>, i: int)
    requires
        0 <= i < s.len(),
    ensures
        sum_bits(s.take(i + 1)) == fadd_bits(sum_bits(s.take(i)), s[i]),
{
    assert(s.take(i + 1).drop_last() =~= s.take(i));
    assert(s.take(i + 1).last() == s[i]);
}

} // verus!
