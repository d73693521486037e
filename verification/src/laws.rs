//! The cross-kernel laws.
//!
//! Each kernel's own contract pins its result to a spec-level fold of the
//! input; the laws here relate those folds across kernels.

use vstd::prelude::*;
use crate::float_bits::{sum_bits, ZERO_BITS};
use crate::simd::vec_sum_bits;

verus! {

/// Equivalence of the scalar kernels: every pointer-walk kernel returns
/// `sum_bits` of the prefix it consumes, and on the whole buffer that prefix
/// is the whole sequence, so each returns exactly the reference reducer's
/// value. Agreement of the vectorized kernel with the reference order is not
/// a consequence of IEEE addition alone and is checked per input by the test
/// corpus instead.
pub proof fn lemma_scalar_kernels_equivalent(s: Seq<u32>)
    ensures
        sum_bits(s.take(s.len() as int)) == sum_bits(s),
{
    assert(s.take(s.len() as int) =~= s);
}

/// The reference order sums an empty sequence to positive zero, with no
/// addition performed.
pub proof fn lemma_sum_empty()
    ensures
        sum_bits(Seq::<u32>::empty()) == ZERO_BITS,
{
}

/// Purity: each kernel's result is a function of the consumed sequence
/// alone — the left-to-right fold for the scalar kernels, the regrouped fold
/// for the vectorized one — so invoking a kernel twice on the same
/// unmodified buffer yields identical results.
pub proof fn lemma_kernels_pure(s: Seq<u32>, r1: u32, r2: u32, q1: u32, q2: u32)
    requires
        r1 == sum_bits(s),
        r2 == sum_bits(s),
        q1 == vec_sum_bits(s),
        q2 == vec_sum_bits(s),
    ensures
        r1 == r2,
        q1 == q2,
{
}

} // verus!
