//! The vectorized summation kernel.
//!
//! The kernel consumes the buffer in three phases so that counts not
//! divisible by the vector width are absorbed up front: a scalar remainder
//! phase peels off elements one at a time until the remaining count is a
//! multiple of four, a four-wide phase peels off one group of four when the
//! remaining count is not a multiple of eight, and an eight-wide phase then
//! consumes two four-wide halves per iteration into two independent
//! four-lane accumulators. A horizontal fold adds the two vector
//! accumulators lane-wise and extracts the four lanes, in lane order, into
//! the scalar accumulator left by the remainder phase.
//!
//! Because IEEE addition is not associative, this regrouped order does not
//! in general equal the strict left-to-right order of the reference reducer;
//! the contract therefore states the regrouped order itself, exactly, and
//! agreement with the reference is checked per input by the test corpus.

use vstd::prelude::*;
use crate::float_bits::{
    fadd_bits, fold_bits, ieee_add, is_nan_bits, lemma_fold_push, lemma_fold_singleton,
    lemma_sum_take_step, lemma_zero_not_nan, sum_bits, NEG_ZERO_BITS, ZERO_BITS,
};

verus! {

/// How many elements the scalar remainder phase consumes for a count `n`.
pub open spec fn scalar_len(n: int) -> int {
    n % 4
}

/// How many elements the four-wide phase consumes for a count `n`: four if
/// the count left after the scalar phase is not a multiple of eight, else
/// none.
pub open spec fn quad_len(n: int) -> int {
    if (n - n % 4) % 8 != 0 {
        4
    } else {
        0
    }
}

/// The offset at which the eight-wide phase begins.
pub open spec fn group_base(n: int) -> int {
    scalar_len(n) + quad_len(n)
}

/// How many eight-wide groups the final phase consumes.
pub open spec fn group_count(n: int) -> int {
    (n - group_base(n)) / 8
}

/// The three phase extents partition the count: the scalar phase takes
/// `n % 4` elements, the four-wide phase none or four, and eight-wide groups
/// take exactly the rest.
pub proof fn lemma_phase_arith(n: int)
    requires
        n >= 0,
    ensures
        0 <= scalar_len(n) <= n,
        scalar_len(n) < 4,
        quad_len(n) == 0 || quad_len(n) == 4,
        group_base(n) <= n,
        group_count(n) >= 0,
        n == group_base(n) + 8 * group_count(n),
{
    let m = n - n % 4;
    assert(m % 4 == 0);
    assert(m % 8 == 0 || m % 8 == 4) by (nonlinear_arith)
        requires
            m >= 0,
            m % 4 == 0,
    ;
    let b = group_base(n);
    assert((n - b) % 8 == 0);
    assert(n - b == 8 * ((n - b) / 8));
}

/// The element the four-wide phase feeds into lane `j` of the first vector
/// accumulator, if that phase runs at all.
pub open spec fn quad_lane(s: Seq<u32>, j: int) -> Seq<u32> {
    if quad_len(s.len() as int) == 4 {
        seq![s[scalar_len(s.len() as int) + j]]
    } else {
        Seq::empty()
    }
}

/// The elements fed into lane `j` of the first vector accumulator by the
/// four-wide phase and the first `k` eight-wide groups: element `j` of the
/// first half of each group.
pub open spec fn lane1_seq(s: Seq<u32>, j: int, k: int) -> Seq<u32> {
    quad_lane(s, j) + Seq::new(k as nat, |t: int| s[group_base(s.len() as int) + 8 * t + j])
}

/// The elements fed into lane `j` of the second vector accumulator by the
/// first `k` eight-wide groups: element `j` of the second half of each group.
pub open spec fn lane2_seq(s: Seq<u32>, j: int, k: int) -> Seq<u32> {
    Seq::new(k as nat, |t: int| s[group_base(s.len() as int) + 8 * t + 4 + j])
}

/// Lane `j` after the horizontal lane-wise add of the two vector
/// accumulators; the second accumulator is the left operand, as the
/// lane-wise add writes into it.
pub open spec fn folded_lane(s: Seq<u32>, j: int) -> u32 {
    fadd_bits(
        fold_bits(ZERO_BITS, lane2_seq(s, j, group_count(s.len() as int))),
        fold_bits(ZERO_BITS, lane1_seq(s, j, group_count(s.len() as int))),
    )
}

/// The vectorized kernel's exact result on `s`: the scalar remainder
/// partial sum, then the four folded lanes added one at a time in lane
/// order.
pub open spec fn vec_sum_bits(s: Seq<u32>) -> u32 {
    let a0 = sum_bits(s.take(scalar_len(s.len() as int)));
    fadd_bits(
        fadd_bits(
            fadd_bits(fadd_bits(a0, folded_lane(s, 0)), folded_lane(s, 1)),
            folded_lane(s, 2),
        ),
        folded_lane(s, 3),
    )
}

/// Extending lane `j` of the first vector accumulator by group `k` adds that
/// group's first-half element `j` on the right.
proof fn lemma_lane1_extend(s: Seq<u32>, j: int, k: int)
    requires
        0 <= j < 4,
        0 <= k,
        group_base(s.len() as int) + 8 * k + j < s.len(),
    ensures
        fold_bits(ZERO_BITS, lane1_seq(s, j, k + 1)) == fadd_bits(
            fold_bits(ZERO_BITS, lane1_seq(s, j, k)),
            s[group_base(s.len() as int) + 8 * k + j],
        ),
{
    let x = s[group_base(s.len() as int) + 8 * k + j];
    assert(lane1_seq(s, j, k + 1) =~= lane1_seq(s, j, k).push(x));
    lemma_fold_push(ZERO_BITS, lane1_seq(s, j, k), x);
}

/// Extending lane `j` of the second vector accumulator by group `k` adds
/// that group's second-half element `j` on the right.
proof fn lemma_lane2_extend(s: Seq<u32>, j: int, k: int)
    requires
        0 <= j < 4,
        0 <= k,
        group_base(s.len() as int) + 8 * k + 4 + j < s.len(),
    ensures
        fold_bits(ZERO_BITS, lane2_seq(s, j, k + 1)) == fadd_bits(
            fold_bits(ZERO_BITS, lane2_seq(s, j, k)),
            s[group_base(s.len() as int) + 8 * k + 4 + j],
        ),
{
    let x = s[group_base(s.len() as int) + 8 * k + 4 + j];
    assert(lane2_seq(s, j, k + 1) =~= lane2_seq(s, j, k).push(x));
    lemma_fold_push(ZERO_BITS, lane2_seq(s, j, k), x);
}

/// The vectorized kernel: consumes `n` elements in the three phases
/// described in the module documentation and returns exactly the regrouped
/// sum `vec_sum_bits` of the consumed prefix. The caller guarantees the
/// buffer holds at least `n` elements.
///
/// For counts below four every element is consumed by the scalar remainder
/// phase, so the result provably agrees with the reference order
/// `sum_bits`, provided that partial sum is neither a NaN nor negative zero
/// (the horizontal fold then adds four zero lanes, each of which hands the
/// accumulator back unchanged).
pub fn sum_ptr_asm_simd(f: &Vec<u32>, n: usize) -> (r: u32)
    requires
        n <= f@.len(),
    ensures
        r == vec_sum_bits(f@.take(n as int)),
        n == 0 ==> r == ZERO_BITS,
        n == 1 && !is_nan_bits(f@[0]) && f@[0] != NEG_ZERO_BITS ==> r == f@[0],
        n < 4 && !is_nan_bits(sum_bits(f@.take(n as int))) && sum_bits(f@.take(n as int))
            != NEG_ZERO_BITS ==> r == sum_bits(f@.take(n as int)),
{
    let ghost s = f@.take(n as int);
    let mut acc: u32 = ZERO_BITS;
    let mut v1_0: u32 = ZERO_BITS;
    let mut v1_1: u32 = ZERO_BITS;
    let mut v1_2: u32 = ZERO_BITS;
    let mut v1_3: u32 = ZERO_BITS;
    let mut v2_0: u32 = ZERO_BITS;
    let mut v2_1: u32 = ZERO_BITS;
    let mut v2_2: u32 = ZERO_BITS;
    let mut v2_3: u32 = ZERO_BITS;
    let mut cur: usize = 0;
    let mut remaining: usize = n;

    // Scalar remainder phase: peel off elements one at a time until the
    // remaining count is a multiple of four.
    while remaining % 4 != 0
        invariant
            n <= f@.len(),
            s == f@.take(n as int),
            remaining == n - cur,
            cur as int <= scalar_len(n as int),
            acc == sum_bits(s.take(cur as int)),
            n == 1 && !is_nan_bits(f@[0]) && f@[0] != NEG_ZERO_BITS && cur >= 1
                ==> acc == f@[0],
        decreases remaining,
    {
        proof {
            lemma_phase_arith(n as int);
            lemma_sum_take_step(s, cur as int);
        }
        acc = ieee_add(acc, f[cur]);
        cur = cur + 1;
        remaining = remaining - 1;
    }

    proof {
        lemma_phase_arith(n as int);
        assert(cur as int == scalar_len(n as int));
    }

    // Four-wide remainder phase: peel off one group of four when the
    // remaining count is not a multiple of eight, loading it into the lanes
    // of the first vector accumulator.
    while remaining % 8 != 0
        invariant
            n <= f@.len(),
            s == f@.take(n as int),
            remaining == n - cur,
            remaining % 4 == 0,
            acc == sum_bits(s.take(scalar_len(n as int))),
            n == 1 && !is_nan_bits(f@[0]) && f@[0] != NEG_ZERO_BITS ==> acc == f@[0],
            v2_0 == ZERO_BITS && v2_1 == ZERO_BITS && v2_2 == ZERO_BITS && v2_3 == ZERO_BITS,
            (cur as int == scalar_len(n as int) && v1_0 == ZERO_BITS && v1_1 == ZERO_BITS
                && v1_2 == ZERO_BITS && v1_3 == ZERO_BITS) || (quad_len(n as int) == 4
                && cur as int == group_base(n as int) && v1_0 == fold_bits(
                ZERO_BITS,
                quad_lane(s, 0),
            ) && v1_1 == fold_bits(ZERO_BITS, quad_lane(s, 1)) && v1_2 == fold_bits(
                ZERO_BITS,
                quad_lane(s, 2),
            ) && v1_3 == fold_bits(ZERO_BITS, quad_lane(s, 3))),
        decreases remaining,
    {
        proof {
            lemma_phase_arith(n as int);
            assert(cur as int == scalar_len(n as int));
            assert(quad_len(n as int) == 4);
        }
        v1_0 = ieee_add(v1_0, f[cur]);
        v1_1 = ieee_add(v1_1, f[cur + 1]);
        v1_2 = ieee_add(v1_2, f[cur + 2]);
        v1_3 = ieee_add(v1_3, f[cur + 3]);
        proof {
            lemma_fold_singleton(ZERO_BITS, s[scalar_len(n as int) + 0]);
            lemma_fold_singleton(ZERO_BITS, s[scalar_len(n as int) + 1]);
            lemma_fold_singleton(ZERO_BITS, s[scalar_len(n as int) + 2]);
            lemma_fold_singleton(ZERO_BITS, s[scalar_len(n as int) + 3]);
        }
        cur = cur + 4;
        remaining = remaining - 4;
    }

    proof {
        lemma_phase_arith(n as int);
        assert(cur as int == group_base(n as int));
        assert(lane1_seq(s, 0, 0) =~= quad_lane(s, 0));
        assert(lane1_seq(s, 1, 0) =~= quad_lane(s, 1));
        assert(lane1_seq(s, 2, 0) =~= quad_lane(s, 2));
        assert(lane1_seq(s, 3, 0) =~= quad_lane(s, 3));
        assert(lane2_seq(s, 0, 0) =~= Seq::<u32>::empty());
        assert(lane2_seq(s, 1, 0) =~= Seq::<u32>::empty());
        assert(lane2_seq(s, 2, 0) =~= Seq::<u32>::empty());
        assert(lane2_seq(s, 3, 0) =~= Seq::<u32>::empty());
        if quad_len(n as int) == 0 {
            assert(quad_lane(s, 0) =~= Seq::<u32>::empty());
            assert(quad_lane(s, 1) =~= Seq::<u32>::empty());
            assert(quad_lane(s, 2) =~= Seq::<u32>::empty());
            assert(quad_lane(s, 3) =~= Seq::<u32>::empty());
        }
    }

    // Eight-wide phase: two four-wide halves per group, the first half into
    // the first vector accumulator and the second half into the second, two
    // independent dependency chains.
    let ghost mut k: int = 0;
    while remaining != 0
        invariant
            n <= f@.len(),
            s == f@.take(n as int),
            remaining == n - cur,
            remaining % 8 == 0,
            0 <= k <= group_count(n as int),
            cur as int == group_base(n as int) + 8 * k,
            acc == sum_bits(s.take(scalar_len(n as int))),
            n == 1 && !is_nan_bits(f@[0]) && f@[0] != NEG_ZERO_BITS ==> acc == f@[0],
            v1_0 == fold_bits(ZERO_BITS, lane1_seq(s, 0, k)),
            v1_1 == fold_bits(ZERO_BITS, lane1_seq(s, 1, k)),
            v1_2 == fold_bits(ZERO_BITS, lane1_seq(s, 2, k)),
            v1_3 == fold_bits(ZERO_BITS, lane1_seq(s, 3, k)),
            v2_0 == fold_bits(ZERO_BITS, lane2_seq(s, 0, k)),
            v2_1 == fold_bits(ZERO_BITS, lane2_seq(s, 1, k)),
            v2_2 == fold_bits(ZERO_BITS, lane2_seq(s, 2, k)),
            v2_3 == fold_bits(ZERO_BITS, lane2_seq(s, 3, k)),
        decreases remaining,
    {
        proof {
            lemma_phase_arith(n as int);
            assert(remaining >= 8);
        }
        v1_0 = ieee_add(v1_0, f[cur]);
        v1_1 = ieee_add(v1_1, f[cur + 1]);
        v1_2 = ieee_add(v1_2, f[cur + 2]);
        v1_3 = ieee_add(v1_3, f[cur + 3]);
        v2_0 = ieee_add(v2_0, f[cur + 4]);
        v2_1 = ieee_add(v2_1, f[cur + 5]);
        v2_2 = ieee_add(v2_2, f[cur + 6]);
        v2_3 = ieee_add(v2_3, f[cur + 7]);
        proof {
            lemma_lane1_extend(s, 0, k);
            lemma_lane1_extend(s, 1, k);
            lemma_lane1_extend(s, 2, k);
            lemma_lane1_extend(s, 3, k);
            lemma_lane2_extend(s, 0, k);
            lemma_lane2_extend(s, 1, k);
            lemma_lane2_extend(s, 2, k);
            lemma_lane2_extend(s, 3, k);
            k = k + 1;
        }
        cur = cur + 8;
        remaining = remaining - 8;
    }

    proof {
        lemma_phase_arith(n as int);
        assert(k == group_count(n as int));
    }

    // Horizontal fold: add the two vector accumulators lane-wise into the
    // second, then extract the four lanes in lane order into the scalar
    // accumulator left by the remainder phase.
    let w0 = ieee_add(v2_0, v1_0);
    let w1 = ieee_add(v2_1, v1_1);
    let w2 = ieee_add(v2_2, v1_2);
    let w3 = ieee_add(v2_3, v1_3);
    acc = ieee_add(acc, w0);
    acc = ieee_add(acc, w1);
    acc = ieee_add(acc, w2);
    acc = ieee_add(acc, w3);

    proof {
        assert(s.len() == n as int);
        assert(w0 == folded_lane(s, 0));
        assert(w1 == folded_lane(s, 1));
        assert(w2 == folded_lane(s, 2));
        assert(w3 == folded_lane(s, 3));
        lemma_zero_not_nan();
        if n < 4 {
            assert(quad_len(n as int) == 0);
            assert(group_count(n as int) == 0);
            assert(lane1_seq(s, 0, 0) =~= Seq::<u32>::empty());
            assert(lane1_seq(s, 1, 0) =~= Seq::<u32>::empty());
            assert(lane1_seq(s, 2, 0) =~= Seq::<u32>::empty());
            assert(lane1_seq(s, 3, 0) =~= Seq::<u32>::empty());
            assert(s.take(scalar_len(n as int)) =~= s);
            assert(s =~= f@.take(n as int));
        }
    }
    acc
}

} // verus!
