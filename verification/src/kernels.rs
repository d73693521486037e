//! The scalar summation kernels.
//!
//! Every kernel here reduces the same buffer to the same scalar and differs
//! only in the shape of its per-element loop: plain iteration over a slice,
//! an explicit cursor walk, a loop whose body is entered by a call and left
//! by the matching return, two recursion shapes in which the return edge
//! itself is the backward transfer, and a direct decrement-and-test branch
//! loop. Each contract pins the result to `sum_bits`, the strict
//! left-to-right fold of IEEE single-precision addition, so the kernels are
//! equivalent to the reference reducer by contract alone.

use vstd::prelude::*;
use crate::float_bits::{
    fadd_bits, ieee_add, is_nan_bits, lemma_sum_take_step, sum_bits, NEG_ZERO_BITS, ZERO_BITS,
};

verus! {

/// The reference reducer: sums a whole buffer in strict left-to-right order.
/// This is the ground truth every other kernel is held to.
pub fn sum_slice(f: &Vec<u32>) -> (r: u32)
    ensures
        r == sum_bits(f@),
        f@.len() == 0 ==> r == ZERO_BITS,
        f@.len() == 1 && !is_nan_bits(f@[0]) && f@[0] != NEG_ZERO_BITS ==> r == f@[0],
{
    let mut acc: u32 = ZERO_BITS;
    let n: usize = f.len();
    for i in 0..n
        invariant
            n == f@.len(),
            acc == sum_bits(f@.take(i as int)),
            f@.len() == 1 && !is_nan_bits(f@[0]) && f@[0] != NEG_ZERO_BITS && i >= 1
                ==> acc == f@[0],
    {
        proof {
            lemma_sum_take_step(f@, i as int);
        }
        acc = ieee_add(acc, f[i]);
    }
    proof {
        assert(f@.take(n as int) =~= f@);
    }
    acc
}

/// The cursor-walk reducer: consumes `n` consecutive elements starting at the
/// front of the buffer, advancing one slot per iteration, in the same
/// left-to-right order as [`sum_slice`]. The caller guarantees the buffer
/// holds at least `n` elements.
pub fn sum_ptr(f: &Vec<u32>, n: usize) -> (r: u32)
    requires
        n <= f@.len(),
    ensures
        r == sum_bits(f@.take(n as int)),
        n == 0 ==> r == ZERO_BITS,
        n == 1 && !is_nan_bits(f@[0]) && f@[0] != NEG_ZERO_BITS ==> r == f@[0],
{
    let mut acc: u32 = ZERO_BITS;
    let mut cur: usize = 0;
    while cur < n
        invariant
            n <= f@.len(),
            cur <= n,
            acc == sum_bits(f@.take(cur as int)),
            n == 1 && !is_nan_bits(f@[0]) && f@[0] != NEG_ZERO_BITS && cur >= 1
                ==> acc == f@[0],
        decreases n - cur,
    {
        proof {
            lemma_sum_take_step(f@, cur as int);
        }
        acc = ieee_add(acc, f[cur]);
        cur = cur + 1;
    }
    acc
}

/// The loop body shared by the call/return kernels: one addition, performed
/// in a subroutine of its own so that entering it is a call edge.
fn add_step(acc: u32, x: u32) -> (r: u32)
    ensures
        r == fadd_bits(acc, x),
        acc == ZERO_BITS && !is_nan_bits(x) && x != NEG_ZERO_BITS ==> r == x,
        x == ZERO_BITS && !is_nan_bits(acc) && acc != NEG_ZERO_BITS ==> r == acc,
{
    ieee_add(acc, x)
}

/// Matched call/return loop: the loop-control block tests the remaining
/// count, and each iteration enters the body through a call whose return
/// comes back to the control block — call and return are paired one level
/// deep.
pub fn sum_ptr_asm_matched(f: &Vec<u32>, n: usize) -> (r: u32)
    requires
        n <= f@.len(),
    ensures
        r == sum_bits(f@.take(n as int)),
        n == 0 ==> r == ZERO_BITS,
        n == 1 && !is_nan_bits(f@[0]) && f@[0] != NEG_ZERO_BITS ==> r == f@[0],
{
    let mut acc: u32 = ZERO_BITS;
    let mut cur: usize = 0;
    let mut remaining: usize = n;
    while remaining != 0
        invariant
            n <= f@.len(),
            cur <= n,
            remaining == n - cur,
            acc == sum_bits(f@.take(cur as int)),
            n == 1 && !is_nan_bits(f@[0]) && f@[0] != NEG_ZERO_BITS && cur >= 1
                ==> acc == f@[0],
        decreases remaining,
    {
        remaining = remaining - 1;
        proof {
            lemma_sum_take_step(f@, cur as int);
        }
        acc = add_step(acc, f[cur]);
        cur = cur + 1;
    }
    acc
}

/// The iteration shape of [`sum_ptr_asm_mismatched`]: the body is re-entered
/// for each further element by the recursive transfer in tail position, so
/// the body's own return edge doubles as the backward branch and never comes
/// back to the site that first entered it.
fn mismatched_body(f: &Vec<u32>, cur: usize, n: usize, acc: u32) -> (r: u32)
    requires
        n <= f@.len(),
        cur <= n,
        acc == sum_bits(f@.take(cur as int)),
    ensures
        r == sum_bits(f@.take(n as int)),
        cur == 0 && n == 1 && !is_nan_bits(f@[0]) && f@[0] != NEG_ZERO_BITS ==> r == f@[0],
    decreases n - cur,
{
    if cur == n {
        acc
    } else {
        proof {
            lemma_sum_take_step(f@, cur as int);
        }
        let acc2 = ieee_add(acc, f[cur]);
        mismatched_body(f, cur + 1, n, acc2)
    }
}

/// Mismatched call/return loop: the body is entered once and thereafter loops
/// by reusing its return edge as the backward transfer, violating matched
/// stack discipline.
pub fn sum_ptr_asm_mismatched(f: &Vec<u32>, n: usize) -> (r: u32)
    requires
        n <= f@.len(),
    ensures
        r == sum_bits(f@.take(n as int)),
        n == 0 ==> r == ZERO_BITS,
        n == 1 && !is_nan_bits(f@[0]) && f@[0] != NEG_ZERO_BITS ==> r == f@[0],
{
    mismatched_body(f, 0, n, ZERO_BITS)
}

/// The control block of [`sum_ptr_asm_mismatched_br`]: tests the remaining
/// count and dispatches into the body.
fn br_check(f: &Vec<u32>, cur: usize, n: usize, acc: u32) -> (r: u32)
    requires
        n <= f@.len(),
        cur <= n,
        acc == sum_bits(f@.take(cur as int)),
    ensures
        r == sum_bits(f@.take(n as int)),
        cur == 0 && n == 1 && !is_nan_bits(f@[0]) && f@[0] != NEG_ZERO_BITS ==> r == f@[0],
    decreases n - cur, 1int,
{
    if cur == n {
        acc
    } else {
        br_body(f, cur, n, acc)
    }
}

/// The body of [`sum_ptr_asm_mismatched_br`]: one addition, then a transfer
/// back to the control block through an explicit-target jump rather than a
/// plain return — the alternate mismatched shape.
fn br_body(f: &Vec<u32>, cur: usize, n: usize, acc: u32) -> (r: u32)
    requires
        n <= f@.len(),
        cur < n,
        acc == sum_bits(f@.take(cur as int)),
    ensures
        r == sum_bits(f@.take(n as int)),
        cur == 0 && n == 1 && !is_nan_bits(f@[0]) && f@[0] != NEG_ZERO_BITS ==> r == f@[0],
    decreases n - cur, 0int,
{
    proof {
        lemma_sum_take_step(f@, cur as int);
    }
    let acc2 = ieee_add(acc, f[cur]);
    br_check(f, cur + 1, n, acc2)
}

/// Mismatched call/return loop, explicit-target variant: like
/// [`sum_ptr_asm_mismatched`], but each iteration transfers back to the
/// control block through an explicit jump target instead of a plain return,
/// to probe an alternate mispredict shape.
pub fn sum_ptr_asm_mismatched_br(f: &Vec<u32>, n: usize) -> (r: u32)
    requires
        n <= f@.len(),
    ensures
        r == sum_bits(f@.take(n as int)),
        n == 0 ==> r == ZERO_BITS,
        n == 1 && !is_nan_bits(f@[0]) && f@[0] != NEG_ZERO_BITS ==> r == f@[0],
{
    br_check(f, 0, n, ZERO_BITS)
}

/// Direct conditional-branch loop: no call edges at all. A decrement-and-test
/// on the remaining count exits the loop the moment the count runs out,
/// otherwise the body falls through to one addition and an unconditional
/// backward branch to the test.
pub fn sum_ptr_asm_branch(f: &Vec<u32>, n: usize) -> (r: u32)
    requires
        n <= f@.len(),
    ensures
        r == sum_bits(f@.take(n as int)),
        n == 0 ==> r == ZERO_BITS,
        n == 1 && !is_nan_bits(f@[0]) && f@[0] != NEG_ZERO_BITS ==> r == f@[0],
{
    let mut acc: u32 = ZERO_BITS;
    let mut cur: usize = 0;
    let mut remaining: usize = n;
    loop
        invariant
            n <= f@.len(),
            cur <= n,
            remaining == n - cur,
            acc == sum_bits(f@.take(cur as int)),
            n == 1 && !is_nan_bits(f@[0]) && f@[0] != NEG_ZERO_BITS && cur >= 1
                ==> acc == f@[0],
        ensures
            acc == sum_bits(f@.take(n as int)),
            n == 1 && !is_nan_bits(f@[0]) && f@[0] != NEG_ZERO_BITS ==> acc == f@[0],
        decreases remaining,
    {
        if remaining == 0 {
            break;
        }
        remaining = remaining - 1;
        proof {
            lemma_sum_take_step(f@, cur as int);
        }
        acc = ieee_add(acc, f[cur]);
        cur = cur + 1;
    }
    acc
}

} // verus!
