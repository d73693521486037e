//! A laboratory of functionally equivalent summation kernels.
//!
//! Each kernel reduces a buffer of 32-bit float values (carried as raw bit
//! patterns, see [`float_bits`]) to one scalar, and each is built on a
//! different loop-control idiom: plain iteration, an explicit cursor walk,
//! call/return loops with matched and with mismatched nesting, a direct
//! conditional-branch loop, and a three-phase vectorized reduction. All the
//! scalar kernels are proved to produce the reference reducer's exact
//! left-to-right addition order; the vectorized kernel is proved to produce
//! exactly its documented phase-and-lane regrouped order.

pub mod float_bits;
pub mod kernels;
pub mod laws;
pub mod simd;

pub use kernels::sum_slice;
pub use kernels::sum_ptr;
pub use kernels::sum_ptr_asm_matched;
pub use kernels::sum_ptr_asm_mismatched;
pub use kernels::sum_ptr_asm_mismatched_br;
pub use kernels::sum_ptr_asm_branch;
pub use simd::sum_ptr_asm_simd;
pub use simd::vec_sum_bits;
pub use float_bits::fold_bits;
pub use float_bits::sum_bits;
pub use float_bits::ZERO_BITS;
