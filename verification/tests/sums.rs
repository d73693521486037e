use arm64_test::{
    sum_ptr, sum_ptr_asm_branch, sum_ptr_asm_matched, sum_ptr_asm_mismatched,
    sum_ptr_asm_mismatched_br, sum_ptr_asm_simd, sum_slice,
};

/// The buffer `[0.0, 1.0, ..., n-1]`, carried as bit patterns.
fn counting_buffer(n: usize) -> Vec<u32> {
    (0..n).map(|i| (i as f32).to_bits()).collect()
}

/// The reference sum computed with native float arithmetic, left-to-right.
fn native_sum(d: &[u32]) -> u32 {
    let mut acc = 0.0f32;
    for &b in d {
        acc += f32::from_bits(b);
    }
    acc.to_bits()
}

#[test]
fn test_sums() {
    for size in [0, 1, 2, 3, 1024, 1025] {
        let d = counting_buffer(size);
        let v = sum_slice(&d);
        let len = d.len();
        assert_eq!(v, sum_ptr(&d, len));
        assert_eq!(v, sum_ptr_asm_matched(&d, len));
        assert_eq!(v, sum_ptr_asm_mismatched(&d, len));
        assert_eq!(v, sum_ptr_asm_branch(&d, len));
        assert_eq!(v, sum_ptr_asm_simd(&d, len));
    }
}

#[test]
fn mismatched_br_matches_reference() {
    for size in [0, 1, 2, 3, 7, 16, 1024, 1025] {
        let d = counting_buffer(size);
        assert_eq!(sum_slice(&d), sum_ptr_asm_mismatched_br(&d, d.len()));
    }
}

#[test]
fn matches_native_float_addition() {
    for size in [0, 1, 2, 3, 5, 8, 13, 100, 1024, 1025] {
        let d = counting_buffer(size);
        assert_eq!(sum_slice(&d), native_sum(&d));
    }
}

#[test]
fn concrete_scenario_1024() {
    let d = counting_buffer(1024);
    let expected = 523776.0f32.to_bits();
    let len = d.len();
    assert_eq!(sum_slice(&d), expected);
    assert_eq!(sum_ptr(&d, len), expected);
    assert_eq!(sum_ptr_asm_matched(&d, len), expected);
    assert_eq!(sum_ptr_asm_mismatched(&d, len), expected);
    assert_eq!(sum_ptr_asm_mismatched_br(&d, len), expected);
    assert_eq!(sum_ptr_asm_branch(&d, len), expected);
    assert_eq!(sum_ptr_asm_simd(&d, len), expected);
}

#[test]
fn concrete_scenario_three() {
    let d = counting_buffer(3);
    let expected = 3.0f32.to_bits();
    let len = d.len();
    assert_eq!(sum_slice(&d), expected);
    assert_eq!(sum_ptr(&d, len), expected);
    assert_eq!(sum_ptr_asm_matched(&d, len), expected);
    assert_eq!(sum_ptr_asm_mismatched(&d, len), expected);
    assert_eq!(sum_ptr_asm_mismatched_br(&d, len), expected);
    assert_eq!(sum_ptr_asm_branch(&d, len), expected);
    assert_eq!(sum_ptr_asm_simd(&d, len), expected);
}

#[test]
fn empty_input_returns_zero() {
    let empty: Vec<u32> = Vec::new();
    let zero = 0.0f32.to_bits();
    assert_eq!(sum_slice(&empty), zero);
    assert_eq!(sum_ptr(&empty, 0), zero);
    assert_eq!(sum_ptr_asm_matched(&empty, 0), zero);
    assert_eq!(sum_ptr_asm_mismatched(&empty, 0), zero);
    assert_eq!(sum_ptr_asm_mismatched_br(&empty, 0), zero);
    assert_eq!(sum_ptr_asm_branch(&empty, 0), zero);
    assert_eq!(sum_ptr_asm_simd(&empty, 0), zero);
    // A zero count over a nonempty buffer reads nothing either.
    let d = counting_buffer(8);
    assert_eq!(sum_ptr(&d, 0), zero);
    assert_eq!(sum_ptr_asm_simd(&d, 0), zero);
}

#[test]
fn single_element_returns_it() {
    let d = vec![5.5f32.to_bits()];
    let expected = 5.5f32.to_bits();
    assert_eq!(sum_slice(&d), expected);
    assert_eq!(sum_ptr(&d, 1), expected);
    assert_eq!(sum_ptr_asm_matched(&d, 1), expected);
    assert_eq!(sum_ptr_asm_mismatched(&d, 1), expected);
    assert_eq!(sum_ptr_asm_mismatched_br(&d, 1), expected);
    assert_eq!(sum_ptr_asm_branch(&d, 1), expected);
    assert_eq!(sum_ptr_asm_simd(&d, 1), expected);
}

#[test]
fn single_negative_zero_sums_to_positive_zero() {
    // 0.0 + -0.0 is +0.0 under round-to-nearest, so a one-element buffer
    // holding -0.0 is the one input whose sum is not the element itself.
    let d = vec![(-0.0f32).to_bits()];
    let expected = (0.0f32 + -0.0f32).to_bits();
    assert_eq!(expected, 0.0f32.to_bits());
    assert_eq!(sum_slice(&d), expected);
    assert_eq!(sum_ptr_asm_simd(&d, 1), expected);
}

#[test]
fn simd_remainder_phase_coverage() {
    // Lengths 1..=3 exercise only the scalar remainder phase; 4..=7 add the
    // four-wide phase; 8..=15 add the eight-wide phase; multiples of 4 and
    // of 8 skip phases cleanly.
    let mut sizes: Vec<usize> = (0..=16).collect();
    sizes.extend([20, 24, 32, 1024, 1025]);
    for size in sizes {
        let d = counting_buffer(size);
        assert_eq!(sum_ptr_asm_simd(&d, d.len()), sum_slice(&d), "length {}", size);
        assert_eq!(sum_ptr_asm_simd(&d, d.len()), native_sum(&d), "length {}", size);
    }
}

#[test]
fn kernels_are_pure() {
    let d = counting_buffer(1025);
    let len = d.len();
    assert_eq!(sum_slice(&d), sum_slice(&d));
    assert_eq!(sum_ptr(&d, len), sum_ptr(&d, len));
    assert_eq!(sum_ptr_asm_matched(&d, len), sum_ptr_asm_matched(&d, len));
    assert_eq!(sum_ptr_asm_mismatched(&d, len), sum_ptr_asm_mismatched(&d, len));
    assert_eq!(sum_ptr_asm_mismatched_br(&d, len), sum_ptr_asm_mismatched_br(&d, len));
    assert_eq!(sum_ptr_asm_branch(&d, len), sum_ptr_asm_branch(&d, len));
    assert_eq!(sum_ptr_asm_simd(&d, len), sum_ptr_asm_simd(&d, len));
}

#[test]
fn count_selects_a_prefix() {
    let d = counting_buffer(8);
    assert_eq!(sum_ptr(&d, 3), 3.0f32.to_bits());
    assert_eq!(sum_ptr_asm_matched(&d, 3), 3.0f32.to_bits());
    assert_eq!(sum_ptr_asm_branch(&d, 5), 10.0f32.to_bits());
    assert_eq!(sum_ptr_asm_simd(&d, 3), 3.0f32.to_bits());
}
