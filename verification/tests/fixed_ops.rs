//! Exact behavior of the fixed-point scalar operations.

use juggler::fixed::{
    fp_abs, fp_add, fp_div, fp_mul, fp_neg, fp_pow, fp_sqrt, fp_sub, fp_tmod, FP_ONE,
};

#[test]
fn add_and_sub_are_exact_in_range() {
    assert_eq!(fp_add(FP_ONE, FP_ONE), 2 * FP_ONE);
    assert_eq!(fp_sub(FP_ONE, 3 * FP_ONE), -2 * FP_ONE);
    assert_eq!(fp_add(-5, 5), 0);
}

#[test]
fn add_saturates_at_the_ends() {
    assert_eq!(fp_add(i64::MAX, 1), i64::MAX);
    assert_eq!(fp_sub(i64::MIN, 1), i64::MIN);
    assert_eq!(fp_neg(i64::MIN), i64::MAX);
}

#[test]
fn mul_scales_and_truncates_toward_zero() {
    // 0.5 * 0.5 == 0.25
    assert_eq!(fp_mul(32768, 32768), 16384);
    // 1.5 * 2 == 3
    assert_eq!(fp_mul(98304, 131072), 196608);
    // Truncation is toward zero for negative products.
    assert_eq!(fp_mul(-3, 3), 0);
    assert_eq!(fp_mul(3, 3), 0);
}

#[test]
fn mul_saturates() {
    assert_eq!(fp_mul(i64::MAX, i64::MAX), i64::MAX);
    assert_eq!(fp_mul(i64::MAX, -i64::MAX), i64::MIN);
}

#[test]
fn div_is_exact_and_truncates() {
    // 3 / 2 == 1.5
    assert_eq!(fp_div(3 * FP_ONE, 2 * FP_ONE), 98304);
    // 1 / 3 truncates: 65536 * 65536 / 196608 = 21845.33..
    assert_eq!(fp_div(FP_ONE, 3 * FP_ONE), 21845);
    assert_eq!(fp_div(-FP_ONE, 3 * FP_ONE), -21845);
}

#[test]
fn div_by_zero_saturates_by_sign() {
    assert_eq!(fp_div(5, 0), i64::MAX);
    assert_eq!(fp_div(-5, 0), i64::MIN);
    assert_eq!(fp_div(0, 0), 0);
}

#[test]
fn sqrt_of_perfect_squares_is_exact() {
    assert_eq!(fp_sqrt(FP_ONE), FP_ONE);
    assert_eq!(fp_sqrt(4 * FP_ONE), 2 * FP_ONE);
    assert_eq!(fp_sqrt(25 * FP_ONE), 5 * FP_ONE);
    // 0.25 -> 0.5
    assert_eq!(fp_sqrt(16384), 32768);
}

#[test]
fn sqrt_rounds_down_and_rejects_negatives() {
    // sqrt(2) = 1.41421.. ; 92681^2 = 8589767761 <= 2^33 < 92682^2
    assert_eq!(fp_sqrt(2 * FP_ONE), 92681);
    assert_eq!(fp_sqrt(0), 0);
    assert_eq!(fp_sqrt(-FP_ONE), 0);
}

#[test]
fn pow_iterates_the_product() {
    assert_eq!(fp_pow(32768, 0), FP_ONE);
    assert_eq!(fp_pow(32768, 1), 32768);
    assert_eq!(fp_pow(32768, 2), 16384);
    assert_eq!(fp_pow(32768, 10), 64);
    assert_eq!(fp_pow(FP_ONE, 500), FP_ONE);
}

#[test]
fn tmod_follows_the_dividend_sign() {
    assert_eq!(fp_tmod(7, 4), 3);
    assert_eq!(fp_tmod(-7, 4), -3);
    assert_eq!(fp_tmod(7, -4), 3);
    assert_eq!(fp_tmod(5, 0), 0);
}

#[test]
fn abs_saturates_only_at_the_minimum() {
    assert_eq!(fp_abs(-5), 5);
    assert_eq!(fp_abs(5), 5);
    assert_eq!(fp_abs(i64::MIN), i64::MAX);
}
