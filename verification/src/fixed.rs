//! Signed 64-bit fixed-point arithmetic with 16 fractional bits.
//!
//! A value `v: i64` stands for the real number `v / 65536`. Every operation
//! is total: results outside the `i64` range saturate to `i64::MIN` /
//! `i64::MAX`, and a division by zero saturates by the sign of the dividend.
//! Each executable operation is pinned to an exact mathematical description,
//! so callers can reason about results without any rounding slack.

use vstd::prelude::*;

verus! {

/// The fixed-point representation of 1.0.
pub const FP_ONE: i64 = 65536;

/// A small positive distance (about 1e-4) used to step off a surface
/// before casting a secondary ray.
pub const FP_EPSILON: i64 = 6;

/// Saturate an unbounded integer into the `i64` range.
pub open spec fn sat64(v: int) -> i64 {
    if v > i64::MAX as int {
        i64::MAX
    } else if v < i64::MIN as int {
        i64::MIN
    } else {
        v as i64
    }
}

/// The absolute value of an unbounded integer.
pub open spec fn abs_int(n: int) -> int {
    if n >= 0 {
        n
    } else {
        -n
    }
}

/// Quotient of `n / d` truncated toward zero, as Rust's integer division
/// computes it (the spec-mode `/` on `int` is Euclidean instead): the
/// quotient of the magnitudes, negated when the signs differ.
pub open spec fn tdiv(n: int, d: int) -> int {
    if (n < 0) <==> (d < 0) {
        abs_int(n) / abs_int(d)
    } else {
        -(abs_int(n) / abs_int(d))
    }
}

/// Remainder of `n / d` with the sign of `n`, as Rust's `%` computes it.
pub open spec fn tmod(n: int, d: int) -> int {
    if n >= 0 {
        abs_int(n) % abs_int(d)
    } else {
        -(abs_int(n) % abs_int(d))
    }
}

/// Saturating fixed-point addition.
pub open spec fn spec_add(a: i64, b: i64) -> i64 {
    sat64(a + b)
}

/// Saturating fixed-point subtraction.
pub open spec fn spec_sub(a: i64, b: i64) -> i64 {
    sat64(a - b)
}

/// Saturating fixed-point negation.
pub open spec fn spec_neg(a: i64) -> i64 {
    sat64(-a)
}

/// Saturating fixed-point multiplication: the exact product scaled down by
/// `FP_ONE`, truncated toward zero.
pub open spec fn spec_mul(a: i64, b: i64) -> i64 {
    sat64(tdiv(a * b, FP_ONE as int))
}

/// Saturating fixed-point division: the exact quotient scaled up by
/// `FP_ONE`, truncated toward zero. Division by zero saturates by the sign
/// of the dividend.
pub open spec fn spec_div(a: i64, b: i64) -> i64 {
    if b == 0 {
        if a > 0 {
            i64::MAX
        } else if a < 0 {
            i64::MIN
        } else {
            0
        }
    } else {
        sat64(tdiv(a * FP_ONE, b as int))
    }
}

/// `r` is the integer square root of `n`.
pub open spec fn is_isqrt(n: int, r: int) -> bool {
    &&& 0 <= r
    &&& r * r <= n
    &&& n < (r + 1) * (r + 1)
}

/// The integer square root, as the unique root described by [`is_isqrt`].
pub open spec fn spec_isqrt(n: int) -> int {
    choose|r: int| is_isqrt(n, r)
}

/// Fixed-point square root: `spec_fp_sqrt(x) / 65536` approximates
/// `sqrt(x / 65536)` from below. Nonpositive inputs map to zero.
pub open spec fn spec_fp_sqrt(x: i64) -> i64 {
    if x <= 0 {
        0
    } else {
        spec_isqrt(x * FP_ONE) as i64
    }
}

/// Fixed-point integer power with truncation at every step; the exponent is
/// a plain (not fixed-point) count.
pub open spec fn spec_fp_pow(b: i64, e: nat) -> i64
    decreases e,
{
    if e == 0 {
        FP_ONE
    } else {
        spec_mul(b, spec_fp_pow(b, (e - 1) as nat))
    }
}

/// Bounds on a product follow from bounds on its factors.
pub proof fn lemma_mul_bound(a: int, b: int, m: int, n: int)
    by (nonlinear_arith)
    requires
        -m <= a <= m,
        -n <= b <= n,
        0 <= m,
        0 <= n,
    ensures
        -(m * n) <= a * b <= m * n,
{
}

/// Every nonnegative integer has an integer square root, so
/// [`spec_isqrt`] satisfies the defining property of [`is_isqrt`].
pub proof fn lemma_isqrt_exists(n: int)
    requires
        n >= 0,
    ensures
        is_isqrt(n, spec_isqrt(n)),
    decreases n,
{
    if n == 0 {
        assert(is_isqrt(0, 0));
    } else {
        lemma_isqrt_exists(n - 1);
        let r = spec_isqrt(n - 1);
        if (r + 1) * (r + 1) <= n {
            assert(is_isqrt(n, r + 1)) by (nonlinear_arith)
                requires
                    is_isqrt(n - 1, r),
                    (r + 1) * (r + 1) <= n,
            ;
        } else {
            assert(is_isqrt(n, r));
        }
    }
}

/// There is at most one integer square root.
pub proof fn lemma_isqrt_unique(n: int, a: int, b: int)
    by (nonlinear_arith)
    requires
        is_isqrt(n, a),
        is_isqrt(n, b),
    ensures
        a == b,
{
}

/// Truncating division by a positive divisor is monotone in the dividend.
pub proof fn lemma_tdiv_monotone(a: int, b: int, d: int)
    requires
        a <= b,
        d > 0,
    ensures
        tdiv(a, d) <= tdiv(b, d),
{
    if a >= 0 {
        vstd::arithmetic::div_mod::lemma_div_is_ordered(a, b, d);
    } else if b < 0 {
        vstd::arithmetic::div_mod::lemma_div_is_ordered(-b, -a, d);
    } else {
        vstd::arithmetic::div_mod::lemma_div_pos_is_pos(-a, d);
        vstd::arithmetic::div_mod::lemma_div_pos_is_pos(b, d);
    }
}

/// Saturation is monotone.
pub proof fn lemma_sat64_monotone(a: int, b: int)
    requires
        a <= b,
    ensures
        sat64(a) <= sat64(b),
{
}

fn mag64(a: i64) -> (m: u64)
    ensures
        m as int == abs_int(a as int),
{
    if a >= 0 {
        a as u64
    } else {
        (-(a as i128)) as u64
    }
}

fn clamp128(v: i128) -> (r: i64)
    ensures
        r == sat64(v as int),
{
    if v > i64::MAX as i128 {
        i64::MAX
    } else if v < i64::MIN as i128 {
        i64::MIN
    } else {
        v as i64
    }
}

/// Saturating fixed-point addition.
pub fn fp_add(a: i64, b: i64) -> (r: i64)
    ensures
        r == spec_add(a, b),
{
    let v: i128 = a as i128 + b as i128;
    clamp128(v)
}

/// Saturating fixed-point subtraction.
pub fn fp_sub(a: i64, b: i64) -> (r: i64)
    ensures
        r == spec_sub(a, b),
{
    let v: i128 = a as i128 - b as i128;
    clamp128(v)
}

/// Saturating fixed-point negation.
pub fn fp_neg(a: i64) -> (r: i64)
    ensures
        r == spec_neg(a),
{
    let v: i128 = -(a as i128);
    clamp128(v)
}

/// Saturating fixed-point multiplication.
pub fn fp_mul(a: i64, b: i64) -> (r: i64)
    ensures
        r == spec_mul(a, b),
{
    proof {
        lemma_mul_bound(a as int, b as int, 0x8000_0000_0000_0000, 0x8000_0000_0000_0000);
    }
    let p: i128 = (a as i128) * (b as i128);
    let q: i128 = p / (FP_ONE as i128);
    clamp128(q)
}

/// Saturating fixed-point division.
pub fn fp_div(a: i64, b: i64) -> (r: i64)
    ensures
        r == spec_div(a, b),
{
    if b == 0 {
        if a > 0 {
            i64::MAX
        } else if a < 0 {
            i64::MIN
        } else {
            0
        }
    } else {
        let neg: bool = (a < 0) != (b < 0);
        let m: u64 = mag64(a);
        proof {
            lemma_mul_bound(m as int, FP_ONE as int, 0x1_0000_0000_0000_0000, 0x1_0000);
        }
        let ma: u128 = (m as u128) * (FP_ONE as u128);
        let mb: u128 = mag64(b) as u128;
        let q: u128 = ma / mb;
        proof {
            vstd::arithmetic::div_mod::lemma_div_nonincreasing(ma as int, mb as int);
            vstd::arithmetic::div_mod::lemma_div_pos_is_pos(ma as int, mb as int);
            assert(abs_int(a * FP_ONE) == abs_int(a as int) * FP_ONE) by (nonlinear_arith);
        }
        let s: i128 = if neg {
            -(q as i128)
        } else {
            q as i128
        };
        clamp128(s)
    }
}

/// Saturating absolute value.
pub open spec fn spec_abs64(v: i64) -> i64 {
    sat64(abs_int(v as int))
}

/// Saturating absolute value.
pub fn fp_abs(v: i64) -> (r: i64)
    ensures
        r == spec_abs64(v),
{
    if v >= 0 {
        v
    } else if v == i64::MIN {
        i64::MAX
    } else {
        -v
    }
}

/// Remainder with the sign of the dividend; zero when the divisor is zero.
pub open spec fn spec_tmod_total(n: i64, d: i64) -> i64 {
    if d == 0 {
        0
    } else {
        tmod(n as int, d as int) as i64
    }
}

/// Truncated remainder, total: a zero divisor yields zero.
pub fn fp_tmod(n: i64, d: i64) -> (r: i64)
    ensures
        r == spec_tmod_total(n, d),
{
    if d == 0 {
        return 0;
    }
    let mn: u64 = mag64(n);
    let md: u64 = mag64(d);
    let m: u64 = mn % md;
    proof {
        vstd::arithmetic::div_mod::lemma_mod_division_less_than_divisor(mn as int, md as int);
    }
    if n >= 0 {
        m as i64
    } else {
        -(m as i64)
    }
}

/// Fixed-point square root by binary search; exact per [`spec_fp_sqrt`].
pub fn fp_sqrt(x: i64) -> (r: i64)
    ensures
        r == spec_fp_sqrt(x),
        r >= 0,
{
    if x <= 0 {
        return 0;
    }
    proof {
        lemma_mul_bound(x as int, FP_ONE as int, 0x8000_0000_0000_0000, 0x1_0000);
    }
    let n: u128 = (x as u128) * (FP_ONE as u128);
    let mut lo: u128 = 0;
    let mut hi: u128 = 0x100_0000_0000;
    proof {
        assert((0x100_0000_0000 + 1) * (0x100_0000_0000 + 1) > n as int) by (nonlinear_arith)
            requires
                n < 0x8000_0000_0000_0000u128 * 0x1_0000u128,
        ;
    }
    while lo < hi
        invariant
            lo <= hi,
            lo * lo <= n as int,
            (n as int) < (hi + 1) * (hi + 1),
            hi <= 0x100_0000_0000,
        decreases hi - lo,
    {
        let mid: u128 = lo + (hi - lo + 1) / 2;
        proof {
            assert(mid * mid < 0x2000_0000_0000_0000_0000_0000_0000_0000) by (nonlinear_arith)
                requires
                    mid <= 0x100_0000_0000u128,
            ;
        }
        if mid * mid <= n {
            lo = mid;
        } else {
            proof {
                assert((mid - 1 + 1) * (mid - 1 + 1) > n as int);
            }
            hi = mid - 1;
        }
    }
    proof {
        assert(is_isqrt(n as int, lo as int));
        lemma_isqrt_unique(n as int, lo as int, spec_isqrt(n as int));
        assert(lo as int == spec_isqrt(x * FP_ONE));
    }
    lo as i64
}

/// Fixed-point power with a plain integer exponent.
pub fn fp_pow(b: i64, e: u64) -> (r: i64)
    ensures
        r == spec_fp_pow(b, e as nat),
{
    let mut acc: i64 = FP_ONE;
    let mut i: u64 = 0;
    while i < e
        invariant
            i <= e,
            acc == spec_fp_pow(b, i as nat),
        decreases e - i,
    {
        proof {
            assert(spec_mul(b, spec_fp_pow(b, i as nat)) == spec_fp_pow(b, (i + 1) as nat));
        }
        acc = fp_mul(b, acc);
        i = i + 1;
    }
    acc
}

} // verus!
