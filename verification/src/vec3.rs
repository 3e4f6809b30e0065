//! 3-D vectors over the fixed-point scalars of [`crate::fixed`].

use vstd::prelude::*;
use crate::fixed::{
    abs_int, fp_add, fp_div, fp_mul, fp_neg, fp_sqrt, fp_sub, FP_ONE, spec_add, spec_div,
    spec_fp_sqrt, spec_mul, spec_neg, spec_sub,
};

verus! {

/// A point or direction in space; each component is fixed-point.
#[derive(Clone, Copy, PartialEq, Eq, Structural, Debug)]
pub struct Vec3 {
    pub x: i64,
    pub y: i64,
    pub z: i64,
}

/// Componentwise saturating sum.
pub open spec fn spec_v3_add(a: Vec3, b: Vec3) -> Vec3 {
    Vec3 { x: spec_add(a.x, b.x), y: spec_add(a.y, b.y), z: spec_add(a.z, b.z) }
}

/// Componentwise saturating difference.
pub open spec fn spec_v3_sub(a: Vec3, b: Vec3) -> Vec3 {
    Vec3 { x: spec_sub(a.x, b.x), y: spec_sub(a.y, b.y), z: spec_sub(a.z, b.z) }
}

/// Componentwise saturating scaling by a fixed-point factor.
pub open spec fn spec_v3_scale(v: Vec3, s: i64) -> Vec3 {
    Vec3 { x: spec_mul(v.x, s), y: spec_mul(v.y, s), z: spec_mul(v.z, s) }
}

/// Componentwise saturating negation.
pub open spec fn spec_v3_neg(v: Vec3) -> Vec3 {
    Vec3 { x: spec_neg(v.x), y: spec_neg(v.y), z: spec_neg(v.z) }
}

/// Saturating fixed-point dot product, summed left to right.
pub open spec fn spec_v3_dot(a: Vec3, b: Vec3) -> i64 {
    spec_add(spec_add(spec_mul(a.x, b.x), spec_mul(a.y, b.y)), spec_mul(a.z, b.z))
}

/// Saturating fixed-point cross product.
pub open spec fn spec_v3_cross(a: Vec3, b: Vec3) -> Vec3 {
    Vec3 {
        x: spec_sub(spec_mul(a.y, b.z), spec_mul(a.z, b.y)),
        y: spec_sub(spec_mul(a.z, b.x), spec_mul(a.x, b.z)),
        z: spec_sub(spec_mul(a.x, b.y), spec_mul(a.y, b.x)),
    }
}

/// Euclidean length in fixed point: the square root of the self dot product.
pub open spec fn spec_v3_len(v: Vec3) -> i64 {
    spec_fp_sqrt(spec_v3_dot(v, v))
}

/// The vector scaled to (approximately) unit length by dividing each
/// component by the length. The zero vector has length zero, and the
/// division by zero saturates componentwise by sign.
pub open spec fn spec_v3_normalized(v: Vec3) -> Vec3 {
    let l = spec_v3_len(v);
    Vec3 { x: spec_div(v.x, l), y: spec_div(v.y, l), z: spec_div(v.z, l) }
}

/// Componentwise saturating sum.
pub fn v3_add(a: Vec3, b: Vec3) -> (r: Vec3)
    ensures
        r == spec_v3_add(a, b),
{
    Vec3 { x: fp_add(a.x, b.x), y: fp_add(a.y, b.y), z: fp_add(a.z, b.z) }
}

/// Componentwise saturating difference.
pub fn v3_sub(a: Vec3, b: Vec3) -> (r: Vec3)
    ensures
        r == spec_v3_sub(a, b),
{
    Vec3 { x: fp_sub(a.x, b.x), y: fp_sub(a.y, b.y), z: fp_sub(a.z, b.z) }
}

/// Componentwise saturating scaling.
pub fn v3_scale(v: Vec3, s: i64) -> (r: Vec3)
    ensures
        r == spec_v3_scale(v, s),
{
    Vec3 { x: fp_mul(v.x, s), y: fp_mul(v.y, s), z: fp_mul(v.z, s) }
}

/// Componentwise saturating negation.
pub fn v3_neg(v: Vec3) -> (r: Vec3)
    ensures
        r == spec_v3_neg(v),
{
    Vec3 { x: fp_neg(v.x), y: fp_neg(v.y), z: fp_neg(v.z) }
}

/// Saturating fixed-point dot product.
pub fn v3_dot(a: Vec3, b: Vec3) -> (r: i64)
    ensures
        r == spec_v3_dot(a, b),
{
    fp_add(fp_add(fp_mul(a.x, b.x), fp_mul(a.y, b.y)), fp_mul(a.z, b.z))
}

/// Saturating fixed-point cross product.
pub fn v3_cross(a: Vec3, b: Vec3) -> (r: Vec3)
    ensures
        r == spec_v3_cross(a, b),
{
    Vec3 {
        x: fp_sub(fp_mul(a.y, b.z), fp_mul(a.z, b.y)),
        y: fp_sub(fp_mul(a.z, b.x), fp_mul(a.x, b.z)),
        z: fp_sub(fp_mul(a.x, b.y), fp_mul(a.y, b.x)),
    }
}

/// Euclidean length in fixed point.
pub fn v3_len(v: Vec3) -> (r: i64)
    ensures
        r == spec_v3_len(v),
        r >= 0,
{
    fp_sqrt(v3_dot(v, v))
}

/// Scale a vector to (approximately) unit length.
pub fn v3_normalized(v: Vec3) -> (r: Vec3)
    ensures
        r == spec_v3_normalized(v),
{
    let l = v3_len(v);
    Vec3 { x: fp_div(v.x, l), y: fp_div(v.y, l), z: fp_div(v.z, l) }
}

/// The exact (unscaled, unrounded) cross product of the raw coordinates,
/// as a triple of unbounded integers.
pub open spec fn cross_exact(a: Vec3, b: Vec3) -> (int, int, int) {
    (a.y * b.z - a.z * b.y, a.z * b.x - a.x * b.z, a.x * b.y - a.y * b.x)
}

/// The exact dot product of an unbounded triple with a vector's raw
/// coordinates.
pub open spec fn dot_exact(u: (int, int, int), v: Vec3) -> int {
    u.0 * v.x + u.1 * v.y + u.2 * v.z
}

/// One component of a normalized vector stays within a whisker of a unit:
/// with the squared component accounted for in the squared length and the
/// length at least half a unit, dividing by the length cannot yield more
/// than `1 + 2/65536`.
proof fn lemma_norm_component(c: i64, d: i64, l: i64)
    requires
        -0x40_0000_0000 <= c <= 0x40_0000_0000,
        spec_mul(c, c) <= d,
        crate::fixed::is_isqrt(d * 65536, l as int),
        l >= 32768,
    ensures
        -(FP_ONE + 2) <= spec_div(c, l) <= FP_ONE + 2,
{
    let cc = c as int;
    let mx = spec_mul(c, c) as int;
    assert(0 <= cc * cc <= 0x1000_0000_0000_0000_0000) by (nonlinear_arith)
        requires
            -0x40_0000_0000 <= cc <= 0x40_0000_0000,
    ;
    vstd::arithmetic::div_mod::lemma_div_pos_is_pos(cc * cc, 65536);
    vstd::arithmetic::div_mod::lemma_div_is_ordered(cc * cc, 0x1000_0000_0000_0000_0000, 65536);
    assert(mx == (cc * cc) / 65536);
    vstd::arithmetic::div_mod::lemma_fundamental_div_mod(cc * cc, 65536);
    assert(cc * cc <= mx * 65536 + 65535);
    // The squared component cannot pass the squared length by more than
    // the truncation slack, so |c| <= l + 1.
    assert(cc * cc < (l + 1) * (l + 1) + 65536);
    assert(-(l as int) - 1 <= cc <= l + 1) by (nonlinear_arith)
        requires
            cc * cc < (l + 1) * (l + 1) + 65536,
            l >= 32768,
    ;
    // |c| * 65536 <= (l + 1) * 65536 <= l * (65536 + 2), so the quotient
    // is at most 65536 + 2.
    assert(abs_int(cc) * 65536 <= (l as int) * (65536 + 2)) by (nonlinear_arith)
        requires
            abs_int(cc) <= l + 1,
            l >= 32768,
    ;
    vstd::arithmetic::div_mod::lemma_multiply_divide_le(
        abs_int(cc) * 65536,
        l as int,
        65538int,
    );
    vstd::arithmetic::div_mod::lemma_div_pos_is_pos(abs_int(cc) * 65536, l as int);
    assert(abs_int(cc * FP_ONE) == abs_int(cc) * 65536) by (nonlinear_arith);
}

/// Normalization keeps every component within a whisker of one unit: for
/// a vector at least half a unit long whose coordinates are small enough
/// that no intermediate result saturates, each component of the
/// normalized vector lies in `[-(1 + 2/65536), 1 + 2/65536]` — the camera
/// basis vectors that `look_at` rebuilds cannot stray from unit scale.
pub proof fn lemma_normalized_in_unit_box(v: Vec3)
    requires
        -0x40_0000_0000 <= v.x <= 0x40_0000_0000,
        -0x40_0000_0000 <= v.y <= 0x40_0000_0000,
        -0x40_0000_0000 <= v.z <= 0x40_0000_0000,
        spec_v3_len(v) >= 32768,
    ensures
        -(FP_ONE + 2) <= spec_v3_normalized(v).x <= FP_ONE + 2,
        -(FP_ONE + 2) <= spec_v3_normalized(v).y <= FP_ONE + 2,
        -(FP_ONE + 2) <= spec_v3_normalized(v).z <= FP_ONE + 2,
{
    let d = spec_v3_dot(v, v);
    let l = spec_v3_len(v);
    assert(0 <= v.x * v.x <= 0x1000_0000_0000_0000_0000) by (nonlinear_arith)
        requires
            -0x40_0000_0000 <= v.x <= 0x40_0000_0000,
    ;
    assert(0 <= v.y * v.y <= 0x1000_0000_0000_0000_0000) by (nonlinear_arith)
        requires
            -0x40_0000_0000 <= v.y <= 0x40_0000_0000,
    ;
    assert(0 <= v.z * v.z <= 0x1000_0000_0000_0000_0000) by (nonlinear_arith)
        requires
            -0x40_0000_0000 <= v.z <= 0x40_0000_0000,
    ;
    vstd::arithmetic::div_mod::lemma_div_pos_is_pos(v.x * v.x, 65536);
    vstd::arithmetic::div_mod::lemma_div_pos_is_pos(v.y * v.y, 65536);
    vstd::arithmetic::div_mod::lemma_div_pos_is_pos(v.z * v.z, 65536);
    vstd::arithmetic::div_mod::lemma_div_is_ordered(
        v.x * v.x,
        0x1000_0000_0000_0000_0000,
        65536,
    );
    vstd::arithmetic::div_mod::lemma_div_is_ordered(
        v.y * v.y,
        0x1000_0000_0000_0000_0000,
        65536,
    );
    vstd::arithmetic::div_mod::lemma_div_is_ordered(
        v.z * v.z,
        0x1000_0000_0000_0000_0000,
        65536,
    );
    // No saturation anywhere in the self dot product.
    assert(d == spec_mul(v.x, v.x) + spec_mul(v.y, v.y) + spec_mul(v.z, v.z));
    assert(d > 0);
    crate::fixed::lemma_isqrt_exists(d * 65536);
    let r = crate::fixed::spec_isqrt(d * 65536);
    assert(r < 0x80_0000_0000) by (nonlinear_arith)
        requires
            r * r <= d * 65536,
            0 <= r,
            d * 65536 < 0x4000_0000_0000_0000_0000,
    ;
    assert(crate::fixed::is_isqrt(d * 65536, l as int));
    lemma_norm_component(v.x, d, l);
    lemma_norm_component(v.y, d, l);
    lemma_norm_component(v.z, d, l);
}

/// In exact arithmetic the cross product is orthogonal to both of its
/// factors. The camera basis is rebuilt from cross products, so its
/// orthogonality holds up to the fixed-point rounding of each component.
pub proof fn lemma_cross_orthogonal(a: Vec3, b: Vec3)
    ensures
        dot_exact(cross_exact(a, b), a) == 0,
        dot_exact(cross_exact(a, b), b) == 0,
{
    let x = a.x as int;
    let y = a.y as int;
    let z = a.z as int;
    let p = b.x as int;
    let q = b.y as int;
    let r = b.z as int;
    assert((y * r - z * q) * x + (z * p - x * r) * y + (x * q - y * p) * z == 0)
        by (nonlinear_arith);
    assert((y * r - z * q) * p + (z * p - x * r) * q + (x * q - y * p) * r == 0)
        by (nonlinear_arith);
}

} // verus!
