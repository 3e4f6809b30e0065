//! Colors with fixed-point channels and quantization to packed 24-bit RGB.

use vstd::prelude::*;
use crate::fixed::{fp_add, fp_mul, FP_ONE, spec_add, spec_mul};

verus! {

/// An RGB color; each channel is fixed-point, nominally in `[0, FP_ONE]`.
#[derive(Clone, Copy, PartialEq, Eq, Structural, Debug)]
pub struct Color {
    pub r: i64,
    pub g: i64,
    pub b: i64,
}

/// Quantize one channel to a byte: clamp to `[0, FP_ONE]`, scale by 255,
/// truncate.
pub open spec fn spec_quant_channel(v: i64) -> u32 {
    if v > FP_ONE {
        255
    } else if v < 0 {
        0
    } else {
        ((v * 255) / (FP_ONE as int)) as u32
    }
}

/// A color packed as `0x00RRGGBB`, red in the highest used byte.
pub open spec fn spec_color_to_u32(c: Color) -> u32 {
    (spec_quant_channel(c.r) << 16) | (spec_quant_channel(c.g) << 8) | spec_quant_channel(c.b)
}

/// Scale both colors and add them: `a * sa + b * sb`, componentwise and
/// saturating.
pub open spec fn spec_col_mix(a: Color, sa: i64, b: Color, sb: i64) -> Color {
    Color {
        r: spec_add(spec_mul(a.r, sa), spec_mul(b.r, sb)),
        g: spec_add(spec_mul(a.g, sa), spec_mul(b.g, sb)),
        b: spec_add(spec_mul(a.b, sa), spec_mul(b.b, sb)),
    }
}

/// Scale a color by a fixed-point intensity, componentwise and saturating.
pub open spec fn spec_col_scale(c: Color, s: i64) -> Color {
    Color { r: spec_mul(c.r, s), g: spec_mul(c.g, s), b: spec_mul(c.b, s) }
}

/// Quantize one channel to a byte. Inputs above 1.0 clamp to 255 and
/// negative inputs clamp to 0; inputs in `[0, 1]` scale to `[0, 255]`
/// exactly, truncating.
pub fn quant_channel(v: i64) -> (r: u32)
    ensures
        r == spec_quant_channel(v),
        r <= 255,
        v > FP_ONE ==> r == 255,
        v < 0 ==> r == 0,
{
    if v > FP_ONE {
        255
    } else if v < 0 {
        0
    } else {
        proof {
            vstd::arithmetic::div_mod::lemma_div_is_ordered(v * 255, FP_ONE * 255, FP_ONE as int);
            vstd::arithmetic::div_mod::lemma_div_pos_is_pos(v * 255, FP_ONE as int);
        }
        ((v * 255) / FP_ONE) as u32
    }
}

/// Pack a color into `0x00RRGGBB` with each channel quantized by
/// [`quant_channel`].
pub fn color_to_u32(c: Color) -> (r: u32)
    ensures
        r == spec_color_to_u32(c),
{
    let cr = quant_channel(c.r);
    let cg = quant_channel(c.g);
    let cb = quant_channel(c.b);
    (cr << 16) | (cg << 8) | cb
}

/// Unpack a `0x00RRGGBB` pixel into its red, green and blue bytes.
pub fn pixel_bytes(p: u32) -> (r: (u8, u8, u8))
    ensures
        r.0 == ((p >> 16) & 0xff) as u8,
        r.1 == ((p >> 8) & 0xff) as u8,
        r.2 == (p & 0xff) as u8,
{
    proof {
        assert((p >> 16) & 0xff < 256 && (p >> 8) & 0xff < 256 && p & 0xff < 256) by (bit_vector);
    }
    (((p >> 16) & 0xff) as u8, ((p >> 8) & 0xff) as u8, (p & 0xff) as u8)
}

/// Mix two scaled colors.
pub fn col_mix(a: Color, sa: i64, b: Color, sb: i64) -> (r: Color)
    ensures
        r == spec_col_mix(a, sa, b, sb),
{
    Color {
        r: fp_add(fp_mul(a.r, sa), fp_mul(b.r, sb)),
        g: fp_add(fp_mul(a.g, sa), fp_mul(b.g, sb)),
        b: fp_add(fp_mul(a.b, sa), fp_mul(b.b, sb)),
    }
}

/// Scale a color by an intensity.
pub fn col_scale(c: Color, s: i64) -> (r: Color)
    ensures
        r == spec_col_scale(c, s),
{
    Color { r: fp_mul(c.r, s), g: fp_mul(c.g, s), b: fp_mul(c.b, s) }
}

} // verus!
