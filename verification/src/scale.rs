//! Nearest-neighbor scaling of a square rendered frame into a window-sized
//! buffer, preserving the aspect ratio and filling the borders.

use vstd::prelude::*;

verus! {

/// The pixel a window position `(tx, ty)` shows when a `rw` by `rh` frame
/// `src` is scaled into a `tw` by `th` window: inside the centered square
/// image, the nearest source pixel; outside it, the fill color. A window
/// wider than tall pads left and right; a taller window pads top and
/// bottom.
pub open spec fn spec_scaled_pixel(
    src: Seq<u32>,
    rw: int,
    rh: int,
    tw: int,
    th: int,
    fill: u32,
    tx: int,
    ty: int,
) -> u32 {
    if rw * th <= rh * tw {
        let pad = (tw - th) / 2;
        if pad <= tx < pad + th {
            src[(ty * rh / th) * rw + (tx - pad) * rw / th]
        } else {
            fill
        }
    } else {
        let pad = (th - tw) / 2;
        if pad <= ty < pad + tw {
            src[((ty - pad) * rh / tw) * rw + tx * rw / tw]
        } else {
            fill
        }
    }
}

/// The scaled pixel index is inside the source frame.
proof fn lemma_source_index_in_range(rw: int, rh: int, side: int, u: int, v: int)
    requires
        1 <= rw,
        1 <= rh,
        1 <= side,
        0 <= u < side,
        0 <= v < side,
    ensures
        0 <= (v * rh / side) * rw + u * rw / side < rh * rw,
        0 <= v * rh / side < rh,
        0 <= u * rw / side < rw,
{
    assert(v * rh < side * rh) by (nonlinear_arith)
        requires
            0 <= v < side,
            1 <= rh,
    ;
    assert(u * rw < side * rw) by (nonlinear_arith)
        requires
            0 <= u < side,
            1 <= rw,
    ;
    assert(v * rh >= 0) by (nonlinear_arith)
        requires
            0 <= v,
            1 <= rh,
    ;
    assert(u * rw >= 0) by (nonlinear_arith)
        requires
            0 <= u,
            1 <= rw,
    ;
    vstd::arithmetic::div_mod::lemma_multiply_divide_lt(v * rh, side, rh);
    vstd::arithmetic::div_mod::lemma_multiply_divide_lt(u * rw, side, rw);
    vstd::arithmetic::div_mod::lemma_div_pos_is_pos(v * rh, side);
    vstd::arithmetic::div_mod::lemma_div_pos_is_pos(u * rw, side);
    let sy = v * rh / side;
    let sx = u * rw / side;
    assert(sy * rw + sx < rh * rw) by (nonlinear_arith)
        requires
            0 <= sy <= rh - 1,
            0 <= sx < rw,
            1 <= rw,
    ;
    assert(sy * rw + sx >= 0) by (nonlinear_arith)
        requires
            0 <= sy,
            0 <= sx,
            1 <= rw,
    ;
}

/// Scale a square rendered frame into a `target_w` by `target_h` buffer,
/// nearest neighbor, aspect preserved, borders filled with `fill`.
pub fn scale_buffer(
    source: &Vec<u32>,
    render_w: usize,
    render_h: usize,
    target_w: usize,
    target_h: usize,
    fill: u32,
) -> (out: Vec<u32>)
    requires
        render_w == render_h,
        1 <= render_w <= 16384,
        source@.len() == render_w * render_h,
        1 <= target_w <= 16384,
        1 <= target_h <= 16384,
    ensures
        out@.len() == target_w * target_h,
        forall|i: int|
            0 <= i < out@.len() ==> #[trigger] out@[i] == spec_scaled_pixel(
                source@,
                render_w as int,
                render_h as int,
                target_w as int,
                target_h as int,
                fill,
                i % (target_w as int),
                i / (target_w as int),
            ),
{
    proof {
        crate::fixed::lemma_mul_bound(target_w as int, target_h as int, 16384, 16384);
        crate::fixed::lemma_mul_bound(render_w as int, target_h as int, 16384, 16384);
        crate::fixed::lemma_mul_bound(render_h as int, target_w as int, 16384, 16384);
    }
    let wider: bool = render_w * target_h <= render_h * target_w;
    let mut out: Vec<u32> = Vec::new();
    let mut ty: usize = 0;
    while ty < target_h
        invariant
            ty <= target_h,
            out@.len() == ty * target_w,
            render_w == render_h,
            1 <= render_w <= 16384,
            source@.len() == render_w * render_h,
            1 <= target_w <= 16384,
            1 <= target_h <= 16384,
            wider == (render_w * target_h <= render_h * target_w),
            forall|i: int|
                0 <= i < out@.len() ==> #[trigger] out@[i] == spec_scaled_pixel(
                    source@,
                    render_w as int,
                    render_h as int,
                    target_w as int,
                    target_h as int,
                    fill,
                    i % (target_w as int),
                    i / (target_w as int),
                ),
        decreases target_h - ty,
    {
        let mut tx: usize = 0;
        while tx < target_w
            invariant
                ty < target_h,
                tx <= target_w,
                out@.len() == ty * target_w + tx,
                render_w == render_h,
                1 <= render_w <= 16384,
                source@.len() == render_w * render_h,
                1 <= target_w <= 16384,
                1 <= target_h <= 16384,
                wider == (render_w * target_h <= render_h * target_w),
                forall|i: int|
                    0 <= i < out@.len() ==> #[trigger] out@[i] == spec_scaled_pixel(
                        source@,
                        render_w as int,
                        render_h as int,
                        target_w as int,
                        target_h as int,
                        fill,
                        i % (target_w as int),
                        i / (target_w as int),
                    ),
            decreases target_w - tx,
        {
            let px: u32;
            if wider {
                // With a square source the branch condition means the
                // window is at least as wide as tall.
                proof {
                    assert(target_h <= target_w) by (nonlinear_arith)
                        requires
                            render_w * target_h <= render_h * target_w,
                            render_w == render_h,
                            1 <= render_w,
                            1 <= target_h,
                            1 <= target_w,
                    ;
                }
                let pad = (target_w - target_h) / 2;
                if pad <= tx && tx < pad + target_h {
                    proof {
                        lemma_source_index_in_range(
                            render_w as int,
                            render_h as int,
                            target_h as int,
                            (tx - pad) as int,
                            ty as int,
                        );
                        crate::fixed::lemma_mul_bound(ty as int, render_h as int, 16384, 16384);
                        crate::fixed::lemma_mul_bound(
                            (tx - pad) as int,
                            render_w as int,
                            16384,
                            16384,
                        );
                        crate::fixed::lemma_mul_bound(
                            ty * render_h / (target_h as int),
                            render_w as int,
                            16384,
                            16384,
                        );
                    }
                    let sy = (ty * render_h) / target_h;
                    let sx = ((tx - pad) * render_w) / target_h;
                    px = source[sy * render_w + sx];
                } else {
                    px = fill;
                }
            } else {
                proof {
                    assert(target_w < target_h) by (nonlinear_arith)
                        requires
                            render_w * target_h > render_h * target_w,
                            render_w == render_h,
                            1 <= render_w,
                            1 <= target_h,
                            1 <= target_w,
                    ;
                }
                let pad = (target_h - target_w) / 2;
                if pad <= ty && ty < pad + target_w {
                    proof {
                        lemma_source_index_in_range(
                            render_w as int,
                            render_h as int,
                            target_w as int,
                            tx as int,
                            (ty - pad) as int,
                        );
                        crate::fixed::lemma_mul_bound(
                            (ty - pad) as int,
                            render_h as int,
                            16384,
                            16384,
                        );
                        crate::fixed::lemma_mul_bound(tx as int, render_w as int, 16384, 16384);
                        crate::fixed::lemma_mul_bound(
                            (ty - pad) * render_h / (target_w as int),
                            render_w as int,
                            16384,
                            16384,
                        );
                    }
                    let sy = ((ty - pad) * render_h) / target_w;
                    let sx = (tx * render_w) / target_w;
                    px = source[sy * render_w + sx];
                } else {
                    px = fill;
                }
            }
            out.push(px);
            proof {
                vstd::arithmetic::div_mod::lemma_fundamental_div_mod_converse_mod(
                    ty * target_w + tx,
                    target_w as int,
                    ty as int,
                    tx as int,
                );
                vstd::arithmetic::div_mod::lemma_fundamental_div_mod_converse_div(
                    ty * target_w + tx,
                    target_w as int,
                    ty as int,
                    tx as int,
                );
            }
            tx = tx + 1;
        }
        ty = ty + 1;
        proof {
            assert((ty - 1) * target_w + target_w == ty * target_w) by (nonlinear_arith);
        }
    }
    proof {
        assert(target_h * target_w == target_w * target_h) by (nonlinear_arith);
    }
    out
}

} // verus!
