//! The scene data model: camera, spheres, textures and lights.

use vstd::prelude::*;
use crate::color::{col_mix, Color, spec_col_mix};
use crate::fixed::{
    abs_int, fp_sub, fp_tmod, FP_ONE, sat64, spec_add, spec_div, spec_sub, spec_tmod_total, tdiv,
    tmod,
};
use crate::vec3::{
    spec_v3_cross, spec_v3_normalized, spec_v3_sub, v3_cross, v3_normalized, v3_sub, Vec3,
};

verus! {

/// How a sphere is painted.
#[derive(Clone, Copy, PartialEq, Eq, Structural, Debug)]
pub enum Texture {
    /// A single solid color.
    Color(Color),
    /// A two-color checkerboard tiling of the XZ plane with tiles of the
    /// given side length.
    CheckerXZ { color1: Color, color2: Color, scale: i64 },
    /// A vertical gradient between two colors over the sphere's own
    /// vertical extent.
    GradientY { color1: Color, color2: Color },
}

/// A sphere, the only primitive.
///
/// `specular` is a plain integer exponent; a negative value suppresses the
/// specular highlight. `reflective` is fixed-point in `[0, 1]`.
/// `skip_lighting` renders the sphere at full brightness, ignoring lights.
#[derive(Clone, Copy, PartialEq, Eq, Structural, Debug)]
pub struct Sphere {
    pub pos: Vec3,
    pub r: i64,
    pub texture: Texture,
    pub specular: i64,
    pub reflective: i64,
    pub skip_lighting: bool,
}

/// A light source.
#[derive(Clone, Copy, PartialEq, Eq, Structural, Debug)]
pub enum Light {
    /// Non-directional base intensity, never shadowed.
    Ambient { intensity: i64 },
    /// A point light; its direction from a surface point matters, its
    /// distance does not attenuate.
    Point { intensity: i64, pos: Vec3 },
    /// A light at infinity with a fixed direction.
    Directional { intensity: i64, dir: Vec3 },
}

/// The camera: a position and a viewport basis.
#[derive(Clone, Copy, PartialEq, Eq, Structural, Debug)]
pub struct Camera {
    pub pos: Vec3,
    pub right: Vec3,
    pub up: Vec3,
    pub forward: Vec3,
}

/// The camera after aiming it at `target`: forward points from the position
/// to the target, and right and up are rebuilt from cross products so the
/// basis stays orthogonal up to fixed-point rounding.
pub open spec fn spec_look_at(c: Camera, target: Vec3) -> Camera {
    let forward = spec_v3_normalized(spec_v3_sub(target, c.pos));
    let right = spec_v3_normalized(spec_v3_cross(c.up, forward));
    let up = spec_v3_normalized(spec_v3_cross(forward, right));
    Camera { pos: c.pos, right, up, forward }
}

impl Camera {
    /// Aim the camera at `target`, rebuilding the viewport basis.
    pub fn look_at(&mut self, target: Vec3)
        ensures
            *final(self) == spec_look_at(*old(self), target),
    {
        self.forward = v3_normalized(v3_sub(target, self.pos));
        self.right = v3_normalized(v3_cross(self.up, self.forward));
        self.up = v3_normalized(v3_cross(self.forward, self.right));
    }
}

/// Everything needed to render one frame. Rebuilt from scratch for every
/// frame and never shared between frames.
#[derive(Clone, Debug)]
pub struct Scene {
    pub camera: Camera,
    pub spheres: Vec<Sphere>,
    pub lights: Vec<Light>,
    pub sky_color: Color,
}

/// Scene-defined animation knobs handed through to the scene generator.
#[derive(Clone, Copy, PartialEq, Eq, Structural, Debug)]
pub struct SceneOptions {
    pub speed_0: i64,
    pub speed_1: i64,
    pub option_0: bool,
    pub option_1: bool,
}

/// Half a tile side, truncated toward zero.
pub open spec fn spec_half(scale: i64) -> i64 {
    tdiv(scale as int, 2) as i64
}

/// One axis of the checkerboard parity test, on a coordinate already
/// shifted by half a tile: true when the coordinate's remainder modulo a
/// double tile lands in the far tile, flipped on the negative side so the
/// tiling continues across the origin.
pub open spec fn spec_axis_toggle(c: i64, scale: i64) -> bool {
    let scale2 = spec_add(scale, scale);
    (crate::fixed::spec_abs64(spec_tmod_total(c, scale2)) >= scale) != (c < 0)
}

/// The checkerboard color at ground coordinates `(x, z)`.
pub open spec fn spec_checker_color(color1: Color, color2: Color, scale: i64, x: i64, z: i64) -> Color {
    let half = spec_half(scale);
    let cx = spec_sub(x, half);
    let cz = spec_sub(z, half);
    if spec_axis_toggle(cx, scale) != spec_axis_toggle(cz, scale) {
        color2
    } else {
        color1
    }
}

/// The texture color of a sphere at a hit position on its surface.
pub open spec fn spec_eval_texture(s: Sphere, hit: Vec3) -> Color {
    match s.texture {
        Texture::Color(c) => c,
        Texture::CheckerXZ { color1, color2, scale } => spec_checker_color(
            color1,
            color2,
            scale,
            hit.x,
            hit.z,
        ),
        Texture::GradientY { color1, color2 } => {
            let y0 = spec_div(spec_sub(hit.y, s.pos.y), s.r);
            let y = if y0 > FP_ONE {
                FP_ONE
            } else if y0 < -FP_ONE {
                (-FP_ONE) as i64
            } else {
                y0
            };
            let ny = spec_sub(FP_ONE, y);
            spec_col_mix(color1, y, color2, ny)
        },
    }
}

fn axis_toggle(c: i64, scale: i64) -> (r: bool)
    ensures
        r == spec_axis_toggle(c, scale),
{
    let scale2 = crate::fixed::fp_add(scale, scale);
    let m = fp_tmod(c, scale2);
    let a = crate::fixed::fp_abs(m);
    (a >= scale) != (c < 0)
}

/// The texture color of a sphere at a hit position on its surface.
pub fn eval_texture(s: &Sphere, hit: Vec3) -> (c: Color)
    ensures
        c == spec_eval_texture(*s, hit),
{
    match s.texture {
        Texture::Color(c) => c,
        Texture::CheckerXZ { color1, color2, scale } => {
            let half = scale / 2;
            let cx = fp_sub(hit.x, half);
            let cz = fp_sub(hit.z, half);
            if axis_toggle(cx, scale) != axis_toggle(cz, scale) {
                color2
            } else {
                color1
            }
        },
        Texture::GradientY { color1, color2 } => {
            let y0 = crate::fixed::fp_div(fp_sub(hit.y, s.pos.y), s.r);
            let y = if y0 > FP_ONE {
                FP_ONE
            } else if y0 < -FP_ONE {
                -FP_ONE
            } else {
                y0
            };
            let ny = fp_sub(FP_ONE, y);
            col_mix(color1, y, color2, ny)
        },
    }
}

/// The checkerboard shows only its two colors.
pub proof fn lemma_checker_two_colors(color1: Color, color2: Color, scale: i64, x: i64, z: i64)
    ensures
        spec_checker_color(color1, color2, scale, x, z) == color1 || spec_checker_color(
            color1,
            color2,
            scale,
            x,
            z,
        ) == color2,
{
}

/// One axis of the parity test is periodic with period `2 * scale`, away
/// from the tile seams: shifting the coordinate by a double tile does not
/// change it, provided the shifted coordinate is not a multiple of the tile
/// side (on those seam lines the truncated remainder breaks ties
/// differently on the two sides of the origin).
proof fn lemma_axis_toggle_periodic(c: i64, scale: i64)
    requires
        0 < scale,
        2 * scale <= i64::MAX,
        c + 2 * scale <= i64::MAX,
        tmod(c as int, scale as int) != 0,
    ensures
        spec_axis_toggle(spec_add(c, spec_add(scale, scale)), scale) == spec_axis_toggle(c, scale),
{
    let s = scale as int;
    let p = 2 * s;
    let cc = c as int;
    assert(spec_add(scale, scale) == p);
    let c2 = spec_add(c, spec_add(scale, scale));
    assert(c2 == cc + p);
    if cc >= 0 {
        vstd::arithmetic::div_mod::lemma_mod_add_multiples_vanish(cc, p);
        assert((p + cc) % p == cc % p);
        assert(spec_tmod_total(c, p as i64) == cc % p);
        assert(spec_tmod_total(c2, p as i64) == (cc + p) % p);
    } else if cc + p < 0 {
        vstd::arithmetic::div_mod::lemma_mod_add_multiples_vanish(-(cc + p), p);
        assert((p + -(cc + p)) % p == (-(cc + p)) % p);
        assert((-cc) % p == (-(cc + p)) % p);
        assert(spec_tmod_total(c, p as i64) == -((-cc) % p));
        assert(spec_tmod_total(c2, p as i64) == -((-(cc + p)) % p));
    } else {
        // cc is in [-p, 0) and cc + p in [0, p).
        assert(cc != -p) by {
            if cc == -p {
                vstd::arithmetic::div_mod::lemma_mod_multiples_basic(2, s);
                assert((2 * s) % s == 0);
                assert(tmod(cc, s) == 0);
            }
        }
        assert(cc != -s) by {
            if cc == -s {
                vstd::arithmetic::div_mod::lemma_mod_multiples_basic(1, s);
                assert((1 * s) % s == 0);
                assert(tmod(cc, s) == 0);
            }
        }
        assert(0 < -cc < p);
        vstd::arithmetic::div_mod::lemma_small_mod((-cc) as nat, p as nat);
        assert((-cc) % p == -cc);
        assert(spec_tmod_total(c, p as i64) == cc);
        vstd::arithmetic::div_mod::lemma_small_mod((cc + p) as nat, p as nat);
        assert(spec_tmod_total(c2, p as i64) == cc + p);
        // Left side: toggle is !(-cc >= s), i.e. cc > -s; right side: cc + p >= s,
        // i.e. cc >= -s; they agree because cc == -s is excluded.
        assert(spec_axis_toggle(c, scale) == (cc > -s));
        assert(spec_axis_toggle(c2, scale) == (cc >= -s));
    }
}

/// The checkerboard texture is periodic with period `2 * scale` along the
/// x axis, away from the tile seams (coordinates whose shifted value is a
/// multiple of the tile side).
pub proof fn lemma_checker_periodic_x(
    color1: Color,
    color2: Color,
    scale: i64,
    x: i64,
    z: i64,
)
    requires
        0 < scale,
        2 * scale <= i64::MAX,
        i64::MIN <= x - spec_half(scale),
        x + 2 * scale <= i64::MAX,
        tmod(x - spec_half(scale), scale as int) != 0,
    ensures
        spec_checker_color(color1, color2, scale, sat64(x + 2 * scale), z) == spec_checker_color(
            color1,
            color2,
            scale,
            x,
            z,
        ),
{
    let half = spec_half(scale);
    let cx = spec_sub(x, half);
    assert(cx == x - half);
    lemma_axis_toggle_periodic(cx, scale);
    assert(spec_sub(sat64(x + 2 * scale), half) == spec_add(cx, spec_add(scale, scale)));
}

/// The checkerboard texture is periodic with period `2 * scale` along the
/// z axis, away from the tile seams.
pub proof fn lemma_checker_periodic_z(
    color1: Color,
    color2: Color,
    scale: i64,
    x: i64,
    z: i64,
)
    requires
        0 < scale,
        2 * scale <= i64::MAX,
        i64::MIN <= z - spec_half(scale),
        z + 2 * scale <= i64::MAX,
        tmod(z - spec_half(scale), scale as int) != 0,
    ensures
        spec_checker_color(color1, color2, scale, x, sat64(z + 2 * scale)) == spec_checker_color(
            color1,
            color2,
            scale,
            x,
            z,
        ),
{
    let half = spec_half(scale);
    let cz = spec_sub(z, half);
    lemma_axis_toggle_periodic(cz, scale);
    assert(spec_sub(sat64(z + 2 * scale), half) == spec_add(cz, spec_add(scale, scale)));
}

} // verus!
