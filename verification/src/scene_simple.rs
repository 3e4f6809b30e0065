//! A simple scene: three shiny spheres over a checkered ground, three
//! lights, and a camera that orbits the origin once every fifteen seconds.

use vstd::prelude::*;
use crate::color::Color;
use crate::fixed::{abs_int, fp_mul, fp_neg, FP_ONE, spec_mul, spec_neg, tdiv};
use crate::scene::{Camera, Light, Scene, SceneOptions, spec_look_at, Sphere, Texture};
use crate::vec3::Vec3;

verus! {

/// One full camera orbit, in microseconds.
pub const CAMERA_CYCLE_MICROS: u64 = 15_000_000;

/// A full turn of phase: phases are measured in 1/65536ths of a turn.
pub const TURN: i64 = 65536;

/// A quarter-wave parabolic approximation of the sine of `p` turns over
/// 65536, for `p` in `[0, TURN)`: a parabola through the zeros of each half
/// wave, peaking at 1 and -1. Fixed-point result in `[-1, 1]`.
pub open spec fn spec_sin_turn(p: i64) -> i64 {
    if p < 32768 {
        ((p * (32768 - p)) / 4096) as i64
    } else {
        (-(((p - 32768) * (65536 - p)) / 4096)) as i64
    }
}

/// The cosine as the sine a quarter turn ahead.
pub open spec fn spec_cos_turn(p: i64) -> i64 {
    if p + 16384 < 65536 {
        spec_sin_turn((p + 16384) as i64)
    } else {
        spec_sin_turn((p + 16384 - 65536) as i64)
    }
}

/// Approximate sine of a phase in `[0, TURN)`.
pub fn sin_turn(p: i64) -> (r: i64)
    requires
        0 <= p < TURN,
    ensures
        r == spec_sin_turn(p),
        -FP_ONE <= r <= FP_ONE,
{
    if p < 32768 {
        proof {
            crate::fixed::lemma_mul_bound(p as int, 32768 - p, 32768, 32768);
            assert(p * (32768 - p) >= 0) by (nonlinear_arith)
                requires
                    0 <= p <= 32768,
            ;
            assert(p * (32768 - p) <= 16384 * 16384) by (nonlinear_arith)
                requires
                    0 <= p <= 32768,
            ;
            vstd::arithmetic::div_mod::lemma_div_is_ordered(
                p * (32768 - p),
                16384int * 16384,
                4096,
            );
            vstd::arithmetic::div_mod::lemma_div_pos_is_pos(p * (32768 - p), 4096);
        }
        (p * (32768 - p)) / 4096
    } else {
        let q = p - 32768;
        proof {
            crate::fixed::lemma_mul_bound(q as int, 32768 - q, 32768, 32768);
            assert(q * (32768 - q) >= 0) by (nonlinear_arith)
                requires
                    0 <= q <= 32768,
            ;
            assert(q * (32768 - q) <= 16384 * 16384) by (nonlinear_arith)
                requires
                    0 <= q <= 32768,
            ;
            vstd::arithmetic::div_mod::lemma_div_is_ordered(
                q * (32768 - q),
                16384int * 16384,
                4096,
            );
            vstd::arithmetic::div_mod::lemma_div_pos_is_pos(q * (32768 - q), 4096);
            assert(32768 - q == 65536 - p);
        }
        -((q * (32768 - q)) / 4096)
    }
}

/// Approximate cosine of a phase in `[0, TURN)`.
pub fn cos_turn(p: i64) -> (r: i64)
    requires
        0 <= p < TURN,
    ensures
        r == spec_cos_turn(p),
        -FP_ONE <= r <= FP_ONE,
{
    let p2 = p + 16384;
    if p2 < 65536 {
        sin_turn(p2)
    } else {
        sin_turn(p2 - 65536)
    }
}

/// The orbit phase of the camera in 1/65536ths of a turn: elapsed time is
/// scaled by a fixed-point speed, wrapped to one cycle (a negative speed
/// wraps to the equivalent forward phase of the same angle), and rescaled
/// to a turn.
pub open spec fn spec_orbit_phase(elapsed_micros: u64, speed: i64, cycle_micros: u64) -> i64 {
    let scaled = tdiv(elapsed_micros * speed, FP_ONE as int);
    let m = scaled % (cycle_micros as int);
    ((m * 65536) / (cycle_micros as int)) as i64
}

/// Compute the orbit phase; the result is in `[0, TURN)`.
pub fn orbit_phase(elapsed_micros: u64, speed: i64, cycle_micros: u64) -> (p: i64)
    requires
        cycle_micros > 0,
    ensures
        p == spec_orbit_phase(elapsed_micros, speed, cycle_micros),
        0 <= p < TURN,
{
    let neg: bool = speed < 0;
    let ms: u64 = if speed >= 0 {
        speed as u64
    } else {
        (-(speed as i128)) as u64
    };
    proof {
        crate::fixed::lemma_mul_bound(
            elapsed_micros as int,
            ms as int,
            0xffff_ffff_ffff_ffff,
            0x8000_0000_0000_0000,
        );
    }
    let mag: u128 = (elapsed_micros as u128) * (ms as u128);
    let smag: u128 = mag / (FP_ONE as u128);
    let m0: u128 = smag % (cycle_micros as u128);
    let ghost scaled: int = tdiv(elapsed_micros * speed, FP_ONE as int);
    let ghost c: int = cycle_micros as int;
    proof {
        assert(abs_int(elapsed_micros * speed) == elapsed_micros * (ms as int)) by (nonlinear_arith)
            requires
                ms as int == abs_int(speed as int),
                elapsed_micros >= 0,
        ;
        assert(smag as int == abs_int(scaled));
        vstd::arithmetic::div_mod::lemma_fundamental_div_mod(smag as int, c);
        vstd::arithmetic::div_mod::lemma_mod_division_less_than_divisor(smag as int, c);
        if !neg || smag == 0 {
            assert(scaled == smag as int);
        } else {
            assert(elapsed_micros * speed <= 0) by (nonlinear_arith)
                requires
                    speed < 0,
                    elapsed_micros >= 0,
            ;
            vstd::arithmetic::div_mod::lemma_fundamental_div_mod(mag as int, FP_ONE as int);
            assert(mag as int > 0);
            assert(elapsed_micros * speed < 0);
            assert(scaled == -(smag as int));
        }
    }
    let m: u128 = if neg && m0 != 0 {
        (cycle_micros as u128) - m0
    } else {
        m0
    };
    proof {
        let q0 = abs_int(scaled) / c;
        if scaled >= 0 {
            assert(scaled % c == m0 as int);
        } else if m0 == 0 {
            assert(scaled == (-q0) * c + 0) by (nonlinear_arith)
                requires
                    scaled == -(c * q0 + 0),
            ;
            vstd::arithmetic::div_mod::lemma_fundamental_div_mod_converse_mod(scaled, c, -q0, 0);
            assert(scaled % c == 0);
        } else {
            assert(scaled == (-q0 - 1) * c + (c - m0 as int)) by (nonlinear_arith)
                requires
                    scaled == -(c * q0 + m0 as int),
                    0 < (m0 as int) < c,
            ;
            vstd::arithmetic::div_mod::lemma_fundamental_div_mod_converse_mod(
                scaled,
                c,
                -q0 - 1,
                c - m0 as int,
            );
        }
        assert(m as int == scaled % c);
        assert(m as int * 65536 < c * 65536) by (nonlinear_arith)
            requires
                0 <= (m as int) < c,
        ;
        vstd::arithmetic::div_mod::lemma_multiply_divide_lt(m as int * 65536, c, 65536);
        vstd::arithmetic::div_mod::lemma_div_pos_is_pos(m as int * 65536, c);
    }
    let p128: u128 = (m * 65536) / (cycle_micros as u128);
    p128 as i64
}

/// The fixed sphere list: three shiny colored spheres and a huge checkered
/// ground sphere.
pub open spec fn spec_simple_spheres() -> Seq<Sphere> {
    seq![
        Sphere {
            pos: Vec3 { x: 0, y: -65536i64, z: -65536i64 },
            r: 65536,
            texture: Texture::Color(Color { r: 65536, g: 0, b: 0 }),
            specular: 500,
            reflective: 13107,
            skip_lighting: false,
        },
        Sphere {
            pos: Vec3 { x: 131072, y: 0, z: 0 },
            r: 65536,
            texture: Texture::Color(Color { r: 0, g: 0, b: 65536 }),
            specular: 500,
            reflective: 19661,
            skip_lighting: false,
        },
        Sphere {
            pos: Vec3 { x: -131072i64, y: 0, z: 0 },
            r: 65536,
            texture: Texture::Color(Color { r: 0, g: 65536, b: 0 }),
            specular: 10,
            reflective: 26214,
            skip_lighting: false,
        },
        Sphere {
            pos: Vec3 { x: 0, y: -327745536i64, z: 0 },
            r: 327680000,
            texture: Texture::CheckerXZ {
                color1: Color { r: 65536, g: 65536, b: 0 },
                color2: Color { r: 65536, g: 0, b: 65536 },
                scale: 65536,
            },
            specular: 1000,
            reflective: 32768,
            skip_lighting: false,
        },
    ]
}

/// The fixed light list: ambient, point and directional.
pub open spec fn spec_simple_lights() -> Seq<Light> {
    seq![
        Light::Ambient { intensity: 13107 },
        Light::Point { intensity: 39322, pos: Vec3 { x: 131072, y: 65536, z: -262144i64 } },
        Light::Directional { intensity: 13107, dir: Vec3 { x: 65536, y: 262144, z: 0 } },
    ]
}

/// The camera five units from the origin on a circle in the XZ plane,
/// aimed at the origin; the angle follows the orbit phase.
pub open spec fn spec_simple_camera(elapsed_micros: u64, speed_1: i64) -> Camera {
    let phase = spec_orbit_phase(elapsed_micros, speed_1, CAMERA_CYCLE_MICROS);
    let sv = spec_sin_turn(phase);
    let cv = spec_cos_turn(phase);
    let start = Camera {
        pos: Vec3 { x: spec_mul(327680, sv), y: 0, z: spec_neg(spec_mul(327680, cv)) },
        right: Vec3 { x: 65536, y: 0, z: 0 },
        up: Vec3 { x: 0, y: 65536, z: 0 },
        forward: Vec3 { x: 0, y: 0, z: 65536 },
    };
    spec_look_at(start, Vec3 { x: 0, y: 0, z: 0 })
}

/// Fill the scene for the given elapsed time: fixed spheres and lights, a
/// sky color, and the orbiting camera (`speed_1` scales the orbit).
pub fn populate_scene(scene: &mut Scene, elapsed_micros: u64, options: &SceneOptions)
    ensures
        final(scene).sky_color == (Color { r: 9830, g: 16384, b: 22938 }),
        final(scene).spheres@ == spec_simple_spheres(),
        final(scene).lights@ == spec_simple_lights(),
        final(scene).camera == spec_simple_camera(elapsed_micros, options.speed_1),
{
    scene.sky_color = Color { r: 9830, g: 16384, b: 22938 };

    let mut spheres: Vec<Sphere> = Vec::new();
    spheres.push(
        Sphere {
            pos: Vec3 { x: 0, y: -65536i64, z: -65536i64 },
            r: 65536,
            texture: Texture::Color(Color { r: 65536, g: 0, b: 0 }),
            specular: 500,
            reflective: 13107,
            skip_lighting: false,
        },
    );
    spheres.push(
        Sphere {
            pos: Vec3 { x: 131072, y: 0, z: 0 },
            r: 65536,
            texture: Texture::Color(Color { r: 0, g: 0, b: 65536 }),
            specular: 500,
            reflective: 19661,
            skip_lighting: false,
        },
    );
    spheres.push(
        Sphere {
            pos: Vec3 { x: -131072i64, y: 0, z: 0 },
            r: 65536,
            texture: Texture::Color(Color { r: 0, g: 65536, b: 0 }),
            specular: 10,
            reflective: 26214,
            skip_lighting: false,
        },
    );
    spheres.push(
        Sphere {
            pos: Vec3 { x: 0, y: -327745536i64, z: 0 },
            r: 327680000,
            texture: Texture::CheckerXZ {
                color1: Color { r: 65536, g: 65536, b: 0 },
                color2: Color { r: 65536, g: 0, b: 65536 },
                scale: 65536,
            },
            specular: 1000,
            reflective: 32768,
            skip_lighting: false,
        },
    );
    proof {
        assert(spheres@ =~= spec_simple_spheres());
    }
    scene.spheres = spheres;

    let mut lights: Vec<Light> = Vec::new();
    lights.push(Light::Ambient { intensity: 13107 });
    lights.push(Light::Point { intensity: 39322, pos: Vec3 { x: 131072, y: 65536, z: -262144i64 } });
    lights.push(Light::Directional { intensity: 13107, dir: Vec3 { x: 65536, y: 262144, z: 0 } });
    proof {
        assert(lights@ =~= spec_simple_lights());
    }
    scene.lights = lights;

    let phase = orbit_phase(elapsed_micros, options.speed_1, CAMERA_CYCLE_MICROS);
    let sv = sin_turn(phase);
    let cv = cos_turn(phase);
    scene.camera = Camera {
        pos: Vec3 { x: fp_mul(327680, sv), y: 0, z: fp_neg(fp_mul(327680, cv)) },
        right: Vec3 { x: 65536, y: 0, z: 0 },
        up: Vec3 { x: 0, y: 65536, z: 0 },
        forward: Vec3 { x: 0, y: 0, z: 65536 },
    };
    scene.camera.look_at(Vec3 { x: 0, y: 0, z: 0 });
}

} // verus!
