//! Vectors, the camera basis, textures and color quantization.

use juggler::color::{color_to_u32, pixel_bytes, quant_channel, Color};
use juggler::fixed::FP_ONE;
use juggler::scene::{Camera, eval_texture, Sphere, Texture};
use juggler::vec3::{v3_cross, v3_dot, v3_len, v3_normalized, v3_sub, Vec3};

fn v(x: i64, y: i64, z: i64) -> Vec3 {
    Vec3 { x, y, z }
}

#[test]
fn dot_and_cross_of_axes() {
    let ex = v(FP_ONE, 0, 0);
    let ey = v(0, FP_ONE, 0);
    let ez = v(0, 0, FP_ONE);
    assert_eq!(v3_dot(ex, ey), 0);
    assert_eq!(v3_dot(ex, ex), FP_ONE);
    assert_eq!(v3_cross(ex, ey), ez);
    assert_eq!(v3_cross(ey, ez), ex);
}

#[test]
fn length_and_normalize() {
    let a = v(3 * FP_ONE, 4 * FP_ONE, 0);
    assert_eq!(v3_len(a), 5 * FP_ONE);
    let n = v3_normalized(a);
    // 3/5 = 0.6 and 4/5 = 0.8, truncated.
    assert_eq!(n, v(39321, 52428, 0));
}

// `look_at` leaves the camera basis mutually orthogonal and unit length
// regardless of the initial orientation, up to fixed-point rounding.
#[test]
fn look_at_rebuilds_an_orthonormal_basis() {
    let mut cam = Camera {
        pos: v(3 * FP_ONE, FP_ONE, -4 * FP_ONE),
        right: v(FP_ONE, 0, 0),
        up: v(0, FP_ONE, 0),
        forward: v(0, 0, FP_ONE),
    };
    cam.look_at(v(0, 0, 0));
    let tol = 64;
    assert!(v3_dot(cam.right, cam.up).abs() <= tol);
    assert!(v3_dot(cam.right, cam.forward).abs() <= tol);
    assert!(v3_dot(cam.up, cam.forward).abs() <= tol);
    assert!((v3_len(cam.right) - FP_ONE).abs() <= tol);
    assert!((v3_len(cam.up) - FP_ONE).abs() <= tol);
    assert!((v3_len(cam.forward) - FP_ONE).abs() <= tol);
    // Forward points from the position toward the target.
    let to_target = v3_normalized(v3_sub(v(0, 0, 0), cam.pos));
    assert!((cam.forward.x - to_target.x).abs() <= 1);
    assert!((cam.forward.y - to_target.y).abs() <= 1);
    assert!((cam.forward.z - to_target.z).abs() <= 1);
}

fn checker_sphere(scale: i64) -> Sphere {
    Sphere {
        pos: v(0, 0, 0),
        r: FP_ONE,
        texture: Texture::CheckerXZ {
            color1: Color { r: FP_ONE, g: FP_ONE, b: 0 },
            color2: Color { r: FP_ONE, g: 0, b: FP_ONE },
            scale,
        },
        specular: -1,
        reflective: 0,
        skip_lighting: false,
    }
}

// The checkerboard is periodic with period 2 * scale along both axes and
// shows exactly two colors.
#[test]
fn checkerboard_period_and_two_colors() {
    let s = checker_sphere(FP_ONE);
    let c1 = Color { r: FP_ONE, g: FP_ONE, b: 0 };
    let c2 = Color { r: FP_ONE, g: 0, b: FP_ONE };
    let probe = |x: i64, z: i64| eval_texture(&s, v(x, 0, z));
    for k in -3i64..=3 {
        for j in -3i64..=3 {
            // Sample points off the tile seams.
            let x = k * FP_ONE + 17;
            let z = j * FP_ONE + 23;
            let here = probe(x, z);
            assert!(here == c1 || here == c2);
            assert_eq!(probe(x + 2 * FP_ONE, z), here);
            assert_eq!(probe(x, z + 2 * FP_ONE), here);
            // One tile over, the color flips.
            assert_ne!(probe(x + FP_ONE, z), here);
            assert_ne!(probe(x, z + FP_ONE), here);
        }
    }
}

#[test]
fn gradient_interpolates_over_the_sphere_extent() {
    let s = Sphere {
        pos: v(0, 0, 0),
        r: FP_ONE,
        texture: Texture::GradientY {
            color1: Color { r: FP_ONE, g: 0, b: 0 },
            color2: Color { r: 0, g: 0, b: FP_ONE },
        },
        specular: -1,
        reflective: 0,
        skip_lighting: true,
    };
    // At the top of the sphere the normalized height is exactly 1, so the
    // color is color1 alone.
    assert_eq!(eval_texture(&s, v(0, FP_ONE, 0)), Color { r: FP_ONE, g: 0, b: 0 });
    // Far above the sphere the height clamps to 1 too.
    assert_eq!(eval_texture(&s, v(0, 10 * FP_ONE, 0)), Color { r: FP_ONE, g: 0, b: 0 });
    // At the equator the two colors mix half and half.
    assert_eq!(eval_texture(&s, v(0, 0, 0)), Color { r: 0, g: 0, b: FP_ONE });
}

// Quantization maps [0, 1] to [0, 255] and clamps anything beyond.
#[test]
fn quantization_clamps_and_truncates() {
    assert_eq!(quant_channel(0), 0);
    assert_eq!(quant_channel(FP_ONE), 255);
    assert_eq!(quant_channel(FP_ONE / 2), 127);
    assert_eq!(quant_channel(FP_ONE + 1), 255);
    assert_eq!(quant_channel(100 * FP_ONE), 255);
    assert_eq!(quant_channel(-1), 0);
    assert_eq!(quant_channel(i64::MIN), 0);
    assert_eq!(quant_channel(i64::MAX), 255);
}

#[test]
fn packing_puts_red_in_the_high_byte() {
    let c = Color { r: FP_ONE, g: FP_ONE / 2, b: FP_ONE / 4 };
    let px = color_to_u32(c);
    assert_eq!(px, 0x00ff_7f3f);
    assert_eq!(pixel_bytes(px), (0xff, 0x7f, 0x3f));
}

#[test]
fn out_of_range_channels_still_pack_to_bytes() {
    let c = Color { r: 2 * FP_ONE, g: -FP_ONE, b: FP_ONE };
    assert_eq!(color_to_u32(c), 0x00ff_00ff);
}
