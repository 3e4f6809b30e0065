//! The tracing kernel: intersection roots, shadows, lighting and
//! reflection scenarios.

use juggler::color::Color;
use juggler::fixed::FP_ONE;
use juggler::scene::{Camera, Light, Scene, Sphere, Texture};
use juggler::trace::{
    compute_lighting, intersect_ray_closest_sphere, intersect_ray_sphere, reflect_ray, trace_ray,
};
use juggler::vec3::{v3_len, v3_sub, Vec3};

fn v(x: i64, y: i64, z: i64) -> Vec3 {
    Vec3 { x, y, z }
}

fn plain_sphere(pos: Vec3, r: i64, color: Color) -> Sphere {
    Sphere { pos, r, texture: Texture::Color(color), specular: -1, reflective: 0, skip_lighting: false }
}

fn unit_sphere_at_origin() -> Sphere {
    plain_sphere(v(0, 0, 0), FP_ONE, Color { r: FP_ONE, g: 0, b: 0 })
}

fn camera_at(pos: Vec3) -> Camera {
    Camera {
        pos,
        right: v(FP_ONE, 0, 0),
        up: v(0, FP_ONE, 0),
        forward: v(0, 0, FP_ONE),
    }
}

// The two roots come back larger first; the hit points they give lie on
// the sphere surface up to fixed-point rounding.
#[test]
fn intersection_returns_ordered_roots_on_the_surface() {
    let s = unit_sphere_at_origin();
    let origin = v(0, 0, -5 * FP_ONE);
    let dir = v(0, 0, FP_ONE);
    let (t1, t2) = intersect_ray_sphere(origin, dir, &s).unwrap();
    assert_eq!(t1, 6 * FP_ONE);
    assert_eq!(t2, 4 * FP_ONE);
    assert!(t1 >= t2);

    // An oblique ray: roots still ordered, hit points still on the surface.
    let origin = v(FP_ONE / 3, FP_ONE / 5, -5 * FP_ONE);
    let (t1, t2) = intersect_ray_sphere(origin, dir, &s).unwrap();
    assert!(t1 >= t2);
    for t in [t1, t2] {
        let hit = v(
            origin.x,
            origin.y,
            origin.z + ((dir.z as i128 * t as i128) / FP_ONE as i128) as i64,
        );
        let dist = v3_len(v3_sub(hit, s.pos));
        assert!((dist - s.r).abs() < 64, "|hit - center| = {dist} vs r = {}", s.r);
    }
}

#[test]
fn degenerate_rays_hit_nothing() {
    let s = unit_sphere_at_origin();
    assert!(intersect_ray_sphere(v(0, 0, 0), v(0, 0, 0), &s).is_none());
    // A direction too small for its self dot product to register is
    // degenerate too.
    assert!(intersect_ray_sphere(v(0, 0, -5 * FP_ONE), v(0, 0, 100), &s).is_none());
}

#[test]
fn missing_rays_have_negative_discriminant() {
    let s = unit_sphere_at_origin();
    // A ray well above the sphere.
    let r = intersect_ray_sphere(v(0, 3 * FP_ONE, -5 * FP_ONE), v(0, 0, FP_ONE), &s);
    assert!(r.is_none());
}

#[test]
fn closest_sphere_ties_keep_the_earlier_sphere() {
    let a = plain_sphere(v(0, 0, 0), FP_ONE, Color { r: FP_ONE, g: 0, b: 0 });
    let b = plain_sphere(v(0, 0, 0), FP_ONE, Color { r: 0, g: FP_ONE, b: 0 });
    let scene = Scene {
        camera: camera_at(v(0, 0, -5 * FP_ONE)),
        spheres: vec![a, b],
        lights: vec![],
        sky_color: Color { r: 0, g: 0, b: 0 },
    };
    let (idx, t) = intersect_ray_closest_sphere(
        &scene,
        v(0, 0, -5 * FP_ONE),
        v(0, 0, FP_ONE),
        FP_ONE,
        i64::MAX,
    );
    assert_eq!(idx, Some(0));
    assert_eq!(t, 4 * FP_ONE);
}

#[test]
fn reflection_about_a_normal() {
    // Reflecting the -z direction about the -z normal returns it.
    let r = reflect_ray(v(0, 0, -FP_ONE), v(0, 0, -FP_ONE));
    assert_eq!(r, v(0, 0, -FP_ONE));
    // A 45 degree bounce in the XZ plane.
    let r = reflect_ray(v(FP_ONE, 0, FP_ONE), v(0, 0, FP_ONE));
    assert_eq!(r, v(-FP_ONE, 0, FP_ONE));
}

// A single ambient-lit sphere, no reflectivity: the traced center-pixel
// color is exactly the base texture color.
#[test]
fn ambient_only_scene_returns_the_base_color() {
    let base = Color { r: FP_ONE, g: FP_ONE / 2, b: FP_ONE / 4 };
    let sphere = plain_sphere(v(0, 0, 0), FP_ONE, base);
    let scene = Scene {
        camera: camera_at(v(0, 0, -5 * FP_ONE)),
        spheres: vec![sphere],
        lights: vec![Light::Ambient { intensity: FP_ONE }],
        sky_color: Color { r: 0, g: 0, b: 0 },
    };
    // The center ray straight along the camera forward axis.
    let c = trace_ray(&scene, scene.camera.pos, v(0, 0, FP_ONE), FP_ONE, i64::MAX, 3);
    assert_eq!(c, base);
}

// A sphere fully occluding a point light: the diffuse term of that light
// contributes exactly nothing, only ambient remains.
#[test]
fn occluded_point_light_leaves_only_ambient() {
    let lit = unit_sphere_at_origin();
    let blocker = plain_sphere(v(0, 0, -163840), FP_ONE / 2, Color { r: 0, g: 0, b: FP_ONE });
    let hit_pos = v(0, 0, -FP_ONE);
    let normal = v(0, 0, -FP_ONE);
    let ambient = 13107;
    let lights = vec![
        Light::Ambient { intensity: ambient },
        Light::Point { intensity: FP_ONE, pos: v(0, 0, -4 * FP_ONE) },
    ];
    let occluded = Scene {
        camera: camera_at(v(0, 0, -5 * FP_ONE)),
        spheres: vec![lit, blocker],
        lights: lights.clone(),
        sky_color: Color { r: 0, g: 0, b: 0 },
    };
    let total = compute_lighting(&occluded, v(0, 0, FP_ONE), hit_pos, normal, -1);
    assert_eq!(total, ambient);

    // Without the blocker the same light adds its full diffuse term.
    let open_scene = Scene {
        camera: camera_at(v(0, 0, -5 * FP_ONE)),
        spheres: vec![lit],
        lights,
        sky_color: Color { r: 0, g: 0, b: 0 },
    };
    let total = compute_lighting(&open_scene, v(0, 0, FP_ONE), hit_pos, normal, -1);
    assert_eq!(total, ambient + FP_ONE);
}

// The specular highlight is deliberately not scaled by the light's
// intensity: changing the intensity moves only the diffuse term.
#[test]
fn specular_term_ignores_light_intensity() {
    let lit = unit_sphere_at_origin();
    let hit_pos = v(0, 0, -FP_ONE);
    let normal = v(0, 0, -FP_ONE);
    let ray_dir = v(0, 0, FP_ONE);
    let total_of = |intensity: i64| {
        let scene = Scene {
            camera: camera_at(v(0, 0, -5 * FP_ONE)),
            spheres: vec![lit],
            lights: vec![Light::Point { intensity, pos: v(0, 0, -4 * FP_ONE) }],
            sky_color: Color { r: 0, g: 0, b: 0 },
        };
        compute_lighting(&scene, ray_dir, hit_pos, normal, 1)
    };
    // Head-on geometry: the diffuse cosine and the specular cosine are
    // both exactly 1, so the totals are intensity + 1.
    assert_eq!(total_of(13107), 13107 + FP_ONE);
    assert_eq!(total_of(32768), 32768 + FP_ONE);
}

// A perfect mirror facing a second sphere of known color: the traced color
// at the mirror is exactly that sphere's lit color, with no contribution
// of the mirror's own color.
#[test]
fn perfect_mirror_shows_the_reflected_sphere() {
    let known = Color { r: FP_ONE / 4, g: FP_ONE / 2, b: FP_ONE };
    let mirror = Sphere {
        pos: v(0, 0, 0),
        r: FP_ONE,
        texture: Texture::Color(Color { r: FP_ONE, g: FP_ONE, b: FP_ONE }),
        specular: -1,
        reflective: FP_ONE,
        skip_lighting: false,
    };
    // Behind the camera, so only the reflected ray can reach it.
    let target = Sphere {
        pos: v(0, 0, -7 * FP_ONE),
        r: FP_ONE / 2,
        texture: Texture::Color(known),
        specular: -1,
        reflective: 0,
        skip_lighting: true,
    };
    let scene = Scene {
        camera: camera_at(v(0, 0, -5 * FP_ONE)),
        spheres: vec![mirror, target],
        lights: vec![Light::Ambient { intensity: FP_ONE }],
        sky_color: Color { r: 0, g: 0, b: 0 },
    };
    let c = trace_ray(&scene, scene.camera.pos, v(0, 0, FP_ONE), FP_ONE, i64::MAX, 3);
    assert_eq!(c, known);
    // With no recursion depth left, the mirror's own (fully lit) color
    // comes back instead.
    let c = trace_ray(&scene, scene.camera.pos, v(0, 0, FP_ONE), FP_ONE, i64::MAX, 0);
    assert_eq!(c, Color { r: FP_ONE, g: FP_ONE, b: FP_ONE });
}

#[test]
fn rays_that_miss_everything_return_the_sky() {
    let sky = Color { r: 9830, g: 16384, b: 22938 };
    let scene = Scene {
        camera: camera_at(v(0, 0, -5 * FP_ONE)),
        spheres: vec![unit_sphere_at_origin()],
        lights: vec![],
        sky_color: sky,
    };
    let c = trace_ray(&scene, scene.camera.pos, v(FP_ONE, 0, 0), FP_ONE, i64::MAX, 3);
    assert_eq!(c, sky);
}
