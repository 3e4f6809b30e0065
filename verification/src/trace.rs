//! The raytracing kernel: ray/sphere intersection, shadowing, lighting and
//! recursive reflection.

use vstd::prelude::*;
use crate::color::{col_mix, col_scale, Color, spec_col_mix, spec_col_scale};
use crate::fixed::{
    fp_add, fp_div, fp_mul, fp_pow, fp_sqrt, fp_sub, FP_EPSILON, FP_ONE, spec_add, spec_div,
    spec_fp_pow, spec_fp_sqrt, spec_mul, spec_neg, spec_sub, tdiv,
};
use crate::scene::{eval_texture, Light, Scene, spec_eval_texture, Sphere};
use crate::vec3::{
    spec_v3_add, spec_v3_dot, spec_v3_len, spec_v3_normalized, spec_v3_scale, spec_v3_sub, v3_add,
    v3_dot, v3_len, v3_normalized, v3_scale, v3_sub, Vec3,
};

verus! {

/// The recursion depth of primary camera rays.
pub const PRIMARY_RECURSION_DEPTH: u32 = 3;

/// The discriminant of the ray/sphere quadratic, in fixed point.
pub open spec fn spec_discriminant(origin: Vec3, dir: Vec3, s: Sphere) -> i64 {
    let co = spec_v3_sub(origin, s.pos);
    let qa = spec_v3_dot(dir, dir);
    let qb = spec_add(spec_v3_dot(co, dir), spec_v3_dot(co, dir));
    let qc = spec_sub(spec_v3_dot(co, co), spec_mul(s.r, s.r));
    spec_sub(spec_mul(qb, qb), spec_mul(spec_mul((4 * FP_ONE) as i64, qa), qc))
}

/// The two roots of the ray/sphere quadratic, or `None` when the ray
/// misses (negative discriminant) or the quadratic is degenerate (a
/// vanishing direction). The first root uses `+sqrt`, the second `-sqrt`,
/// so the first is never below the second.
pub open spec fn spec_intersect(origin: Vec3, dir: Vec3, s: Sphere) -> Option<(i64, i64)> {
    let co = spec_v3_sub(origin, s.pos);
    let qa = spec_v3_dot(dir, dir);
    let qb = spec_add(spec_v3_dot(co, dir), spec_v3_dot(co, dir));
    let disc = spec_discriminant(origin, dir, s);
    if qa == 0 || disc < 0 {
        None
    } else {
        let sq = spec_fp_sqrt(disc);
        let t1 = spec_div(spec_add(spec_neg(qb), sq), spec_add(qa, qa));
        let t2 = spec_div(spec_sub(spec_neg(qb), sq), spec_add(qa, qa));
        Some((t1, t2))
    }
}

/// A saturating product of a value with itself is never negative.
proof fn lemma_square_nonneg(x: i64)
    ensures
        spec_mul(x, x) >= 0,
{
    assert(x * x >= 0) by (nonlinear_arith);
    assert(tdiv(x * x, FP_ONE as int) >= 0) by {
        vstd::arithmetic::div_mod::lemma_div_pos_is_pos(x * x, FP_ONE as int);
    }
}

/// The self dot product is never negative.
pub proof fn lemma_dot_self_nonneg(v: Vec3)
    ensures
        spec_v3_dot(v, v) >= 0,
{
    lemma_square_nonneg(v.x);
    lemma_square_nonneg(v.y);
    lemma_square_nonneg(v.z);
}

/// Fixed-point division is monotone in the numerator when the denominator
/// is not negative.
proof fn lemma_div_monotone_num(n1: i64, n2: i64, d: i64)
    requires
        n1 <= n2,
        d >= 0,
    ensures
        spec_div(n1, d) <= spec_div(n2, d),
{
    if d != 0 {
        crate::fixed::lemma_tdiv_monotone(n1 * FP_ONE, n2 * FP_ONE, d as int);
        crate::fixed::lemma_sat64_monotone(tdiv(n1 * FP_ONE, d as int), tdiv(n2 * FP_ONE, d as int));
    }
}

/// Solve the ray/sphere quadratic. Returns the two intersection parameters,
/// largest first, or `None` when the ray misses the sphere (negative
/// discriminant) or the quadratic is degenerate.
pub fn intersect_ray_sphere(origin: Vec3, dir: Vec3, s: &Sphere) -> (r: Option<(i64, i64)>)
    ensures
        r == spec_intersect(origin, dir, *s),
        r is Some ==> r->Some_0.0 >= r->Some_0.1,
        r is None <==> (spec_v3_dot(dir, dir) == 0 || spec_discriminant(origin, dir, *s) < 0),
{
    let co = v3_sub(origin, s.pos);
    let qa = v3_dot(dir, dir);
    let qb = fp_add(v3_dot(co, dir), v3_dot(co, dir));
    let qc = fp_sub(v3_dot(co, co), fp_mul(s.r, s.r));
    let disc = fp_sub(fp_mul(qb, qb), fp_mul(fp_mul(4 * FP_ONE, qa), qc));
    if qa == 0 || disc < 0 {
        return None;
    }
    let sq = fp_sqrt(disc);
    let neg_qb = crate::fixed::fp_neg(qb);
    let den = fp_add(qa, qa);
    let t1 = fp_div(fp_add(neg_qb, sq), den);
    let t2 = fp_div(fp_sub(neg_qb, sq), den);
    proof {
        lemma_dot_self_nonneg(dir);
        lemma_div_monotone_num(
            spec_sub(spec_neg(qb), sq),
            spec_add(spec_neg(qb), sq),
            spec_add(qa, qa),
        );
    }
    Some((t1, t2))
}

/// One acceptance step of the closest-intersection scan: take a candidate
/// parameter when it lies in `[t_min, t_max]` and strictly improves on the
/// best so far (ties keep the earlier sphere).
pub open spec fn spec_accept(
    cur: (Option<usize>, i64),
    i: usize,
    t: i64,
    t_min: i64,
    t_max: i64,
) -> (Option<usize>, i64) {
    if t >= t_min && t <= t_max && t < cur.1 {
        (Some(i), t)
    } else {
        cur
    }
}

/// Fold [`spec_accept`] over both roots of every sphere from index `i` on.
pub open spec fn spec_closest_from(
    spheres: Seq<Sphere>,
    origin: Vec3,
    dir: Vec3,
    t_min: i64,
    t_max: i64,
    i: int,
    cur: (Option<usize>, i64),
) -> (Option<usize>, i64)
    decreases spheres.len() - i,
{
    if i < 0 || i >= spheres.len() {
        cur
    } else {
        let cur2 = match spec_intersect(origin, dir, spheres[i]) {
            None => cur,
            Some(ts) => spec_accept(
                spec_accept(cur, i as usize, ts.0, t_min, t_max),
                i as usize,
                ts.1,
                t_min,
                t_max,
            ),
        };
        spec_closest_from(spheres, origin, dir, t_min, t_max, i + 1, cur2)
    }
}

/// The first sphere (in scene order) with the smallest intersection
/// parameter in `[t_min, t_max]`, with `i64::MAX` standing for "no hit yet".
pub open spec fn spec_closest(
    spheres: Seq<Sphere>,
    origin: Vec3,
    dir: Vec3,
    t_min: i64,
    t_max: i64,
) -> (Option<usize>, i64) {
    spec_closest_from(spheres, origin, dir, t_min, t_max, 0, (None, i64::MAX))
}

/// Scan every sphere for the closest intersection with the ray in
/// `[t_min, t_max]`.
pub fn intersect_ray_closest_sphere(
    scene: &Scene,
    origin: Vec3,
    dir: Vec3,
    t_min: i64,
    t_max: i64,
) -> (r: (Option<usize>, i64))
    ensures
        r == spec_closest(scene.spheres@, origin, dir, t_min, t_max),
        r.0 matches Some(j) ==> j < scene.spheres@.len(),
{
    let mut best: Option<usize> = None;
    let mut best_t: i64 = i64::MAX;
    let mut i: usize = 0;
    proof {
        assert(spec_closest_from(scene.spheres@, origin, dir, t_min, t_max, 0, (best, best_t))
            == spec_closest(scene.spheres@, origin, dir, t_min, t_max));
    }
    while i < scene.spheres.len()
        invariant
            i <= scene.spheres.len(),
            spec_closest_from(scene.spheres@, origin, dir, t_min, t_max, i as int, (best, best_t))
                == spec_closest(scene.spheres@, origin, dir, t_min, t_max),
            best matches Some(j) ==> j < scene.spheres@.len(),
        decreases scene.spheres.len() - i,
    {
        let s = scene.spheres[i];
        match intersect_ray_sphere(origin, dir, &s) {
            None => {},
            Some((t1, t2)) => {
                if t1 >= t_min && t1 <= t_max && t1 < best_t {
                    best = Some(i);
                    best_t = t1;
                }
                if t2 >= t_min && t2 <= t_max && t2 < best_t {
                    best = Some(i);
                    best_t = t2;
                }
            },
        }
        i = i + 1;
    }
    (best, best_t)
}

/// Reflect `ray` about `normal`: `normal * (2 * dot(normal, ray)) - ray`.
pub open spec fn spec_reflect(ray: Vec3, normal: Vec3) -> Vec3 {
    let d = spec_v3_dot(normal, ray);
    spec_v3_sub(spec_v3_scale(normal, spec_add(d, d)), ray)
}

/// Reflect `ray` about `normal`.
pub fn reflect_ray(ray: Vec3, normal: Vec3) -> (r: Vec3)
    ensures
        r == spec_reflect(ray, normal),
{
    let d = v3_dot(normal, ray);
    v3_sub(v3_scale(normal, fp_add(d, d)), ray)
}

/// The contribution of one non-ambient light at a lit surface point:
/// nothing when a sphere shadows the light; otherwise the diffuse term
/// `intensity * dot(normal, light) / (|normal| * |light|)` when the surface
/// faces the light, plus, for a sphere with a nonnegative specular
/// exponent, the highlight `(dot(reflected, view) / (|reflected| * |ray|))
/// ^ specular` when that cosine is positive. The highlight is not scaled
/// by the light's intensity.
pub open spec fn spec_directed_light(
    spheres: Seq<Sphere>,
    intensity: i64,
    light_dir: Vec3,
    t_max: i64,
    ray_dir: Vec3,
    hit_pos: Vec3,
    hit_normal: Vec3,
    specular: i64,
) -> i64 {
    let shadow = spec_closest(spheres, hit_pos, light_dir, FP_EPSILON, t_max);
    if shadow.0 is Some {
        0
    } else {
        let n_dot_l = spec_v3_dot(hit_normal, light_dir);
        let diffuse = if n_dot_l > 0 {
            let nrm = spec_div(n_dot_l, spec_mul(spec_v3_len(hit_normal), spec_v3_len(light_dir)));
            spec_mul(intensity, nrm)
        } else {
            0
        };
        let glossy = if specular >= 0 {
            let view_dir = spec_v3_scale(ray_dir, (-FP_ONE) as i64);
            let refl_dir = spec_reflect(light_dir, hit_normal);
            let r_dot_v = spec_v3_dot(refl_dir, view_dir);
            if r_dot_v > 0 {
                let nrm = spec_div(r_dot_v, spec_mul(spec_v3_len(refl_dir), spec_v3_len(ray_dir)));
                spec_fp_pow(nrm, specular as nat)
            } else {
                0
            }
        } else {
            0
        };
        spec_add(diffuse, glossy)
    }
}

/// The total light intensity from the lights from index `i` on, added to
/// `total` one light at a time.
pub open spec fn spec_lighting_from(
    spheres: Seq<Sphere>,
    lights: Seq<Light>,
    ray_dir: Vec3,
    hit_pos: Vec3,
    hit_normal: Vec3,
    specular: i64,
    i: int,
    total: i64,
) -> i64
    decreases lights.len() - i,
{
    if i < 0 || i >= lights.len() {
        total
    } else {
        let total2 = match lights[i] {
            Light::Ambient { intensity } => spec_add(total, intensity),
            Light::Point { intensity, pos } => spec_add(
                total,
                spec_directed_light(
                    spheres,
                    intensity,
                    spec_v3_sub(pos, hit_pos),
                    FP_ONE,
                    ray_dir,
                    hit_pos,
                    hit_normal,
                    specular,
                ),
            ),
            Light::Directional { intensity, dir } => spec_add(
                total,
                spec_directed_light(
                    spheres,
                    intensity,
                    dir,
                    i64::MAX,
                    ray_dir,
                    hit_pos,
                    hit_normal,
                    specular,
                ),
            ),
        };
        spec_lighting_from(spheres, lights, ray_dir, hit_pos, hit_normal, specular, i + 1, total2)
    }
}

/// The summed intensity of every light at a surface point. Ambient lights
/// always contribute; point and directional lights are shadow-tested with a
/// small minimum distance to avoid self-shadowing, a point light up to
/// parameter 1 toward its position, a directional light without bound.
pub open spec fn spec_lighting(
    spheres: Seq<Sphere>,
    lights: Seq<Light>,
    ray_dir: Vec3,
    hit_pos: Vec3,
    hit_normal: Vec3,
    specular: i64,
) -> i64 {
    spec_lighting_from(spheres, lights, ray_dir, hit_pos, hit_normal, specular, 0, 0)
}

/// Sum the intensity of every light at a surface point.
pub fn compute_lighting(
    scene: &Scene,
    ray_dir: Vec3,
    hit_pos: Vec3,
    hit_normal: Vec3,
    specular: i64,
) -> (r: i64)
    ensures
        r == spec_lighting(scene.spheres@, scene.lights@, ray_dir, hit_pos, hit_normal, specular),
{
    let mut total: i64 = 0;
    let mut i: usize = 0;
    while i < scene.lights.len()
        invariant
            i <= scene.lights.len(),
            spec_lighting_from(
                scene.spheres@,
                scene.lights@,
                ray_dir,
                hit_pos,
                hit_normal,
                specular,
                i as int,
                total,
            ) == spec_lighting(
                scene.spheres@,
                scene.lights@,
                ray_dir,
                hit_pos,
                hit_normal,
                specular,
            ),
        decreases scene.lights.len() - i,
    {
        let light = scene.lights[i];
        match light {
            Light::Ambient { intensity } => {
                total = fp_add(total, intensity);
            },
            Light::Point { intensity, pos } => {
                let c = directed_light(
                    scene,
                    intensity,
                    v3_sub(pos, hit_pos),
                    FP_ONE,
                    ray_dir,
                    hit_pos,
                    hit_normal,
                    specular,
                );
                total = fp_add(total, c);
            },
            Light::Directional { intensity, dir } => {
                let c = directed_light(
                    scene,
                    intensity,
                    dir,
                    i64::MAX,
                    ray_dir,
                    hit_pos,
                    hit_normal,
                    specular,
                );
                total = fp_add(total, c);
            },
        }
        i = i + 1;
    }
    total
}

fn directed_light(
    scene: &Scene,
    intensity: i64,
    light_dir: Vec3,
    t_max: i64,
    ray_dir: Vec3,
    hit_pos: Vec3,
    hit_normal: Vec3,
    specular: i64,
) -> (r: i64)
    ensures
        r == spec_directed_light(
            scene.spheres@,
            intensity,
            light_dir,
            t_max,
            ray_dir,
            hit_pos,
            hit_normal,
            specular,
        ),
{
    let (shadow, _) = intersect_ray_closest_sphere(scene, hit_pos, light_dir, FP_EPSILON, t_max);
    if shadow.is_some() {
        return 0;
    }
    let n_dot_l = v3_dot(hit_normal, light_dir);
    let diffuse = if n_dot_l > 0 {
        let nrm = fp_div(n_dot_l, fp_mul(v3_len(hit_normal), v3_len(light_dir)));
        fp_mul(intensity, nrm)
    } else {
        0
    };
    let glossy = if specular >= 0 {
        let view_dir = v3_scale(ray_dir, -FP_ONE);
        let refl_dir = reflect_ray(light_dir, hit_normal);
        let r_dot_v = v3_dot(refl_dir, view_dir);
        if r_dot_v > 0 {
            let nrm = fp_div(r_dot_v, fp_mul(v3_len(refl_dir), v3_len(ray_dir)));
            fp_pow(nrm, specular as u64)
        } else {
            0
        }
    } else {
        0
    };
    fp_add(diffuse, glossy)
}

/// The color seen along a ray: the sky color when no sphere is hit in
/// `[t_min, t_max]`; otherwise the hit sphere's texture color, scaled by
/// the summed light intensity (or by 1 for a lighting-suppressed sphere),
/// and, while recursion depth remains and the sphere is reflective, blended
/// with the color of the mirror-reflected ray in proportion to the
/// sphere's reflectivity.
pub open spec fn spec_trace(
    spheres: Seq<Sphere>,
    lights: Seq<Light>,
    sky_color: Color,
    origin: Vec3,
    dir: Vec3,
    t_min: i64,
    t_max: i64,
    depth: nat,
) -> Color
    decreases depth,
{
    let (closest, closest_t) = spec_closest(spheres, origin, dir, t_min, t_max);
    match closest {
        None => sky_color,
        Some(i) => {
            let s = spheres[i as int];
            let hit_pos = spec_v3_add(origin, spec_v3_scale(dir, closest_t));
            let hit_normal = spec_v3_normalized(spec_v3_sub(hit_pos, s.pos));
            let intensity = if s.skip_lighting {
                FP_ONE
            } else {
                spec_lighting(spheres, lights, dir, hit_pos, hit_normal, s.specular)
            };
            let col = spec_col_scale(spec_eval_texture(s, hit_pos), intensity);
            if depth > 0 && s.reflective > 0 {
                let refl_dir = spec_reflect(spec_v3_scale(dir, (-FP_ONE) as i64), hit_normal);
                let refl_col = spec_trace(
                    spheres,
                    lights,
                    sky_color,
                    hit_pos,
                    refl_dir,
                    FP_EPSILON,
                    i64::MAX,
                    (depth - 1) as nat,
                );
                spec_col_mix(col, spec_sub(FP_ONE, s.reflective), refl_col, s.reflective)
            } else {
                col
            }
        },
    }
}

/// Trace one ray through the scene.
pub fn trace_ray(
    scene: &Scene,
    origin: Vec3,
    dir: Vec3,
    t_min: i64,
    t_max: i64,
    depth: u32,
) -> (r: Color)
    ensures
        r == spec_trace(
            scene.spheres@,
            scene.lights@,
            scene.sky_color,
            origin,
            dir,
            t_min,
            t_max,
            depth as nat,
        ),
    decreases depth,
{
    let (closest, closest_t) = intersect_ray_closest_sphere(scene, origin, dir, t_min, t_max);
    match closest {
        None => scene.sky_color,
        Some(i) => {
            let s = scene.spheres[i];
            let hit_pos = v3_add(origin, v3_scale(dir, closest_t));
            let hit_normal = v3_normalized(v3_sub(hit_pos, s.pos));
            let intensity = if s.skip_lighting {
                FP_ONE
            } else {
                compute_lighting(scene, dir, hit_pos, hit_normal, s.specular)
            };
            let col = col_scale(eval_texture(&s, hit_pos), intensity);
            if depth > 0 && s.reflective > 0 {
                let refl_dir = reflect_ray(v3_scale(dir, -FP_ONE), hit_normal);
                let refl_col = trace_ray(
                    scene,
                    hit_pos,
                    refl_dir,
                    FP_EPSILON,
                    i64::MAX,
                    depth - 1,
                );
                col_mix(col, fp_sub(FP_ONE, s.reflective), refl_col, s.reflective)
            } else {
                col
            }
        },
    }
}

} // verus!
