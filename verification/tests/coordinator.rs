//! The frame coordinator: sizing, span claims, the double buffer, frame
//! completion, scaling and the FPS counter.

use juggler::color::{color_to_u32, Color};
use juggler::fixed::FP_ONE;
use juggler::fps::FPSCounter;
use juggler::renderer::{render_pixel, Renderer, DEFAULT_PIXEL, RENDER_SPAN};
use juggler::scale::scale_buffer;
use juggler::scene::SceneOptions;
use juggler::scene_simple::populate_scene;
use juggler::vec3::Vec3;

fn options() -> SceneOptions {
    SceneOptions { speed_0: FP_ONE, speed_1: FP_ONE, option_0: false, option_1: false }
}

#[test]
fn new_renderer_is_empty_and_idle() {
    let r = Renderer::new();
    assert_eq!(r.get_size(), (0, 0));
    assert_eq!(r.get_duration(), 0);
    assert_eq!(r.get_buffer().len(), 0);
}

#[test]
fn set_size_clamps_to_square_and_fills_default() {
    let mut r = Renderer::new();
    r.set_size(8, 20);
    assert_eq!(r.get_size(), (8, 8));
    let buf = r.get_buffer();
    assert_eq!(buf.len(), 64);
    assert!(buf.iter().all(|&p| p == DEFAULT_PIXEL));
}

// Claimed spans start where the previous span ended, cover every pixel
// exactly once, and the last span is clamped to the pixel count.
#[test]
fn spans_tile_the_frame_exactly_once() {
    let mut r = Renderer::new();
    // 10 * 7 = 70 pixels: not divisible by the span size.
    r.set_size(10, 7);
    r.start_render(0, &options(), 0);
    let mut counters = vec![0usize; 70];
    let mut expected_start = 0;
    while let Some((s, e)) = r.claim_next() {
        assert_eq!(s, expected_start);
        assert!(e <= 70);
        assert!(e - s <= RENDER_SPAN);
        for i in s..e {
            counters[i] += 1;
        }
        expected_start = e;
    }
    assert_eq!(expected_start, 70);
    assert!(counters.iter().all(|&c| c == 1), "every pixel claimed exactly once");
}

// One render step claims one span and renders exactly those pixels into
// the back buffer; the front buffer stays untouched until the frame is
// finished.
#[test]
fn render_steps_advance_one_span_at_a_time() {
    let mut r = Renderer::new();
    r.set_size(10, 10);
    r.start_render(0, &options(), 0);
    assert!(r.render_step());
    assert!(r.get_buffer().iter().all(|&p| p == DEFAULT_PIXEL));
    assert!(r.render_step());
    // 100 pixels take two spans of 64 and 36; a third step finds no work.
    assert!(!r.render_step());
    assert!(r.claim_next().is_none());
    r.finish_frame(77);
    assert_eq!(r.get_duration(), 77);
    let scene = r.snapshot_scene();
    let buf = r.get_buffer().clone();
    for (i, &px) in buf.iter().enumerate() {
        assert_eq!(px, render_pixel(&scene, 10, 10, i));
    }
}

// A full frame leaves no pixel at its pre-render default color and
// publishes the rendered buffer as the new front.
#[test]
fn completed_frame_overwrites_every_pixel() {
    let mut r = Renderer::new();
    r.set_size(10, 10);
    r.start_render(0, &options(), 1000);
    r.wait_for_completion(false, 251_000);
    assert_eq!(r.get_duration(), 250_000);
    let w = 10;
    let scene = r.snapshot_scene();
    let buf = r.get_buffer().clone();
    assert_eq!(buf.len(), 100);
    for (i, &px) in buf.iter().enumerate() {
        assert_eq!(px, render_pixel(&scene, w, w, i));
        assert_ne!(px, DEFAULT_PIXEL);
    }
}

// Starting a render and immediately flushing returns at once, renders
// nothing and does not swap the buffers.
#[test]
fn start_then_flush_returns_without_rendering() {
    let mut r = Renderer::new();
    r.set_size(4, 4);
    r.start_render(0, &options(), 0);
    r.wait_for_completion(true, 500);
    assert_eq!(r.get_duration(), 0);
    assert!(r.get_buffer().iter().all(|&p| p == DEFAULT_PIXEL));
    assert!(r.claim_next().is_none());
    // A later frame still works normally.
    r.start_render(0, &options(), 0);
    r.wait_for_completion(false, 80);
    assert_eq!(r.get_duration(), 80);
    assert!(r.get_buffer().iter().all(|&p| p != DEFAULT_PIXEL));
}

// The identity of the front buffer flips once per completed frame.
#[test]
fn front_buffer_alternates_between_frames() {
    let mut r = Renderer::new();
    r.set_size(4, 4);
    let p0 = r.get_buffer().as_ptr();
    r.start_render(0, &options(), 0);
    r.wait_for_completion(false, 10);
    let p1 = r.get_buffer().as_ptr();
    r.start_render(1_000_000, &options(), 0);
    r.wait_for_completion(false, 10);
    let p2 = r.get_buffer().as_ptr();
    assert_ne!(p0, p1);
    assert_ne!(p1, p2);
    assert_eq!(p0, p2);
}

#[test]
fn simple_scene_contents() {
    let mut r = Renderer::new();
    r.start_render(0, &options(), 0);
    let scene = r.snapshot_scene();
    assert_eq!(scene.spheres.len(), 4);
    assert_eq!(scene.lights.len(), 3);
    assert_eq!(scene.sky_color, Color { r: 9830, g: 16384, b: 22938 });
    // The ground sphere is huge, checkered and half reflective.
    let ground = &scene.spheres[3];
    assert_eq!(ground.r, 5000 * FP_ONE);
    assert_eq!(ground.reflective, FP_ONE / 2);
    // At time zero the camera sits five units before the origin and looks
    // straight at it.
    assert_eq!(scene.camera.pos, Vec3 { x: 0, y: 0, z: -5 * FP_ONE });
    assert_eq!(scene.camera.forward, Vec3 { x: 0, y: 0, z: FP_ONE });
    assert_eq!(scene.camera.right, Vec3 { x: FP_ONE, y: 0, z: 0 });
    assert_eq!(scene.camera.up, Vec3 { x: 0, y: FP_ONE, z: 0 });
}

#[test]
fn orbit_depends_on_elapsed_time_and_speed() {
    let mut scene = {
        let r = Renderer::new();
        r.snapshot_scene()
    };
    // A quarter cycle moves the camera to +x.
    populate_scene(&mut scene, 3_750_000, &options());
    assert_eq!(scene.camera.pos, Vec3 { x: 5 * FP_ONE, y: 0, z: 0 });
    // Double speed, an eighth of the cycle: the same place.
    let fast = SceneOptions { speed_0: FP_ONE, speed_1: 2 * FP_ONE, option_0: false, option_1: false };
    populate_scene(&mut scene, 1_875_000, &fast);
    assert_eq!(scene.camera.pos, Vec3 { x: 5 * FP_ONE, y: 0, z: 0 });
    // A negative speed orbits the other way.
    let back = SceneOptions { speed_0: FP_ONE, speed_1: -FP_ONE, option_0: false, option_1: false };
    populate_scene(&mut scene, 3_750_000, &back);
    assert_eq!(scene.camera.pos, Vec3 { x: -5 * FP_ONE, y: 0, z: 0 });
}

#[test]
fn scaling_doubles_pixels_and_pads_borders() {
    let src = vec![1u32, 2, 3, 4];
    // 2x2 -> 4x4: every source pixel becomes a 2x2 block.
    let out = scale_buffer(&src, 2, 2, 4, 4, 9);
    assert_eq!(out, vec![1, 1, 2, 2, 1, 1, 2, 2, 3, 3, 4, 4, 3, 3, 4, 4]);
    // 2x2 -> 6x4: one fill column on each side.
    let out = scale_buffer(&src, 2, 2, 6, 4, 9);
    assert_eq!(out.len(), 24);
    for ty in 0..4 {
        assert_eq!(out[ty * 6], 9);
        assert_eq!(out[ty * 6 + 5], 9);
    }
    assert_eq!(out[1], 1);
    assert_eq!(out[4], 2);
    assert_eq!(out[3 * 6 + 1], 3);
    assert_eq!(out[3 * 6 + 4], 4);
}

#[test]
fn fps_counter_reports_once_per_refresh_period() {
    let mut fps = FPSCounter::new();
    // First frame only arms the counter.
    assert_eq!(fps.new_frame(0, 40_000), None);
    // Too soon to report.
    assert_eq!(fps.new_frame(100_000, 40_000), None);
    // 250 ms later: three frames, 120 ms of rendering -> 25 fps.
    let r = fps.new_frame(250_000, 40_000).unwrap();
    assert_eq!(r, 25 * 65536);
    // The accumulators restart after a report.
    assert_eq!(fps.new_frame(300_000, 10_000), None);
    fps.reset();
    assert_eq!(fps.new_frame(600_000, 10_000), None);
}

#[test]
fn default_pixel_is_the_quantized_mid_gray() {
    let half = Color { r: FP_ONE / 2, g: FP_ONE / 2, b: FP_ONE / 2 };
    assert_eq!(color_to_u32(half), DEFAULT_PIXEL);
}
