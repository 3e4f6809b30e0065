//! A software raytracer built on a fixed-point geometry kernel.
//!
//! The library renders frames of a sphere-only 3-D scene: ray/sphere
//! intersection with recursive reflection, per-light shadowing, textured
//! spheres, and a double-buffered frame coordinator that hands out spans of
//! pixels to be rendered and publishes a completed frame atomically.
//!
//! All coordinates, colors and intensities are signed 64-bit fixed-point
//! numbers with 16 fractional bits (see [`fixed`]), so that every arithmetic
//! step has an exact, stated meaning.

pub mod color;
pub mod fixed;
pub mod fps;
pub mod renderer;
pub mod scale;
pub mod scene;
pub mod scene_simple;
pub mod trace;
pub mod vec3;
