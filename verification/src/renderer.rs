//! The frame coordinator: render dimensions, the double buffer, the span
//! cursor and the frame lifecycle.
//!
//! Two equally sized pixel buffers exist at all times. Exactly one is the
//! "front" buffer (the most recently completed frame, safe to read) and the
//! other is the "back" buffer (the frame being written); the roles swap only
//! when a frame completes. Work is handed out as spans of consecutive pixel
//! indices claimed from a monotonically advancing cursor, so spans never
//! overlap and leave no gap; the final span is clamped to the pixel count.
//!
//! The coordinator itself is sequential; a caller that wants parallel
//! workers shares one `Renderer` behind a lock, and each worker claims a
//! span, renders it with [`render_pixel`] from its own scene snapshot,
//! writes it back with [`Renderer::write_span`], and the worker that claims
//! the span reaching the last pixel calls [`Renderer::finish_frame`].

use vstd::prelude::*;
use crate::color::{color_to_u32, Color, spec_color_to_u32};
use crate::fixed::lemma_mul_bound;
use crate::scene::{Camera, Scene, SceneOptions};
use crate::trace::{spec_trace, trace_ray};
use crate::vec3::{spec_v3_add, spec_v3_len, spec_v3_scale, v3_add, v3_len, v3_scale, Vec3};

verus! {

/// The number of pixels claimed by one span (the last span of a frame may
/// be shorter).
pub const RENDER_SPAN: usize = 64;

/// The pixel both buffers are filled with after a resize: mid gray.
pub const DEFAULT_PIXEL: u32 = 0x007f_7f7f;

/// The viewport x coordinate of pixel column `x` out of `width`:
/// `x / (width - 1) - 1/2` in fixed point, so columns span `[-1/2, 1/2]`.
pub open spec fn spec_viewport_x(x: int, width: int) -> i64 {
    ((x * 65536) / (width - 1) - 32768) as i64
}

/// The viewport y coordinate of pixel row `y` out of `height`:
/// `1/2 - y / (height - 1)`, so rows run top-down over `[-1/2, 1/2]`.
pub open spec fn spec_viewport_y(y: int, height: int) -> i64 {
    (32768 - (y * 65536) / (height - 1)) as i64
}

/// The unnormalized direction of the primary ray through pixel `(x, y)`:
/// `forward + right * vx + up * vy`.
pub open spec fn spec_ray_dir(cam: Camera, width: int, height: int, x: int, y: int) -> Vec3 {
    spec_v3_add(
        spec_v3_add(cam.forward, spec_v3_scale(cam.right, spec_viewport_x(x, width))),
        spec_v3_scale(cam.up, spec_viewport_y(y, height)),
    )
}

/// The packed color of the pixel at linear index `idx` in a `width` by
/// `height` frame of `scene`: trace the primary ray from the camera with
/// minimum parameter `|dir|` (the viewport distance) and full recursion
/// depth, then quantize.
pub open spec fn spec_render_pixel(scene: Scene, width: int, height: int, idx: int) -> u32 {
    let x = idx % width;
    let y = idx / width;
    let dir = spec_ray_dir(scene.camera, width, height, x, y);
    let t_min = spec_v3_len(dir);
    spec_color_to_u32(
        spec_trace(
            scene.spheres@,
            scene.lights@,
            scene.sky_color,
            scene.camera.pos,
            dir,
            t_min,
            i64::MAX,
            3,
        ),
    )
}

/// Render the pixel at linear index `idx` of a `width` by `height` frame.
pub fn render_pixel(scene: &Scene, width: usize, height: usize, idx: usize) -> (px: u32)
    requires
        2 <= width <= 16384,
        2 <= height <= 16384,
        idx < width * height,
    ensures
        px == spec_render_pixel(*scene, width as int, height as int, idx as int),
{
    let x = idx % width;
    let y = idx / width;
    proof {
        vstd::arithmetic::div_mod::lemma_mod_division_less_than_divisor(idx as int, width as int);
        vstd::arithmetic::div_mod::lemma_multiply_divide_lt(idx as int, width as int, height as int);
        vstd::arithmetic::div_mod::lemma_div_pos_is_pos(idx as int, width as int);
    }
    let xq: u64 = ((x as u64) * 65536) / ((width - 1) as u64);
    let yq: u64 = ((y as u64) * 65536) / ((height - 1) as u64);
    proof {
        vstd::arithmetic::div_mod::lemma_div_is_ordered(
            x as int * 65536,
            (width - 1) as int * 65536,
            (width - 1) as int,
        );
        vstd::arithmetic::div_mod::lemma_div_multiples_vanish(65536, (width - 1) as int);
        vstd::arithmetic::div_mod::lemma_div_pos_is_pos(x as int * 65536, (width - 1) as int);
        vstd::arithmetic::div_mod::lemma_div_is_ordered(
            y as int * 65536,
            (height - 1) as int * 65536,
            (height - 1) as int,
        );
        vstd::arithmetic::div_mod::lemma_div_multiples_vanish(65536, (height - 1) as int);
        vstd::arithmetic::div_mod::lemma_div_pos_is_pos(y as int * 65536, (height - 1) as int);
    }
    let vx: i64 = (xq as i64) - 32768;
    let vy: i64 = 32768 - (yq as i64);
    let dir = v3_add(
        v3_add(scene.camera.forward, v3_scale(scene.camera.right, vx)),
        v3_scale(scene.camera.up, vy),
    );
    let t_min = v3_len(dir);
    let c = trace_ray(scene, scene.camera.pos, dir, t_min, i64::MAX, 3);
    color_to_u32(c)
}

/// Render the pixels of one claimed span `[start, end)` into a fresh
/// buffer, in order.
pub fn render_span(
    scene: &Scene,
    width: usize,
    height: usize,
    start: usize,
    end: usize,
) -> (v: Vec<u32>)
    requires
        2 <= width <= 16384,
        2 <= height <= 16384,
        start <= end,
        end <= width * height,
    ensures
        v@.len() == end - start,
        forall|m: int|
            0 <= m < v@.len() ==> #[trigger] v@[m] == spec_render_pixel(
                *scene,
                width as int,
                height as int,
                start + m,
            ),
{
    let mut v: Vec<u32> = Vec::new();
    let mut k: usize = start;
    while k < end
        invariant
            start <= k <= end,
            end <= width * height,
            2 <= width <= 16384,
            2 <= height <= 16384,
            v@.len() == k - start,
            forall|m: int|
                0 <= m < v@.len() ==> #[trigger] v@[m] == spec_render_pixel(
                    *scene,
                    width as int,
                    height as int,
                    start + m,
                ),
        decreases end - k,
    {
        let px = render_pixel(scene, width, height, k);
        v.push(px);
        k = k + 1;
    }
    v
}

fn copy_vec<T: Copy>(v: &Vec<T>) -> (r: Vec<T>)
    ensures
        r@ == v@,
{
    let mut r: Vec<T> = Vec::new();
    let mut i: usize = 0;
    while i < v.len()
        invariant
            i <= v.len(),
            r@ =~= v@.subrange(0, i as int),
        decreases v.len() - i,
    {
        r.push(v[i]);
        i = i + 1;
    }
    proof {
        assert(r@ =~= v@);
    }
    r
}

fn filled_buffer(n: usize) -> (v: Vec<u32>)
    ensures
        v@.len() == n,
        forall|j: int| 0 <= j < n ==> v@[j] == DEFAULT_PIXEL,
{
    let mut v: Vec<u32> = Vec::new();
    let mut i: usize = 0;
    while i < n
        invariant
            i == v@.len(),
            i <= n,
            forall|j: int| 0 <= j < i ==> v@[j] == DEFAULT_PIXEL,
        decreases n - i,
    {
        v.push(DEFAULT_PIXEL);
        i = i + 1;
    }
    v
}

/// The coordinator.
pub struct Renderer {
    /// Frame width in pixels.
    pub width: usize,
    /// Frame height in pixels; never exceeds the width.
    pub height: usize,
    /// `width * height`.
    pub num_pixels: usize,
    /// The next unclaimed pixel index; at `num_pixels` there is no work
    /// left.
    pub next_pixel: usize,
    /// One of the two pixel buffers.
    pub buffer_0: Vec<u32>,
    /// The other pixel buffer.
    pub buffer_1: Vec<u32>,
    /// True while `buffer_0` is the back buffer (being written) and
    /// `buffer_1` the front; flipped at every frame completion.
    pub buffer_0_active: bool,
    /// The scene snapshot of the frame being rendered.
    pub scene: Scene,
    /// True from `start_render` until the frame completes or is flushed.
    pub frame_active: bool,
    /// When the current frame started, in microseconds.
    pub start_time_micros: u64,
    /// How long the last completed frame took, in microseconds.
    pub duration_micros: u64,
}

impl Renderer {
    /// Structural soundness: the buffers match the pixel count, the cursor
    /// never passes the end, and a nonempty frame has usable dimensions.
    pub open spec fn wf(self) -> bool {
        &&& self.num_pixels == self.width * self.height
        &&& self.buffer_0@.len() == self.num_pixels
        &&& self.buffer_1@.len() == self.num_pixels
        &&& self.next_pixel <= self.num_pixels
        &&& self.num_pixels > 0 ==> (2 <= self.height && self.height <= self.width && self.width
            <= 16384)
    }

    /// The buffer being written.
    pub open spec fn spec_back(self) -> Seq<u32> {
        if self.buffer_0_active {
            self.buffer_0@
        } else {
            self.buffer_1@
        }
    }

    /// The stable buffer holding the last completed frame.
    pub open spec fn spec_front(self) -> Seq<u32> {
        if self.buffer_0_active {
            self.buffer_1@
        } else {
            self.buffer_0@
        }
    }

    /// Every pixel before the cursor already holds its rendered value.
    pub open spec fn prefix_rendered(self) -> bool {
        forall|j: int|
            0 <= j < self.next_pixel ==> #[trigger] self.spec_back()[j] == spec_render_pixel(
                self.scene,
                self.width as int,
                self.height as int,
                j,
            )
    }

    /// While a frame is active, the claimed prefix is rendered.
    pub open spec fn frame_inv(self) -> bool {
        self.frame_active ==> self.prefix_rendered()
    }

    /// The state right after a frame start, except for the scene snapshot.
    pub open spec fn spec_started(self, now_micros: u64) -> Renderer {
        Renderer {
            next_pixel: 0,
            frame_active: true,
            start_time_micros: now_micros,
            duration_micros: 0,
            ..self
        }
    }

    /// The state after a flush: no work left, no frame active, nothing
    /// else touched — in particular no buffer flip.
    pub open spec fn spec_flushed(self) -> Renderer {
        Renderer { next_pixel: self.num_pixels, frame_active: false, ..self }
    }

    /// A coordinator with no pixels, no active frame and an empty scene.
    pub fn new() -> (r: Renderer)
        ensures
            r.wf(),
            r.frame_inv(),
            r.num_pixels == 0,
            r.width == 0,
            r.height == 0,
            r.next_pixel == 0,
            !r.frame_active,
            r.duration_micros == 0,
            r.buffer_0_active,
    {
        Renderer {
            width: 0,
            height: 0,
            num_pixels: 0,
            next_pixel: 0,
            buffer_0: Vec::new(),
            buffer_1: Vec::new(),
            buffer_0_active: true,
            scene: Scene {
                camera: Camera {
                    pos: Vec3 { x: 0, y: 0, z: 0 },
                    right: Vec3 { x: 65536, y: 0, z: 0 },
                    up: Vec3 { x: 0, y: 65536, z: 0 },
                    forward: Vec3 { x: 0, y: 0, z: 65536 },
                },
                spheres: Vec::new(),
                lights: Vec::new(),
                sky_color: Color { r: 0, g: 0, b: 0 },
            },
            frame_active: false,
            start_time_micros: 0,
            duration_micros: 0,
        }
    }

    /// The current frame dimensions.
    pub fn get_size(&self) -> (r: (usize, usize))
        ensures
            r == (self.width, self.height),
    {
        (self.width, self.height)
    }

    /// The duration of the most recently completed frame, in microseconds.
    pub fn get_duration(&self) -> (r: u64)
        ensures
            r == self.duration_micros,
    {
        self.duration_micros
    }

    /// Read access to the front buffer: the last completed frame, never
    /// the one being written.
    pub fn get_buffer(&self) -> (b: &Vec<u32>)
        ensures
            b@ == self.spec_front(),
    {
        if self.buffer_0_active {
            &self.buffer_1
        } else {
            &self.buffer_0
        }
    }

    /// A copy of the current scene snapshot, as each worker takes one at
    /// the start of a frame.
    pub fn snapshot_scene(&self) -> (s: Scene)
        ensures
            s.camera == self.scene.camera,
            s.spheres@ == self.scene.spheres@,
            s.lights@ == self.scene.lights@,
            s.sky_color == self.scene.sky_color,
    {
        Scene {
            camera: self.scene.camera,
            spheres: copy_vec(&self.scene.spheres),
            lights: copy_vec(&self.scene.lights),
            sky_color: self.scene.sky_color,
        }
    }

    /// Resize both buffers, pre-filled with the default color. The height
    /// is clamped to the width. The cursor is forced to the end so any
    /// outstanding work is abandoned, and no frame is active afterward.
    /// Dimensions need at least two pixels per axis (the viewport mapping
    /// divides by `width - 1`) and are capped so index arithmetic stays
    /// well inside the machine integers.
    pub fn set_size(&mut self, width: usize, height: usize)
        requires
            old(self).wf(),
            2 <= width <= 16384,
            2 <= height <= 16384,
        ensures
            final(self).wf(),
            final(self).frame_inv(),
            final(self).width == width,
            final(self).height == (if height > width {
                width
            } else {
                height
            }),
            final(self).num_pixels == width * final(self).height,
            final(self).next_pixel == final(self).num_pixels,
            !final(self).frame_active,
            final(self).buffer_0_active == old(self).buffer_0_active,
            final(self).duration_micros == old(self).duration_micros,
            final(self).scene == old(self).scene,
            forall|j: int|
                0 <= j < final(self).num_pixels ==> final(self).spec_front()[j] == DEFAULT_PIXEL
                    && final(self).spec_back()[j] == DEFAULT_PIXEL,
    {
        let h = if height > width {
            width
        } else {
            height
        };
        proof {
            lemma_mul_bound(width as int, h as int, 16384, 16384);
        }
        let n = width * h;
        self.width = width;
        self.height = h;
        self.num_pixels = n;
        self.next_pixel = n;
        self.frame_active = false;
        self.buffer_0 = filled_buffer(n);
        self.buffer_1 = filled_buffer(n);
    }

    /// Begin a frame: reset the cursor, record the start time, clear the
    /// last duration and take a fresh scene snapshot from the built-in
    /// scene generator for the elapsed time.
    pub fn start_render(&mut self, elapsed_micros: u64, options: &SceneOptions, now_micros: u64)
        requires
            old(self).wf(),
        ensures
            final(self).wf(),
            final(self).frame_inv(),
            *final(self) == (Renderer {
                scene: final(self).scene,
                ..old(self).spec_started(now_micros)
            }),
            final(self).scene.sky_color == (Color { r: 9830, g: 16384, b: 22938 }),
            final(self).scene.spheres@ == crate::scene_simple::spec_simple_spheres(),
            final(self).scene.lights@ == crate::scene_simple::spec_simple_lights(),
            final(self).scene.camera == crate::scene_simple::spec_simple_camera(
                elapsed_micros,
                options.speed_1,
            ),
    {
        self.next_pixel = 0;
        self.frame_active = true;
        self.start_time_micros = now_micros;
        self.duration_micros = 0;
        crate::scene_simple::populate_scene(&mut self.scene, elapsed_micros, options);
    }

    /// Begin a frame on a scene provided by the caller (an external scene
    /// generator).
    pub fn start_render_with(&mut self, scene: Scene, now_micros: u64)
        requires
            old(self).wf(),
        ensures
            final(self).wf(),
            final(self).frame_inv(),
            *final(self) == (Renderer { scene, ..old(self).spec_started(now_micros) }),
    {
        self.next_pixel = 0;
        self.frame_active = true;
        self.start_time_micros = now_micros;
        self.duration_micros = 0;
        self.scene = scene;
    }

    /// Claim the next span of pixels: from the cursor up to `RENDER_SPAN`
    /// pixels, clamped to the pixel count, advancing the cursor to the
    /// span's end. `None` when no work is left. A span whose end reaches
    /// the pixel count makes its claimer the finisher of the frame.
    pub fn claim_next(&mut self) -> (span: Option<(usize, usize)>)
        requires
            old(self).wf(),
        ensures
            final(self).wf(),
            match span {
                None => *final(self) == *old(self) && old(self).next_pixel == old(self).num_pixels,
                Some((s, e)) => {
                    &&& old(self).next_pixel < old(self).num_pixels
                    &&& s == old(self).next_pixel
                    &&& e == (if s + RENDER_SPAN <= old(self).num_pixels {
                        s + RENDER_SPAN
                    } else {
                        old(self).num_pixels as int
                    })
                    &&& s < e <= old(self).num_pixels
                    &&& (s as int, e as int) == spec_span_at(
                        old(self).next_pixel as int,
                        old(self).num_pixels as int,
                    )
                    &&& *final(self) == (Renderer { next_pixel: e, ..*old(self) })
                },
            },
    {
        if self.next_pixel >= self.num_pixels {
            return None;
        }
        let s = self.next_pixel;
        let e = if self.num_pixels - s >= RENDER_SPAN {
            s + RENDER_SPAN
        } else {
            self.num_pixels
        };
        self.next_pixel = e;
        Some((s, e))
    }

    /// Copy a rendered span into the back buffer. Nothing outside the span
    /// changes, and the front buffer is never touched.
    pub fn write_span(&mut self, start: usize, pixels: &Vec<u32>)
        requires
            old(self).wf(),
            start + pixels@.len() <= old(self).num_pixels,
        ensures
            final(self).wf(),
            final(self).spec_front() == old(self).spec_front(),
            final(self).spec_back().len() == old(self).num_pixels,
            forall|j: int|
                0 <= j < old(self).num_pixels ==> #[trigger] final(self).spec_back()[j] == (if start
                    <= j < start + pixels@.len() {
                    pixels@[j - start]
                } else {
                    old(self).spec_back()[j]
                }),
            *final(self) == (Renderer {
                buffer_0: final(self).buffer_0,
                buffer_1: final(self).buffer_1,
                ..*old(self)
            }),
    {
        let mut k: usize = 0;
        while k < pixels.len()
            invariant
                k <= pixels@.len(),
                start + pixels@.len() <= old(self).num_pixels,
                self.wf(),
                self.num_pixels == old(self).num_pixels,
                self.buffer_0_active == old(self).buffer_0_active,
                self.spec_front() == old(self).spec_front(),
                forall|j: int|
                    0 <= j < self.num_pixels ==> #[trigger] self.spec_back()[j] == (if start <= j
                        < start + k {
                        pixels@[j - start]
                    } else {
                        old(self).spec_back()[j]
                    }),
                *self == (Renderer { buffer_0: self.buffer_0, buffer_1: self.buffer_1, ..*old(self) }),
            decreases pixels@.len() - k,
        {
            let ghost prev = *self;
            if self.buffer_0_active {
                self.buffer_0.set(start + k, pixels[k]);
            } else {
                self.buffer_1.set(start + k, pixels[k]);
            }
            proof {
                assert forall|j: int| 0 <= j < self.num_pixels implies #[trigger] self.spec_back()[j]
                    == (if start <= j < start + k + 1 {
                    pixels@[j - start]
                } else {
                    old(self).spec_back()[j]
                }) by {
                    if j != start + k {
                        assert(self.spec_back()[j] == prev.spec_back()[j]);
                    }
                };
            }
            k = k + 1;
        }
    }

    /// Complete the frame: swap the front and back buffers, record the
    /// frame duration, and leave the frame inactive. Only the worker whose
    /// span reached the last pixel calls this, exactly once per frame.
    pub fn finish_frame(&mut self, now_micros: u64)
        requires
            old(self).wf(),
            old(self).frame_active,
            old(self).next_pixel == old(self).num_pixels,
        ensures
            final(self).wf(),
            final(self).frame_inv(),
            final(self).buffer_0_active == !old(self).buffer_0_active,
            final(self).spec_front() == old(self).spec_back(),
            final(self).spec_back() == old(self).spec_front(),
            !final(self).frame_active,
            final(self).duration_micros == (if now_micros >= old(self).start_time_micros {
                (now_micros - old(self).start_time_micros) as u64
            } else {
                0
            }),
            *final(self) == (Renderer {
                buffer_0_active: !old(self).buffer_0_active,
                frame_active: false,
                duration_micros: final(self).duration_micros,
                ..*old(self)
            }),
    {
        self.buffer_0_active = !self.buffer_0_active;
        self.duration_micros = if now_micros >= self.start_time_micros {
            now_micros - self.start_time_micros
        } else {
            0
        };
        self.frame_active = false;
    }

    /// Drive the current frame to completion (or abandon it).
    ///
    /// With `flush` the cursor is forced to the end and the frame is
    /// abandoned: nothing more is rendered, no buffer flip happens, and
    /// the published frame stays whatever it was — the state is exactly
    /// [`Renderer::spec_flushed`]. Without `flush`, every remaining span
    /// is rendered and the frame is completed: afterward the front buffer
    /// holds exactly the rendered frame, pixel for pixel, and the buffers
    /// have swapped roles.
    pub fn wait_for_completion(&mut self, flush: bool, now_micros: u64)
        requires
            old(self).wf(),
            old(self).frame_inv(),
        ensures
            final(self).wf(),
            final(self).frame_inv(),
            flush ==> *final(self) == old(self).spec_flushed(),
            !flush && !old(self).frame_active ==> *final(self) == *old(self),
            !flush && old(self).frame_active ==> {
                &&& !final(self).frame_active
                &&& final(self).next_pixel == final(self).num_pixels
                &&& final(self).buffer_0_active == !old(self).buffer_0_active
                &&& final(self).spec_front() == Seq::new(
                    old(self).num_pixels as nat,
                    |j: int|
                        spec_render_pixel(
                            old(self).scene,
                            old(self).width as int,
                            old(self).height as int,
                            j,
                        ),
                )
                &&& final(self).spec_back() == old(self).spec_front()
                &&& final(self).width == old(self).width
                &&& final(self).height == old(self).height
                &&& final(self).num_pixels == old(self).num_pixels
                &&& final(self).scene == old(self).scene
                &&& final(self).duration_micros == (if now_micros
                    >= old(self).start_time_micros {
                    (now_micros - old(self).start_time_micros) as u64
                } else {
                    0
                })
            },
    {
        if flush {
            self.next_pixel = self.num_pixels;
            self.frame_active = false;
        } else if self.frame_active {
            while self.next_pixel < self.num_pixels
                invariant
                    self.wf(),
                    self.frame_active,
                    self.frame_inv(),
                    self.width == old(self).width,
                    self.height == old(self).height,
                    self.num_pixels == old(self).num_pixels,
                    self.scene == old(self).scene,
                    self.start_time_micros == old(self).start_time_micros,
                    self.buffer_0_active == old(self).buffer_0_active,
                    self.spec_front() == old(self).spec_front(),
                decreases self.num_pixels - self.next_pixel,
            {
                self.render_step();
            }
            proof {
                assert(self.spec_back() =~= Seq::new(
                    self.num_pixels as nat,
                    |j: int|
                        spec_render_pixel(self.scene, self.width as int, self.height as int, j),
                ));
            }
            self.finish_frame(now_micros);
        }
    }

    /// Claim one span, render it into the back buffer, and report whether
    /// any work was claimed. The claimed span is exactly `[old cursor,
    /// min(old cursor + RENDER_SPAN, pixel count))`; nothing outside it
    /// changes.
    pub fn render_step(&mut self) -> (did: bool)
        requires
            old(self).wf(),
            old(self).frame_inv(),
        ensures
            final(self).wf(),
            final(self).frame_inv(),
            did == (old(self).next_pixel < old(self).num_pixels),
            !did ==> *final(self) == *old(self),
            did ==> {
                &&& final(self).next_pixel == (if old(self).next_pixel + RENDER_SPAN <= old(
                    self,
                ).num_pixels {
                    old(self).next_pixel + RENDER_SPAN
                } else {
                    old(self).num_pixels as int
                })
                &&& final(self).spec_front() == old(self).spec_front()
                &&& forall|j: int|
                    0 <= j < old(self).num_pixels ==> #[trigger] final(self).spec_back()[j] == (if old(
                        self,
                    ).next_pixel <= j < final(self).next_pixel {
                        spec_render_pixel(
                            old(self).scene,
                            old(self).width as int,
                            old(self).height as int,
                            j,
                        )
                    } else {
                        old(self).spec_back()[j]
                    })
                &&& *final(self) == (Renderer {
                    next_pixel: final(self).next_pixel,
                    buffer_0: final(self).buffer_0,
                    buffer_1: final(self).buffer_1,
                    ..*old(self)
                })
            },
    {
        let span = self.claim_next();
        match span {
            None => false,
            Some((s, e)) => {
                let w = self.width;
                let h = self.height;
                let ghost mid = *self;
                let scratch = render_span(&self.scene, w, h, s, e);
                self.write_span(s, &scratch);
                proof {
                    let w0 = old(self).width as int;
                    let h0 = old(self).height as int;
                    assert(mid.spec_back() == old(self).spec_back());
                    if old(self).frame_active {
                        assert forall|j: int| 0 <= j < self.next_pixel implies #[trigger] self
                            .spec_back()[j] == spec_render_pixel(self.scene, w0, h0, j) by {
                            if j < s {
                                assert(self.spec_back()[j] == mid.spec_back()[j]);
                                assert(old(self).spec_back()[j] == spec_render_pixel(
                                    old(self).scene,
                                    w0,
                                    h0,
                                    j,
                                ));
                            } else {
                                assert(self.spec_back()[j] == scratch@[j - s]);
                            }
                        };
                    }
                }
                true
            },
        }
    }
}

/// The span the claim protocol hands out when the cursor stands at
/// `cursor`: up to `RENDER_SPAN` pixels, clamped to the pixel count.
pub open spec fn spec_span_at(cursor: int, total: int) -> (int, int) {
    (
        cursor,
        if cursor + RENDER_SPAN <= total {
            cursor + RENDER_SPAN
        } else {
            total
        },
    )
}

/// Every span a frame hands out from `cursor` on, in claim order.
pub open spec fn spec_spans_from(cursor: int, total: int) -> Seq<(int, int)>
    decreases total - cursor,
{
    if cursor < 0 || cursor >= total {
        Seq::empty()
    } else {
        seq![spec_span_at(cursor, total)].add(
            spec_spans_from(spec_span_at(cursor, total).1, total),
        )
    }
}

/// The spans of one frame tile the pixel range: the first begins at the
/// starting cursor, each later span begins exactly where the one before it
/// ended, every span is nonempty, and the last ends exactly at the pixel
/// count. So the worker pool writes every pixel of the frame exactly once:
/// no pixel is left out and no pixel belongs to two spans.
pub proof fn lemma_spans_tile(cursor: int, total: int)
    requires
        0 <= cursor <= total,
    ensures
        ({
            let spans = spec_spans_from(cursor, total);
            &&& (spans.len() == 0 <==> cursor == total)
            &&& spans.len() > 0 ==> spans[0].0 == cursor
            &&& spans.len() > 0 ==> spans[spans.len() - 1].1 == total
            &&& forall|i: int| 0 <= i < spans.len() ==> #[trigger] spans[i].0 < spans[i].1
            &&& forall|i: int|
                0 <= i < spans.len() - 1 ==> #[trigger] spans[i].1 == spans[i + 1].0
        }),
    decreases total - cursor,
{
    if cursor < total {
        let first = spec_span_at(cursor, total);
        let rest = spec_spans_from(first.1, total);
        lemma_spans_tile(first.1, total);
        let spans = spec_spans_from(cursor, total);
        assert(spans == seq![first].add(rest));
        assert forall|i: int| 0 <= i < spans.len() implies #[trigger] spans[i].0 < spans[i].1 by {
            if i > 0 {
                assert(spans[i] == rest[i - 1]);
            }
        };
        assert forall|i: int| 0 <= i < spans.len() - 1 implies #[trigger] spans[i].1 == spans[i
            + 1].0 by {
            if i > 0 {
                assert(spans[i] == rest[i - 1]);
                assert(spans[i + 1] == rest[i]);
            } else {
                if rest.len() > 0 {
                    assert(spans[1] == rest[0]);
                }
            }
        };
    }
}

/// Starting a render and then immediately waiting with `flush` set cannot
/// hang and publishes nothing: the cursor sits at the end (so no worker
/// can claim a span), no frame is active, no buffer flip has happened,
/// and neither buffer's contents changed.
pub proof fn lemma_start_then_flush(s0: Renderer, s1: Renderer, s2: Renderer, now_micros: u64)
    requires
        s0.wf(),
        s1 == (Renderer { scene: s1.scene, ..s0.spec_started(now_micros) }),
        s2 == s1.spec_flushed(),
    ensures
        s2.next_pixel == s2.num_pixels,
        !s2.frame_active,
        s2.buffer_0_active == s0.buffer_0_active,
        s2.spec_front() == s0.spec_front(),
        s2.spec_back() == s0.spec_back(),
{
}

} // verus!
