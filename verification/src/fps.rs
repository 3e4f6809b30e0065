//! A frame-rate counter fed with timestamps and frame durations.

use vstd::prelude::*;

verus! {

/// Recompute the rate only this often, in microseconds.
pub const FPS_REFRESH_MICROS: u64 = 250_000;

/// Saturating addition on `u64`.
pub open spec fn spec_u64_sat_add(a: u64, b: u64) -> u64 {
    if a + b > u64::MAX {
        u64::MAX
    } else {
        (a + b) as u64
    }
}

/// Saturating increment of a frame count.
pub open spec fn spec_count_inc(n: usize) -> usize {
    if n < usize::MAX {
        (n + 1) as usize
    } else {
        n
    }
}

/// The rate reported for `frames` frames that together took `micros`
/// microseconds, as fixed-point frames per second (65536 = 1 fps). A zero
/// total saturates.
pub open spec fn spec_fps_value(frames: usize, micros: u64) -> u64 {
    if micros == 0 {
        u64::MAX
    } else if frames * 1_000_000 * 65536 / (micros as int) > u64::MAX {
        u64::MAX
    } else {
        (frames * 1_000_000 * 65536 / (micros as int)) as u64
    }
}

/// Accumulates frame durations between refreshes of the displayed rate.
pub struct FPSCounter {
    /// When the rate was last recomputed; `None` before the first frame.
    pub last_update_time: Option<u64>,
    /// Total rendering time of the counted frames, in microseconds.
    pub durations_micros: u64,
    /// How many frames have been counted since the last refresh.
    pub num_frames: usize,
}

impl FPSCounter {
    /// A counter with nothing accumulated.
    pub fn new() -> (r: FPSCounter)
        ensures
            r.last_update_time is None,
            r.durations_micros == 0,
            r.num_frames == 0,
    {
        FPSCounter { last_update_time: None, durations_micros: 0, num_frames: 0 }
    }

    /// Forget everything accumulated.
    pub fn reset(&mut self)
        ensures
            final(self).last_update_time is None,
            final(self).durations_micros == 0,
            final(self).num_frames == 0,
    {
        *self = FPSCounter { last_update_time: None, durations_micros: 0, num_frames: 0 };
    }

    /// Count one frame that took `frame_duration_micros`. Returns the
    /// current rate in fixed-point frames per second once per refresh
    /// period (and resets the accumulators), `None` otherwise.
    pub fn new_frame(&mut self, now_micros: u64, frame_duration_micros: u64) -> (fps: Option<u64>)
        ensures
            ({
                let frames = spec_count_inc(old(self).num_frames);
                let total = spec_u64_sat_add(old(self).durations_micros, frame_duration_micros);
                match old(self).last_update_time {
                    None => {
                        &&& fps is None
                        &&& final(self).last_update_time == Some(now_micros)
                        &&& final(self).durations_micros == total
                        &&& final(self).num_frames == frames
                    },
                    Some(last) => {
                        let waited = if now_micros >= last {
                            (now_micros - last) as u64
                        } else {
                            0
                        };
                        if waited < FPS_REFRESH_MICROS {
                            &&& fps is None
                            &&& final(self).last_update_time == Some(last)
                            &&& final(self).durations_micros == total
                            &&& final(self).num_frames == frames
                        } else {
                            &&& fps == Some(spec_fps_value(frames, total))
                            &&& final(self).last_update_time == Some(now_micros)
                            &&& final(self).durations_micros == 0
                            &&& final(self).num_frames == 0
                        }
                    },
                }
            }),
    {
        if self.num_frames < usize::MAX {
            self.num_frames = self.num_frames + 1;
        }
        self.durations_micros = if self.durations_micros <= u64::MAX - frame_duration_micros {
            self.durations_micros + frame_duration_micros
        } else {
            u64::MAX
        };
        match self.last_update_time {
            None => {
                self.last_update_time = Some(now_micros);
                None
            },
            Some(last) => {
                let waited = if now_micros >= last {
                    now_micros - last
                } else {
                    0
                };
                if waited < FPS_REFRESH_MICROS {
                    None
                } else {
                    let fps = fps_value(self.num_frames, self.durations_micros);
                    self.last_update_time = Some(now_micros);
                    self.durations_micros = 0;
                    self.num_frames = 0;
                    Some(fps)
                }
            },
        }
    }
}

/// Whether `rounds` frames rendered in `total_micros` microseconds
/// together reach `target_fps` frames per second: exactly when
/// `rounds * 1_000_000 >= target_fps * total_micros`.
pub fn rate_meets_target(total_micros: u64, rounds: u64, target_fps: u64) -> (r: bool)
    ensures
        r == (rounds * 1_000_000 >= target_fps * total_micros),
{
    proof {
        crate::fixed::lemma_mul_bound(
            rounds as int,
            1_000_000,
            0xffff_ffff_ffff_ffff,
            1_000_000,
        );
        crate::fixed::lemma_mul_bound(
            target_fps as int,
            total_micros as int,
            0xffff_ffff_ffff_ffff,
            0xffff_ffff_ffff_ffff,
        );
    }
    (rounds as u128) * 1_000_000 >= (target_fps as u128) * (total_micros as u128)
}

/// Compute [`spec_fps_value`].
fn fps_value(frames: usize, micros: u64) -> (r: u64)
    ensures
        r == spec_fps_value(frames, micros),
{
    if micros == 0 {
        return u64::MAX;
    }
    proof {
        crate::fixed::lemma_mul_bound(frames as int, 65_536_000_000, 0xffff_ffff_ffff_ffff, 65_536_000_000);
    }
    let n: u128 = (frames as u128) * 65_536_000_000;
    let q: u128 = n / (micros as u128);
    proof {
        assert(frames * 1_000_000 * 65536 == frames * 65_536_000_000) by (nonlinear_arith);
    }
    if q > 0xffff_ffff_ffff_ffff {
        u64::MAX
    } else {
        q as u64
    }
}

} // verus!
