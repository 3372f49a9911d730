//! Scene-timeline composition and animation-evaluation core for a
//! linear video: places an ordered list of scenes with crossfade
//! overlaps on one global frame axis, evaluates keyframe animations
//! (linear and damped-spring easing) at any playback time, resolves
//! per-scene audio cues to absolute frame windows, and finds the
//! currently spoken word for subtitle highlighting.
//!
//! All times are integers: milliseconds for seconds-valued time,
//! frame counts for the global axis, and thousandths of a unit for
//! animated values, so every computation here is exact.
use vstd::prelude::*;

pub mod audio;
pub mod cache;
pub mod cues;
pub mod easing;
pub mod keyframes;
pub mod scenes;
pub mod sequencer;
pub mod video;

verus! {

/// Frames per second of the produced video.
pub const FPS: u32 = 60;

/// Converts a time in milliseconds to a whole number of frames at the
/// given frame rate, truncating toward zero.
pub fn millis_to_frames(ms: u32, fps: u32) -> (r: u64)
    ensures
        r == (ms * fps) / 1000,
{
    proof {
        vstd::arithmetic::mul::lemma_mul_upper_bound(ms as int, u32::MAX as int, fps as int, u32::MAX as int);
    }
    ((ms as u64) * (fps as u64)) / 1000
}

/// The scene-local time in milliseconds at which frame number `frame`
/// shows, truncating toward zero.
pub open spec fn millis_of_frames(frames: int, fps: int) -> int {
    (frames * 1000) / fps
}

/// A frame count converted to milliseconds is at most a thousand
/// times the count.
pub proof fn lemma_millis_of_frames_bounds(frames: int, fps: int)
    requires
        0 <= frames,
        1 <= fps,
    ensures
        0 <= millis_of_frames(frames, fps) <= frames * 1000,
{
    vstd::arithmetic::mul::lemma_mul_nonnegative(frames, 1000);
    vstd::arithmetic::div_mod::lemma_div_is_ordered(0, frames * 1000, fps);
    vstd::arithmetic::div_mod::lemma_div_is_ordered_by_denominator(frames * 1000, 1, fps);
    vstd::arithmetic::div_mod::lemma_div_basics_2(frames * 1000);
}

/// Converts a frame count to whole milliseconds at the given frame
/// rate.
pub fn frames_to_millis(frames: u64, fps: u32) -> (r: u64)
    requires
        frames <= 0x1_0000_0000u64,
        1 <= fps,
    ensures
        r == millis_of_frames(frames as int, fps as int),
        r <= frames * 1000,
{
    proof {
        lemma_millis_of_frames_bounds(frames as int, fps as int);
    }
    (frames * 1000) / (fps as u64)
}

} // verus!
