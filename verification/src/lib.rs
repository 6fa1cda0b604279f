//! Animation engine for a rectangular LED matrix.
//!
//! The crate models frames as rectangular grids of per-pixel brightness
//! levels, offers a glyph lookup that renders single characters as 5x5
//! frames, and drives a time-paced animation over a sequence of source
//! frames: either a static display of each frame in turn or a continuous
//! horizontal slide. Time is measured in abstract timer ticks supplied by
//! the caller, so the engine itself is pure state-transition logic.

pub mod animation;
pub mod brightness;
pub mod fonts;
pub mod frame;

pub use animation::{
    lemma_exact_applies_before_done, sched_apply_count, sched_done_in, Animation, AnimationData,
    AnimationEffect, AnimationError, AnimationState,
};
pub use brightness::{Brightness, BrightnessError};
pub use fonts::{ascii_frame, char_frame, frame_5x5, CharFrame, FontError};
pub use frame::{Frame, FrameError};
