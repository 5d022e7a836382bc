//! Shared animation state and the per-frame render context.
//!
//! `SharedFaceState` is the one blackboard that face elements read and
//! write: mouth elements own the mouth fields, the active eye element owns
//! the eyelid fields. `RenderContext` carries the per-frame, read-only
//! parameters every rasterizer consumes.

use vstd::prelude::*;
use crate::color::ColorPalette;

verus! {

/// Largest mouth opening, in centi-units (6.00).
pub const MOUTH_MAX_OPENING: i64 = 600;

/// Eye top lid parameter when the eye is fully open (9.00).
pub const EYE_TOP_OPEN: i64 = 900;

/// Eye bottom lid parameter when the eye is fully open (1.45).
pub const EYE_BOTTOM_OPEN: i64 = 145;

/// Largest frame-counter value the render pipeline accepts, in
/// centi-units: the shimmer color indices it feeds the pixel drawer must
/// stay within the drawer's range, and this leaves room for every
/// per-pixel offset. One whole unit per frame at 30 frames a second puts
/// the limit over ten years of continuous uptime away.
pub const TIME_COUNTER_LIMIT: i64 = 999_998_000_000;

/// Per-frame, read-only parameters handed to every element's rasterizer.
#[derive(Debug, Clone, Copy, PartialEq, Eq, Structural)]
pub struct RenderContext {
    /// Horizontal head-motion offset in centi-pixels; zero on a static mount.
    pub offset_x: i64,
    /// Vertical head-motion offset in centi-pixels; zero on a static mount.
    pub offset_y: i64,
    /// Shimmer phase seed in centi-units; advances by one whole unit
    /// every frame.
    pub time_counter: i64,
    /// Global brightness in centi-units of [0, 1]: 100 is full brightness.
    pub brightness: i64,
    /// Palette the shimmer stage draws from.
    pub palette: ColorPalette,
}

impl RenderContext {
    /// Ranges every rasterizer relies on: offsets within one panel of
    /// motion, a bounded phase seed, brightness a valid fraction.
    pub open spec fn wf(self) -> bool {
        &&& -10_000 <= self.offset_x <= 10_000
        &&& -10_000 <= self.offset_y <= 10_000
        &&& 0 <= self.time_counter <= TIME_COUNTER_LIMIT
        &&& 0 <= self.brightness <= 100
    }
}

/// The cross-element mutable animation state.
#[derive(Debug, Clone, Copy, PartialEq, Eq, Structural)]
pub struct SharedFaceState {
    /// Mouth aperture in centi-units, clamped to [0, MOUTH_MAX_OPENING].
    pub mouth_opening: i64,
    /// Top eyelid boundary parameter in centi-units; a slope divisor.
    pub eye_top: i64,
    /// Bottom eyelid boundary parameter in centi-units; a slope divisor.
    pub eye_bottom: i64,
    /// Whether the active eye may run its blink animation.
    pub blink_enabled: bool,
    /// When set, an external override drives the mouth and the mouth
    /// element skips its own update.
    pub manual_mouth_active: bool,
}

impl SharedFaceState {
    /// The mouth stays clamped and the lid parameters stay positive (they
    /// divide the eye boundary lines) and bounded.
    pub open spec fn wf(self) -> bool {
        &&& 0 <= self.mouth_opening <= MOUTH_MAX_OPENING
        &&& 0 < self.eye_top <= 1000
        &&& 0 < self.eye_bottom <= 1000
    }

    /// The resting state: eyes open, mouth closed, blinking allowed.
    pub fn new() -> (r: SharedFaceState)
        ensures
            r == (SharedFaceState {
                mouth_opening: 0,
                eye_top: EYE_TOP_OPEN,
                eye_bottom: EYE_BOTTOM_OPEN,
                blink_enabled: true,
                manual_mouth_active: false,
            }),
            r.wf(),
    {
        SharedFaceState {
            mouth_opening: 0,
            eye_top: EYE_TOP_OPEN,
            eye_bottom: EYE_BOTTOM_OPEN,
            blink_enabled: true,
            manual_mouth_active: false,
        }
    }
}

} // verus!
