//! Eye elements: position and blink configuration shared by every variant,
//! and one submodule per eye shape.

use vstd::prelude::*;

pub mod circle;
pub mod cross;
pub mod default;
pub mod heart;

verus! {

/// Eye position, in centi-pixels.
#[derive(Debug, Clone, Copy, PartialEq, Eq, Structural)]
pub struct EyePosition {
    pub center_x: i64,
    pub center_y: i64,
}

impl EyePosition {
    /// A position within a panel's worth of slack around the display.
    pub open spec fn wf(self) -> bool {
        &&& -100_000 <= self.center_x <= 100_000
        &&& -100_000 <= self.center_y <= 100_000
    }
}

impl Default for EyePosition {
    /// The stock eye position: centered at (13.00, 22.00).
    fn default() -> (r: Self)
        ensures
            r == (EyePosition { center_x: 1300, center_y: 2200 }),
    {
        EyePosition { center_x: 1300, center_y: 2200 }
    }
}

/// Blink animation configuration.
#[derive(Debug, Clone, Copy, PartialEq, Eq, Structural)]
pub struct BlinkConfig {
    pub enabled: bool,
    /// Whole seconds between blinks.
    pub interval_secs: i32,
    /// Number of discrete lid positions in the blink animation.
    pub frames: i32,
}

impl Default for BlinkConfig {
    /// The stock blink cadence: one six-frame blink every ten seconds.
    fn default() -> (r: Self)
        ensures
            r == (BlinkConfig { enabled: true, interval_secs: 10, frames: 6 }),
    {
        BlinkConfig { enabled: true, interval_secs: 10, frames: 6 }
    }
}

} // verus!
