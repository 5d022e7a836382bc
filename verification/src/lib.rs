//! Procedural face animation engine for a mirrored dual-panel LED display.
//!
//! The engine synthesizes an animated face from parametric curves each frame:
//! a registry of pluggable face elements (eyes, mouth, nose), a shared
//! animation state they read and write, a blink/breathing state machine, and
//! a procedural color stage that turns "is this pixel inside the shape"
//! decisions into physical pixel writes, mirrored onto a second panel.
//!
//! All continuous quantities (curve coordinates, brightness, audio levels,
//! mouth opening) are carried as fixed-point integers in hundredths of a
//! unit ("centi-units"), so every computation here is exact integer
//! arithmetic. The caller converts measurements at the boundary.

use vstd::prelude::*;

pub mod canvas;
pub mod color;
pub mod eyes;
pub mod face;
pub mod gamepad;
pub mod mouth;
pub mod nose;
pub mod raster;
pub mod state;
pub mod video;

verus! {

/// Width of one physical panel in pixels; the display is two such panels.
pub const PANEL_WIDTH: i32 = 64;

/// Height of the display in pixels.
pub const PANEL_HEIGHT: i32 = 32;

} // verus!
