//! The draw buffer and the mirrored pixel drawer.
//!
//! Elements never touch the display directly: they draw through
//! `PixelDrawer::draw`, which flips the logical coordinates vertically,
//! clips writes that land outside the panel, colors the pixel through the
//! shimmer stage, and duplicates every write onto the horizontally mirrored
//! second panel. The `Canvas` records the resulting physical writes in
//! order; the caller flushes them to the display hardware.

use vstd::prelude::*;
use crate::color::{ColorPalette, Rgb, get_shimmer_color, spec_shimmer};
use crate::{PANEL_HEIGHT, PANEL_WIDTH};

verus! {

/// One physical pixel write: panel coordinates and the stored color.
#[derive(Debug, Clone, Copy, PartialEq, Eq, Structural)]
pub struct PixelWrite {
    pub x: i32,
    pub y: i32,
    pub color: Rgb,
}

/// The per-frame draw buffer: an ordered record of physical pixel writes.
pub struct Canvas {
    writes: Vec<PixelWrite>,
}

impl View for Canvas {
    type V = Seq<PixelWrite>;

    closed spec fn view(&self) -> Seq<PixelWrite> {
        self.writes@
    }
}

impl Canvas {
    /// An empty draw buffer.
    pub fn new() -> (r: Canvas)
        ensures
            r@ == Seq::<PixelWrite>::empty(),
    {
        Canvas { writes: Vec::new() }
    }

    /// Drop every recorded write, as the display clear does at the start
    /// of a frame.
    pub fn clear(&mut self)
        ensures
            final(self)@ == Seq::<PixelWrite>::empty(),
    {
        self.writes.clear();
    }

    /// The recorded writes, oldest first.
    pub fn writes(&self) -> (r: &Vec<PixelWrite>)
        ensures
            r@ == self@,
    {
        &self.writes
    }

    /// Append one write.
    fn push(&mut self, w: PixelWrite)
        ensures
            final(self)@ == old(self)@.push(w),
    {
        self.writes.push(w);
    }
}

/// The writes one `PixelDrawer::draw` call appends: none when the
/// vertically flipped coordinate falls outside the panel, otherwise the
/// shimmer-colored pixel on the left panel followed by its horizontal
/// mirror on the right panel.
pub open spec fn spec_draw_writes(
    bright: int,
    color_index: int,
    x: int,
    y: int,
    brightness: int,
    palette: ColorPalette,
) -> Seq<PixelWrite> {
    let fy = PANEL_HEIGHT - 1 - y;
    if x < 0 || x >= PANEL_WIDTH || fy < 0 || fy >= PANEL_HEIGHT {
        Seq::empty()
    } else {
        let color = spec_shimmer(color_index, bright * brightness / 100, palette);
        let left = PixelWrite { x: x as i32, y: fy as i32, color };
        let mx = 2 * PANEL_WIDTH - 1 - x;
        if PANEL_WIDTH <= mx < 2 * PANEL_WIDTH {
            seq![left, PixelWrite { x: mx as i32, y: fy as i32, color }]
        } else {
            seq![left]
        }
    }
}

/// Draws pixels with the fixed panel geometry applied.
pub struct PixelDrawer;

impl PixelDrawer {
    /// Write one logical pixel.
    ///
    /// The logical coordinates are flipped vertically onto the panel;
    /// out-of-range writes are discarded silently. `bright` is the
    /// element's local brightness in centi-units of [0, 255]; `brightness`
    /// is the global factor in centi-units of [0, 1]; their product picks
    /// the shimmer intensity. An in-range write always lands on both
    /// panels: the mirror column `2 * PANEL_WIDTH - 1 - x` is in range
    /// exactly when `x` is.
    pub fn draw(
        &self,
        canvas: &mut Canvas,
        bright: i64,
        color_index: i64,
        x: i32,
        y: i32,
        brightness: i64,
        palette: ColorPalette,
    )
        requires
            0 <= bright <= 25500,
            0 <= brightness <= 100,
            -1_000_000_000_000 <= color_index <= 1_000_000_000_000,
        ensures
            final(canvas)@ == old(canvas)@ + spec_draw_writes(
                bright as int,
                color_index as int,
                x as int,
                y as int,
                brightness as int,
                palette,
            ),
    {
        let ghost w = spec_draw_writes(
            bright as int,
            color_index as int,
            x as int,
            y as int,
            brightness as int,
            palette,
        );
        let fy: i64 = PANEL_HEIGHT as i64 - 1 - y as i64;
        if x < 0 || x >= PANEL_WIDTH || fy < 0 || fy >= PANEL_HEIGHT as i64 {
            assert(canvas@ =~= canvas@ + w);
            return;
        }
        proof {
            assert(0 <= bright * brightness <= 2_550_000) by (nonlinear_arith)
                requires
                    0 <= bright <= 25500,
                    0 <= brightness <= 100;
        }
        let adjusted = bright * brightness / 100;
        let color = get_shimmer_color(color_index, adjusted, palette);
        let left = PixelWrite { x, y: fy as i32, color };
        canvas.push(left);
        let mx: i64 = 2 * PANEL_WIDTH as i64 - 1 - x as i64;
        if PANEL_WIDTH as i64 <= mx && mx < 2 * PANEL_WIDTH as i64 {
            canvas.push(PixelWrite { x: mx as i32, y: fy as i32, color });
            assert(canvas@ =~= old(canvas)@ + w);
        } else {
            assert(canvas@ =~= old(canvas)@ + w);
        }
    }
}

} // verus!
