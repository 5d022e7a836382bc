//! Heart eyes: a 24 x 16 heart bitmap centered on the eye position. Like
//! the circle and cross variants, heart eyes do not blink: the full
//! bitmap is drawn every frame.

use vstd::prelude::*;
use crate::canvas::{Canvas, PixelDrawer, PixelWrite};
use crate::eyes::EyePosition;
use crate::raster::{div_trunc, raster_scan, spec_div_trunc, spec_rect_writes, DrawCmd, Raster};
use crate::state::{RenderContext, SharedFaceState};

verus! {

/// Width of the heart bitmap in pixels.
pub const HEART_WIDTH: i32 = 24;

/// Height of the heart bitmap in pixels.
pub const HEART_HEIGHT: i32 = 16;

/// Whether the heart bitmap is lit at (`row`, `col`), row 0 being the
/// two-lobed top of the heart. Every row is one or two runs of lit pixels.
pub open spec fn spec_heart_pattern(row: int, col: int) -> bool {
    if row == 0 { (3 <= col <= 8) || (15 <= col <= 20) }
    else if row == 1 { (2 <= col <= 9) || (14 <= col <= 21) }
    else if row == 2 { (1 <= col <= 11) || (13 <= col <= 22) }
    else if row == 3 { 1 <= col <= 22 }
    else if row == 4 { 1 <= col <= 22 }
    else if row == 5 { 2 <= col <= 21 }
    else if row == 6 { 3 <= col <= 20 }
    else if row == 7 { 4 <= col <= 19 }
    else if row == 8 { 5 <= col <= 18 }
    else if row == 9 { 6 <= col <= 17 }
    else if row == 10 { 7 <= col <= 16 }
    else if row == 11 { 8 <= col <= 15 }
    else if row == 12 { 9 <= col <= 14 }
    else if row == 13 { 10 <= col <= 13 }
    else if row == 14 { 11 <= col <= 12 }
    else if row == 15 { col == 12 }
    else { false }
}

/// Whether the heart bitmap is lit at (`row`, `col`).
pub fn heart_pattern(row: i32, col: i32) -> (r: bool)
    ensures
        r == spec_heart_pattern(row as int, col as int),
{
    if row == 0 { (3 <= col && col <= 8) || (15 <= col && col <= 20) }
    else if row == 1 { (2 <= col && col <= 9) || (14 <= col && col <= 21) }
    else if row == 2 { (1 <= col && col <= 11) || (13 <= col && col <= 22) }
    else if row == 3 { 1 <= col && col <= 22 }
    else if row == 4 { 1 <= col && col <= 22 }
    else if row == 5 { 2 <= col && col <= 21 }
    else if row == 6 { 3 <= col && col <= 20 }
    else if row == 7 { 4 <= col && col <= 19 }
    else if row == 8 { 5 <= col && col <= 18 }
    else if row == 9 { 6 <= col && col <= 17 }
    else if row == 10 { 7 <= col && col <= 16 }
    else if row == 11 { 8 <= col && col <= 15 }
    else if row == 12 { 9 <= col && col <= 14 }
    else if row == 13 { 10 <= col && col <= 13 }
    else if row == 14 { 11 <= col && col <= 12 }
    else if row == 15 { col == 12 }
    else { false }
}

/// Heart-shaped eyes: a static bitmap, never blinking.
#[derive(Debug, Clone, Copy, PartialEq, Eq, Structural)]
pub struct HeartEyes {
    pub position: EyePosition,
}

impl HeartEyes {
    /// Heart eyes at the stock position.
    pub fn new() -> (r: Self)
        ensures
            r == (HeartEyes { position: EyePosition { center_x: 1300, center_y: 2200 } }),
    {
        HeartEyes { position: EyePosition { center_x: 1300, center_y: 2200 } }
    }

    /// Heart eyes at a chosen position.
    pub fn with_position(position: EyePosition) -> (r: Self)
        ensures
            r == (HeartEyes { position }),
    {
        HeartEyes { position }
    }

    /// The element's display name.
    pub fn name(&self) -> (r: &'static str)
        ensures
            r@ == "Heart Eyes"@,
    {
        "Heart Eyes"
    }

    /// A short description for status displays.
    pub fn description(&self) -> (r: &'static str)
        ensures
            r@ == "Heart-shaped eyes, the smitten expression"@,
    {
        "Heart-shaped eyes, the smitten expression"
    }

    /// Hearts never blink and read no lid values: updating changes
    /// neither the element nor the shared state.
    pub fn update(&mut self, shared_state: &mut SharedFaceState)
        ensures
            *final(self) == *old(self),
            *final(shared_state) == *old(shared_state),
    {
    }

    /// Everything this eye draws in one frame, in bitmap order: rows top
    /// to bottom, columns left to right. The full bitmap, every frame.
    pub open spec fn spec_render_writes(self, ctx: RenderContext, ss: SharedFaceState) -> Seq<
        PixelWrite,
    > {
        spec_rect_writes(
            (|i: int, j: int| self.spec_cell(ctx, ss, i, j)),
            ctx.brightness as int,
            ctx.palette,
            HEART_HEIGHT as int,
            HEART_WIDTH as int,
        )
    }

    /// Draw the heart.
    pub fn render(
        &self,
        canvas: &mut Canvas,
        context: &RenderContext,
        shared_state: &SharedFaceState,
        draw_pixel_fn: &PixelDrawer,
    )
        requires
            self.inv(),
            context.wf(),
            shared_state.wf(),
        ensures
            final(canvas)@ == old(canvas)@ + self.spec_render_writes(*context, *shared_state),
    {
        raster_scan(self, canvas, context, shared_state, draw_pixel_fn, HEART_HEIGHT, HEART_WIDTH);
    }
}

impl Raster for HeartEyes {
    open spec fn inv(&self) -> bool {
        self.position.wf()
    }

    open spec fn spec_cell(&self, ctx: RenderContext, ss: SharedFaceState, i: int, j: int) -> Option<
        DrawCmd,
    > {
        let start_x = spec_div_trunc(self.position.center_x + ctx.offset_x - 1200, 100);
        let start_y = spec_div_trunc(self.position.center_y + ctx.offset_y - 800, 100);
        let x = start_x + j;
        let y = start_y + i;
        if spec_heart_pattern(15 - i, j) && 1 <= x <= 64 && 0 <= y <= 32 {
            Option::Some(DrawCmd {
                bright: 25500,
                color_index: (ctx.time_counter + 500 * x + 500 * y) as i64,
                x: x as i32,
                y: y as i32,
            })
        } else {
            Option::None
        }
    }

    fn cell(&self, ctx: &RenderContext, ss: &SharedFaceState, i: i32, j: i32) -> (r: Option<
        DrawCmd,
    >) {
        // The top-left corner rounds toward zero, so a heart centered
        // left of the panel shifts the same way a whole-pixel cast of
        // its centi-unit position would.
        let start_x: i64 = div_trunc(self.position.center_x + ctx.offset_x - 1200, 100);
        let start_y: i64 = div_trunc(self.position.center_y + ctx.offset_y - 800, 100);
        let x: i64 = start_x + j as i64;
        let y: i64 = start_y + i as i64;
        if heart_pattern(15 - i, j) && 1 <= x && x <= 64 && 0 <= y && y <= 32 {
            Option::Some(DrawCmd {
                bright: 25500,
                color_index: ctx.time_counter + 500 * x + 500 * y,
                x: x as i32,
                y: y as i32,
            })
        } else {
            Option::None
        }
    }
}

} // verus!
