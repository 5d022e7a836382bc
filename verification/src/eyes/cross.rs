//! Cross eyes: two diagonal bars forming an X, the dizzy expression.
//! They never blink.

use vstd::prelude::*;
use crate::canvas::{Canvas, PixelDrawer, PixelWrite};
use crate::eyes::EyePosition;
use crate::raster::{raster_scan, spec_rect_writes, DrawCmd, Raster};
use crate::state::{RenderContext, SharedFaceState, EYE_BOTTOM_OPEN, EYE_TOP_OPEN};
use crate::{PANEL_HEIGHT, PANEL_WIDTH};

verus! {

/// One diagonal bar of the X, in the eye's folded coordinates
/// (`dx = |x - center|`, `dy = |y - center|`). The near bar follows
/// `dx == dy`; the far bar follows `dx + dy == 12`.
#[derive(Debug, Clone, Copy, PartialEq, Eq, Structural)]
pub struct CrossStroke {
    pub position: EyePosition,
    pub far: bool,
}

impl Raster for CrossStroke {
    open spec fn inv(&self) -> bool {
        self.position.wf()
    }

    open spec fn spec_cell(&self, ctx: RenderContext, ss: SharedFaceState, i: int, j: int) -> Option<
        DrawCmd,
    > {
        let x = i + 1;
        let rx = 100 * x - (self.position.center_x + ctx.offset_x);
        let ry = 100 * j - (self.position.center_y + ctx.offset_y);
        let dx = if rx >= 0 { rx } else { -rx };
        let dy = if ry >= 0 { ry } else { -ry };
        let v = if self.far { dx + dy - 1200 } else { dx - dy };
        let av = if v >= 0 { v } else { -v };
        if av < 150 && dx < 600 && dy < 600 {
            Option::Some(DrawCmd {
                bright: 25500,
                color_index: (ctx.time_counter + 500 * x + 500 * (j + 1)) as i64,
                x: x as i32,
                y: j as i32,
            })
        } else {
            Option::None
        }
    }

    fn cell(&self, ctx: &RenderContext, ss: &SharedFaceState, i: i32, j: i32) -> (r: Option<
        DrawCmd,
    >) {
        let x: i64 = i as i64 + 1;
        let rx: i64 = 100 * x - (self.position.center_x + ctx.offset_x);
        let ry: i64 = 100 * (j as i64) - (self.position.center_y + ctx.offset_y);
        let dx: i64 = if rx >= 0 { rx } else { -rx };
        let dy: i64 = if ry >= 0 { ry } else { -ry };
        let v: i64 = if self.far { dx + dy - 1200 } else { dx - dy };
        let av: i64 = if v >= 0 { v } else { -v };
        if av < 150 && dx < 600 && dy < 600 {
            Option::Some(DrawCmd {
                bright: 25500,
                color_index: ctx.time_counter + 500 * x + 500 * (j as i64 + 1),
                x: i + 1,
                y: j,
            })
        } else {
            Option::None
        }
    }
}

/// The X: the near diagonal bar drawn first, the far bar second. A pixel
/// where the bars overlap is written by both strokes, in the same color.
#[derive(Debug, Clone, Copy, PartialEq, Eq, Structural)]
pub struct CrossEyes {
    pub position: EyePosition,
}

impl CrossEyes {
    /// Cross eyes at the stock position.
    pub fn new() -> (r: Self)
        ensures
            r == (CrossEyes { position: EyePosition { center_x: 1300, center_y: 2200 } }),
    {
        CrossEyes { position: EyePosition { center_x: 1300, center_y: 2200 } }
    }

    /// Cross eyes at a chosen position.
    pub fn with_position(position: EyePosition) -> (r: Self)
        ensures
            r == (CrossEyes { position }),
    {
        CrossEyes { position }
    }

    /// The element's display name.
    pub fn name(&self) -> (r: &'static str)
        ensures
            r@ == "X Eyes"@,
    {
        "X Eyes"
    }

    /// A short description for status displays.
    pub fn description(&self) -> (r: &'static str)
        ensures
            r@ == "X-shaped eyes, the dizzy expression"@,
    {
        "X-shaped eyes, the dizzy expression"
    }

    /// Position bounds the rasterizer relies on.
    pub open spec fn inv(&self) -> bool {
        self.position.wf()
    }

    /// Crosses never blink: hold the lids at their open positions.
    pub fn update(&mut self, shared_state: &mut SharedFaceState)
        ensures
            *final(self) == *old(self),
            *final(shared_state) == (SharedFaceState {
                eye_top: EYE_TOP_OPEN,
                eye_bottom: EYE_BOTTOM_OPEN,
                ..*old(shared_state)
            }),
    {
        shared_state.eye_top = EYE_TOP_OPEN;
        shared_state.eye_bottom = EYE_BOTTOM_OPEN;
    }

    /// Everything this eye draws in one frame: the near stroke's scan, the
    /// far stroke's scan after it.
    pub open spec fn spec_render_writes(self, ctx: RenderContext, ss: SharedFaceState) -> Seq<
        PixelWrite,
    > {
        let near = CrossStroke { position: self.position, far: false };
        let far = CrossStroke { position: self.position, far: true };
        spec_rect_writes(
            (|i: int, j: int| near.spec_cell(ctx, ss, i, j)),
            ctx.brightness as int,
            ctx.palette,
            PANEL_WIDTH as int,
            PANEL_HEIGHT as int + 1,
        ) + spec_rect_writes(
            (|i: int, j: int| far.spec_cell(ctx, ss, i, j)),
            ctx.brightness as int,
            ctx.palette,
            PANEL_WIDTH as int,
            PANEL_HEIGHT as int + 1,
        )
    }

    /// Draw the X.
    pub fn render(
        &self,
        canvas: &mut Canvas,
        context: &RenderContext,
        shared_state: &SharedFaceState,
        draw_pixel_fn: &PixelDrawer,
    )
        requires
            self.inv(),
            context.wf(),
            shared_state.wf(),
        ensures
            final(canvas)@ == old(canvas)@ + self.spec_render_writes(*context, *shared_state),
    {
        let near = CrossStroke { position: self.position, far: false };
        let far = CrossStroke { position: self.position, far: true };
        raster_scan(&near, canvas, context, shared_state, draw_pixel_fn, PANEL_WIDTH, PANEL_HEIGHT + 1);
        raster_scan(&far, canvas, context, shared_state, draw_pixel_fn, PANEL_WIDTH, PANEL_HEIGHT + 1);
        assert(canvas@ =~= old(canvas)@ + self.spec_render_writes(*context, *shared_state));
    }
}

} // verus!
