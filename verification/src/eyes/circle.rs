//! Circle eyes: a hollow ring, the surprised expression. They never blink.

use vstd::prelude::*;
use crate::canvas::{Canvas, PixelDrawer, PixelWrite};
use crate::eyes::EyePosition;
use crate::raster::{raster_scan, spec_rect_writes, DrawCmd, Raster};
use crate::state::{RenderContext, SharedFaceState, EYE_BOTTOM_OPEN, EYE_TOP_OPEN};
use crate::{PANEL_HEIGHT, PANEL_WIDTH};

verus! {

/// A ring between radius 4 and radius 6 around the eye position.
#[derive(Debug, Clone, Copy, PartialEq, Eq, Structural)]
pub struct CircleEyes {
    pub position: EyePosition,
}

impl CircleEyes {
    /// Circle eyes at the stock position.
    pub fn new() -> (r: Self)
        ensures
            r == (CircleEyes { position: EyePosition { center_x: 1300, center_y: 2200 } }),
    {
        CircleEyes { position: EyePosition { center_x: 1300, center_y: 2200 } }
    }

    /// Circle eyes at a chosen position.
    pub fn with_position(position: EyePosition) -> (r: Self)
        ensures
            r == (CircleEyes { position }),
    {
        CircleEyes { position }
    }

    /// The element's display name.
    pub fn name(&self) -> (r: &'static str)
        ensures
            r@ == "O Eyes"@,
    {
        "O Eyes"
    }

    /// A short description for status displays.
    pub fn description(&self) -> (r: &'static str)
        ensures
            r@ == "Circle eyes, the surprised expression"@,
    {
        "Circle eyes, the surprised expression"
    }

    /// Circles never blink: hold the lids at their open positions.
    pub fn update(&mut self, shared_state: &mut SharedFaceState)
        ensures
            *final(self) == *old(self),
            *final(shared_state) == (SharedFaceState {
                eye_top: EYE_TOP_OPEN,
                eye_bottom: EYE_BOTTOM_OPEN,
                ..*old(shared_state)
            }),
    {
        shared_state.eye_top = EYE_TOP_OPEN;
        shared_state.eye_bottom = EYE_BOTTOM_OPEN;
    }

    /// Everything this eye draws in one frame, in scan order.
    pub open spec fn spec_render_writes(self, ctx: RenderContext, ss: SharedFaceState) -> Seq<
        PixelWrite,
    > {
        spec_rect_writes(
            (|i: int, j: int| self.spec_cell(ctx, ss, i, j)),
            ctx.brightness as int,
            ctx.palette,
            PANEL_WIDTH as int,
            PANEL_HEIGHT as int + 1,
        )
    }

    /// Draw the ring.
    pub fn render(
        &self,
        canvas: &mut Canvas,
        context: &RenderContext,
        shared_state: &SharedFaceState,
        draw_pixel_fn: &PixelDrawer,
    )
        requires
            self.inv(),
            context.wf(),
            shared_state.wf(),
        ensures
            final(canvas)@ == old(canvas)@ + self.spec_render_writes(*context, *shared_state),
    {
        raster_scan(self, canvas, context, shared_state, draw_pixel_fn, PANEL_WIDTH, PANEL_HEIGHT + 1);
    }
}

impl Raster for CircleEyes {
    open spec fn inv(&self) -> bool {
        self.position.wf()
    }

    open spec fn spec_cell(&self, ctx: RenderContext, ss: SharedFaceState, i: int, j: int) -> Option<
        DrawCmd,
    > {
        let x = i + 1;
        let dx = 100 * x - (self.position.center_x + ctx.offset_x);
        let dy = 100 * j - (self.position.center_y + ctx.offset_y);
        let dist_sq = dx * dx + dy * dy;
        if dist_sq > 160_000 && dist_sq < 360_000 {
            Option::Some(DrawCmd {
                bright: 25500,
                color_index: (ctx.time_counter + 500 * x + 500 * (j + 1)) as i64,
                x: x as i32,
                y: j as i32,
            })
        } else {
            Option::None
        }
    }

    fn cell(&self, ctx: &RenderContext, ss: &SharedFaceState, i: i32, j: i32) -> (r: Option<
        DrawCmd,
    >) {
        let x: i64 = i as i64 + 1;
        let dx: i64 = 100 * x - (self.position.center_x + ctx.offset_x);
        let dy: i64 = 100 * (j as i64) - (self.position.center_y + ctx.offset_y);
        proof {
            assert(0 <= dx * dx <= 1_000_000_000_000) by (nonlinear_arith)
                requires
                    -1_000_000 <= dx <= 1_000_000;
            assert(0 <= dy * dy <= 1_000_000_000_000) by (nonlinear_arith)
                requires
                    -1_000_000 <= dy <= 1_000_000;
        }
        let dist_sq: i64 = dx * dx + dy * dy;
        if dist_sq > 160_000 && dist_sq < 360_000 {
            Option::Some(DrawCmd {
                bright: 25500,
                color_index: ctx.time_counter + 500 * x + 500 * (j as i64 + 1),
                x: i + 1,
                y: j,
            })
        } else {
            Option::None
        }
    }
}

} // verus!
