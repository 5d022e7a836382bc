//! The nose element: two downward parabolic curves forming a static snout.

use vstd::prelude::*;
use crate::canvas::{Canvas, PixelDrawer, PixelWrite};
use crate::raster::{div_floor, raster_scan, spec_rect_writes, DrawCmd, Raster};
use crate::state::{RenderContext, SharedFaceState};
use crate::{PANEL_HEIGHT, PANEL_WIDTH};

verus! {

/// Nose position, in centi-pixels.
#[derive(Debug, Clone, Copy, PartialEq, Eq, Structural)]
pub struct NosePosition {
    pub center_x: i64,
    pub center_y: i64,
}

impl NosePosition {
    /// A position within a panel's worth of slack around the display.
    pub open spec fn wf(self) -> bool {
        &&& -100_000 <= self.center_x <= 100_000
        &&& -100_000 <= self.center_y <= 100_000
    }
}

impl Default for NosePosition {
    /// The stock nose position: upper snout ridge at (56.00, 27.00).
    fn default() -> (r: Self)
        ensures
            r == (NosePosition { center_x: 5600, center_y: 2700 }),
    {
        NosePosition { center_x: 5600, center_y: 2700 }
    }
}

/// The nose: a region between two parabolas, drawn at full brightness.
#[derive(Debug, Clone, Copy, PartialEq, Eq, Structural)]
pub struct DefaultNose {
    pub position: NosePosition,
}

impl DefaultNose {
    /// A nose at the stock position.
    pub fn new() -> (r: Self)
        ensures
            r == (DefaultNose { position: NosePosition { center_x: 5600, center_y: 2700 } }),
    {
        DefaultNose { position: NosePosition { center_x: 5600, center_y: 2700 } }
    }

    /// A nose at a chosen position.
    pub fn with_position(position: NosePosition) -> (r: Self)
        ensures
            r == (DefaultNose { position }),
    {
        DefaultNose { position }
    }

    /// The element's display name.
    pub fn name(&self) -> (r: &'static str)
        ensures
            r@ == "Default Nose"@,
    {
        "Default Nose"
    }

    /// A short description for status displays.
    pub fn description(&self) -> (r: &'static str)
        ensures
            r@ == "Snout drawn from parabolic curves"@,
    {
        "Snout drawn from parabolic curves"
    }

    /// The nose is static: updating changes nothing.
    pub fn update(&mut self, shared_state: &mut SharedFaceState)
        ensures
            *final(self) == *old(self),
            *final(shared_state) == *old(shared_state),
    {
    }

    /// Upper boundary: `-0.5 * (x - center_x)^2 + center_y`, in centi-units.
    pub open spec fn spec_bound_a(self, ctx: RenderContext, x: int) -> int {
        let d = 100 * x - (self.position.center_x + ctx.offset_x);
        -(d * d) / 200 + self.position.center_y + ctx.offset_y
    }

    /// Lower boundary: `-0.1 * (x - 53)^2 + 23`, in centi-units.
    pub open spec fn spec_bound_b(self, ctx: RenderContext, x: int) -> int {
        let e = 100 * x - (5300 + ctx.offset_x);
        -(e * e) / 1000 + 2300 + ctx.offset_y
    }

    /// Everything this nose draws in one frame, in scan order.
    pub open spec fn spec_render_writes(self, ctx: RenderContext, ss: SharedFaceState) -> Seq<
        PixelWrite,
    > {
        spec_rect_writes(
            (|i: int, j: int| self.spec_cell(ctx, ss, i, j)),
            ctx.brightness as int,
            ctx.palette,
            PANEL_WIDTH as int,
            PANEL_HEIGHT as int + 1,
        )
    }

    /// Draw the nose.
    pub fn render(
        &self,
        canvas: &mut Canvas,
        context: &RenderContext,
        shared_state: &SharedFaceState,
        draw_pixel_fn: &PixelDrawer,
    )
        requires
            self.inv(),
            context.wf(),
            shared_state.wf(),
        ensures
            final(canvas)@ == old(canvas)@ + self.spec_render_writes(*context, *shared_state),
    {
        raster_scan(self, canvas, context, shared_state, draw_pixel_fn, PANEL_WIDTH, PANEL_HEIGHT + 1);
    }
}

impl Raster for DefaultNose {
    open spec fn inv(&self) -> bool {
        self.position.wf()
    }

    open spec fn spec_cell(&self, ctx: RenderContext, ss: SharedFaceState, i: int, j: int) -> Option<
        DrawCmd,
    > {
        let x = i + 1;
        let yy = 100 * j;
        if self.spec_bound_b(ctx, x) < yy && self.spec_bound_a(ctx, x) > yy {
            Option::Some(DrawCmd {
                bright: 25500,
                color_index: (ctx.time_counter + 500 * x + 500 * (j + 1)) as i64,
                x: x as i32,
                y: j as i32,
            })
        } else {
            Option::None
        }
    }

    fn cell(&self, ctx: &RenderContext, ss: &SharedFaceState, i: i32, j: i32) -> (r: Option<
        DrawCmd,
    >) {
        let x: i64 = i as i64 + 1;
        let d: i64 = 100 * x - (self.position.center_x + ctx.offset_x);
        let e: i64 = 100 * x - (5300 + ctx.offset_x);
        proof {
            assert(0 <= d * d <= 1_000_000_000_000) by (nonlinear_arith)
                requires
                    -1_000_000 <= d <= 1_000_000;
            assert(0 <= e * e <= 1_000_000_000_000) by (nonlinear_arith)
                requires
                    -1_000_000 <= e <= 1_000_000;
        }
        let na: i64 = div_floor(-(d * d), 200) + self.position.center_y + ctx.offset_y;
        let nb: i64 = div_floor(-(e * e), 1000) + 2300 + ctx.offset_y;
        let yy: i64 = 100 * (j as i64);
        if nb < yy && na > yy {
            Option::Some(DrawCmd {
                bright: 25500,
                color_index: ctx.time_counter + 500 * x + 500 * (j as i64 + 1),
                x: i + 1,
                y: j,
            })
        } else {
            Option::None
        }
    }
}

} // verus!
