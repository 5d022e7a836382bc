//! The default eyes: angled-line and parabola boundaries with soft edges,
//! and the scripted blink that narrows the lids and reopens them.

use vstd::prelude::*;
use crate::canvas::{Canvas, PixelDrawer, PixelWrite};
use crate::eyes::BlinkConfig;
use crate::raster::{div_floor, raster_scan, spec_rect_writes, DrawCmd, Raster};
use crate::state::{RenderContext, SharedFaceState, EYE_BOTTOM_OPEN, EYE_TOP_OPEN};
use crate::{PANEL_HEIGHT, PANEL_WIDTH};

verus! {

/// The scripted lid positions of the blink, as (eye_bottom, eye_top)
/// centi-unit pairs, frame 0 barely narrowed through frame 5 almost shut.
pub open spec fn spec_blink_lids(frame: int) -> (i64, i64) {
    if frame == 0 { (200i64, 800i64) }
    else if frame == 1 { (300i64, 700i64) }
    else if frame == 2 { (400i64, 600i64) }
    else if frame == 3 { (500i64, 500i64) }
    else if frame == 4 { (600i64, 400i64) }
    else { (700i64, 10i64) }
}

/// The element and shared state after `n` blink update steps at a fixed
/// whole-second reading.
pub open spec fn spec_run_blink(e: DefaultEyes, ss: SharedFaceState, now: u64, n: nat) -> (
    DefaultEyes,
    SharedFaceState,
)
    decreases n,
{
    if n == 0 {
        (e, ss)
    } else {
        let p = spec_run_blink(e, ss, now, (n - 1) as nat);
        p.0.spec_step(p.1, now)
    }
}

/// While blinking is off, one update step always leaves the lids at their
/// open positions, whatever the element's counters hold.
pub proof fn lemma_blink_disabled(e: DefaultEyes, ss: SharedFaceState, now: u64)
    requires
        !ss.blink_enabled,
    ensures
        e.spec_step(ss, now).1.eye_top == EYE_TOP_OPEN,
        e.spec_step(ss, now).1.eye_bottom == EYE_BOTTOM_OPEN,
{
}

/// With blinking on and the waiting interval elapsed, one update step at
/// any whole-second reading writes the scripted lid pair of the current
/// frame: the pairs the blink visits do not depend on the clock, which
/// only gates the wait before the blink starts.
pub proof fn lemma_blink_step_lids(e: DefaultEyes, ss: SharedFaceState, now: u64)
    requires
        e.inv_state(),
        ss.blink_enabled,
        e.blink_sec >= e.config.interval_secs,
    ensures
        ({
            let r = e.spec_step(ss, now);
            (r.1.eye_bottom, r.1.eye_top) == spec_blink_lids(e.blink_frame as int)
        }),
{
}

/// One full blink, from an open eye whose waiting interval has elapsed:
/// eleven update steps at a fixed whole-second reading walk the lid pairs
/// through the six scripted frames forward (0 through 5) and back through
/// the same frames to open (4 through 0), the second counter stays
/// untouched until the cycle completes, and the final step alone resets it
/// to zero with the machine back in its starting frame.
pub proof fn lemma_blink_full_cycle(e: DefaultEyes, ss: SharedFaceState, now: u64)
    requires
        e.inv_state(),
        e.blink_frame == 0,
        e.blink_flag,
        ss.blink_enabled,
        now == e.last_second,
        e.blink_sec >= e.config.interval_secs,
    ensures
        ({
            let lids = |k: int| {
                let r = spec_run_blink(e, ss, now, k as nat);
                (r.1.eye_bottom, r.1.eye_top)
            };
            &&& lids(1) == (200i64, 800i64)
            &&& lids(2) == (300i64, 700i64)
            &&& lids(3) == (400i64, 600i64)
            &&& lids(4) == (500i64, 500i64)
            &&& lids(5) == (600i64, 400i64)
            &&& lids(6) == (700i64, 10i64)
            &&& lids(7) == (600i64, 400i64)
            &&& lids(8) == (500i64, 500i64)
            &&& lids(9) == (400i64, 600i64)
            &&& lids(10) == (300i64, 700i64)
            &&& lids(11) == (200i64, 800i64)
        }),
        forall|k: int|
            1 <= k <= 10 ==> #[trigger] spec_run_blink(e, ss, now, k as nat).0.blink_sec
                == e.blink_sec,
        spec_run_blink(e, ss, now, 11).0.blink_sec == 0,
        spec_run_blink(e, ss, now, 11).0.blink_frame == 0,
        spec_run_blink(e, ss, now, 11).0.blink_flag,
{
    reveal_with_fuel(spec_run_blink, 13);
    let r1 = spec_run_blink(e, ss, now, 1);
    let r2 = spec_run_blink(e, ss, now, 2);
    let r3 = spec_run_blink(e, ss, now, 3);
    let r4 = spec_run_blink(e, ss, now, 4);
    let r5 = spec_run_blink(e, ss, now, 5);
    let r6 = spec_run_blink(e, ss, now, 6);
    let r7 = spec_run_blink(e, ss, now, 7);
    let r8 = spec_run_blink(e, ss, now, 8);
    let r9 = spec_run_blink(e, ss, now, 9);
    let r10 = spec_run_blink(e, ss, now, 10);
    let r11 = spec_run_blink(e, ss, now, 11);
    assert(r1 == e.spec_step(ss, now));
    assert(r1.0.blink_frame == 1 && r1.0.blink_flag && r1.0.blink_sec == e.blink_sec);
    assert(r2 == r1.0.spec_step(r1.1, now));
    assert(r2.0.blink_frame == 2 && r2.0.blink_flag && r2.0.blink_sec == e.blink_sec);
    assert(r3 == r2.0.spec_step(r2.1, now));
    assert(r3.0.blink_frame == 3 && r3.0.blink_flag && r3.0.blink_sec == e.blink_sec);
    assert(r4 == r3.0.spec_step(r3.1, now));
    assert(r4.0.blink_frame == 4 && r4.0.blink_flag && r4.0.blink_sec == e.blink_sec);
    assert(r5 == r4.0.spec_step(r4.1, now));
    assert(r5.0.blink_frame == 5 && r5.0.blink_flag && r5.0.blink_sec == e.blink_sec);
    assert(r6 == r5.0.spec_step(r5.1, now));
    assert(r6.0.blink_frame == 4 && !r6.0.blink_flag && r6.0.blink_sec == e.blink_sec);
    assert(r7 == r6.0.spec_step(r6.1, now));
    assert(r7.0.blink_frame == 3 && !r7.0.blink_flag && r7.0.blink_sec == e.blink_sec);
    assert(r8 == r7.0.spec_step(r7.1, now));
    assert(r8.0.blink_frame == 2 && !r8.0.blink_flag && r8.0.blink_sec == e.blink_sec);
    assert(r9 == r8.0.spec_step(r8.1, now));
    assert(r9.0.blink_frame == 1 && !r9.0.blink_flag && r9.0.blink_sec == e.blink_sec);
    assert(r10 == r9.0.spec_step(r9.1, now));
    assert(r10.0.blink_frame == 0 && !r10.0.blink_flag && r10.0.blink_sec == e.blink_sec);
    assert(r11 == r10.0.spec_step(r10.1, now));
    assert(r11.0.blink_frame == 0 && r11.0.blink_flag && r11.0.blink_sec == 0);
    assert forall|k: int| 1 <= k <= 10 implies #[trigger] spec_run_blink(
        e,
        ss,
        now,
        k as nat,
    ).0.blink_sec == e.blink_sec by {
        if k == 1 {
        } else if k == 2 {
        } else if k == 3 {
        } else if k == 4 {
        } else if k == 5 {
        } else if k == 6 {
        } else if k == 7 {
        } else if k == 8 {
        } else if k == 9 {
        } else {
            assert(k == 10);
        }
    }
}

/// The stock blinking eyes.
#[derive(Debug, Clone, Copy, PartialEq, Eq, Structural)]
pub struct DefaultEyes {
    /// Whole seconds accumulated since the last completed blink; saturates
    /// at a million so it can never overflow.
    pub blink_sec: i32,
    /// Current scripted frame, 0 through 5.
    pub blink_frame: i32,
    /// True while the blink is closing, false while reopening.
    pub blink_flag: bool,
    /// The last whole-second reading seen, to step `blink_sec` once per
    /// elapsed second.
    pub last_second: u64,
    pub config: BlinkConfig,
}

impl DefaultEyes {
    /// Ranges the update machine preserves and relies on.
    pub open spec fn inv_state(self) -> bool {
        &&& 0 <= self.blink_sec <= 1_000_000
        &&& 0 <= self.blink_frame <= 5
        &&& -1_000_000 <= self.config.interval_secs <= 1_000_000
    }

    /// Default eyes with the stock blink cadence, open.
    pub fn new() -> (r: Self)
        ensures
            r == (DefaultEyes {
                blink_sec: 0,
                blink_frame: 0,
                blink_flag: true,
                last_second: 0,
                config: BlinkConfig { enabled: true, interval_secs: 10, frames: 6 },
            }),
            r.inv_state(),
    {
        DefaultEyes {
            blink_sec: 0,
            blink_frame: 0,
            blink_flag: true,
            last_second: 0,
            config: BlinkConfig { enabled: true, interval_secs: 10, frames: 6 },
        }
    }

    /// Default eyes with a chosen blink configuration, open.
    pub fn with_config(config: BlinkConfig) -> (r: Self)
        requires
            -1_000_000 <= config.interval_secs <= 1_000_000,
        ensures
            r == (DefaultEyes {
                blink_sec: 0,
                blink_frame: 0,
                blink_flag: true,
                last_second: 0,
                config,
            }),
            r.inv_state(),
    {
        DefaultEyes { blink_sec: 0, blink_frame: 0, blink_flag: true, last_second: 0, config }
    }

    /// The element's display name.
    pub fn name(&self) -> (r: &'static str)
        ensures
            r@ == "Default Eyes"@,
    {
        "Default Eyes"
    }

    /// A short description for status displays.
    pub fn description(&self) -> (r: &'static str)
        ensures
            r@ == "Angled eyes with a scripted blink"@,
    {
        "Angled eyes with a scripted blink"
    }

    /// One update step of the blink machine: the new element state and the
    /// new shared state, as a function of the old ones and the current
    /// whole-second reading.
    ///
    /// While blinking is off, or before `interval_secs` seconds have
    /// accumulated, the lids are held at their open positions. Once the
    /// interval has elapsed the machine walks the scripted lid pairs
    /// forward to frame 5, reverses, and on passing frame 0 resets the
    /// second counter to start the next wait.
    pub open spec fn spec_step(self, ss: SharedFaceState, now_secs: u64) -> (DefaultEyes, SharedFaceState) {
        let t = if now_secs != self.last_second {
            DefaultEyes {
                blink_sec: if self.blink_sec < 1_000_000 { (self.blink_sec + 1) as i32 } else { self.blink_sec },
                last_second: now_secs,
                ..self
            }
        } else {
            self
        };
        if !ss.blink_enabled || t.blink_sec < t.config.interval_secs {
            (t, SharedFaceState { eye_top: EYE_TOP_OPEN, eye_bottom: EYE_BOTTOM_OPEN, ..ss })
        } else {
            let lids = spec_blink_lids(t.blink_frame as int);
            let ss2 = SharedFaceState { eye_bottom: lids.0, eye_top: lids.1, ..ss };
            let flag1 = if t.blink_frame == 5 { false } else { t.blink_flag };
            let f1 = if flag1 { t.blink_frame + 1 } else { t.blink_frame - 1 };
            let u = DefaultEyes { blink_frame: f1 as i32, blink_flag: flag1, ..t };
            if u.blink_frame == -1 {
                (DefaultEyes { blink_sec: 0, blink_frame: 0, blink_flag: true, ..u }, ss2)
            } else {
                (u, ss2)
            }
        }
    }

    /// Advance the blink machine by one frame and write the lid positions
    /// into the shared state.
    pub fn update(&mut self, shared_state: &mut SharedFaceState, now_secs: u64)
        requires
            old(self).inv_state(),
        ensures
            (*final(self), *final(shared_state)) == old(self).spec_step(*old(shared_state), now_secs),
            final(self).inv_state(),
            final(self).config == old(self).config,
            final(shared_state).mouth_opening == old(shared_state).mouth_opening,
            final(shared_state).blink_enabled == old(shared_state).blink_enabled,
            final(shared_state).manual_mouth_active == old(shared_state).manual_mouth_active,
            0 < final(shared_state).eye_top <= 1000,
            0 < final(shared_state).eye_bottom <= 1000,
    {
        if now_secs != self.last_second {
            if self.blink_sec < 1_000_000 {
                self.blink_sec = self.blink_sec + 1;
            }
            self.last_second = now_secs;
        }
        if !shared_state.blink_enabled || self.blink_sec < self.config.interval_secs {
            shared_state.eye_top = EYE_TOP_OPEN;
            shared_state.eye_bottom = EYE_BOTTOM_OPEN;
            return;
        }
        if self.blink_frame == 0 {
            shared_state.eye_bottom = 200;
            shared_state.eye_top = 800;
        } else if self.blink_frame == 1 {
            shared_state.eye_bottom = 300;
            shared_state.eye_top = 700;
        } else if self.blink_frame == 2 {
            shared_state.eye_bottom = 400;
            shared_state.eye_top = 600;
        } else if self.blink_frame == 3 {
            shared_state.eye_bottom = 500;
            shared_state.eye_top = 500;
        } else if self.blink_frame == 4 {
            shared_state.eye_bottom = 600;
            shared_state.eye_top = 400;
        } else {
            shared_state.eye_bottom = 700;
            shared_state.eye_top = 10;
            self.blink_flag = false;
        }
        if self.blink_flag {
            self.blink_frame = self.blink_frame + 1;
        } else {
            self.blink_frame = self.blink_frame - 1;
        }
        if self.blink_frame == -1 {
            self.blink_sec = 0;
            self.blink_frame = 0;
            self.blink_flag = true;
        }
    }

    /// Everything this eye draws in one frame, in scan order.
    pub open spec fn spec_render_writes(self, ctx: RenderContext, ss: SharedFaceState) -> Seq<
        PixelWrite,
    > {
        spec_rect_writes(
            (|i: int, j: int| self.spec_cell(ctx, ss, i, j)),
            ctx.brightness as int,
            ctx.palette,
            PANEL_WIDTH as int,
            PANEL_HEIGHT as int + 1,
        )
    }

    /// Draw the eye with its current lid positions.
    pub fn render(
        &self,
        canvas: &mut Canvas,
        context: &RenderContext,
        shared_state: &SharedFaceState,
        draw_pixel_fn: &PixelDrawer,
    )
        requires
            self.inv(),
            context.wf(),
            shared_state.wf(),
        ensures
            final(canvas)@ == old(canvas)@ + self.spec_render_writes(*context, *shared_state),
    {
        raster_scan(self, canvas, context, shared_state, draw_pixel_fn, PANEL_WIDTH, PANEL_HEIGHT + 1);
    }

    /// The four boundary values of column `x`: the bottom lid line, the top
    /// lid line, the front cut line, and the outer parabola, in centi-units.
    pub open spec fn spec_bounds(ctx: RenderContext, ss: SharedFaceState, x: int) -> (int, int, int, int) {
        let ya = ((ctx.offset_x - 100 * x) * 100) / (ss.eye_bottom as int) + 2500 + ctx.offset_y;
        let yb = ((200 + ctx.offset_x - 100 * x) * 100) / (ss.eye_top as int) + 3100 + ctx.offset_y;
        let yc = ((100 * x - 1000 - ctx.offset_x) * 100) / 60 + ctx.offset_y;
        let d = 100 * x - 1800 - ctx.offset_x;
        let yd = (8 * (d * d)) / 1000 + 2400 + ctx.offset_y;
        (ya, yb, yc, yd)
    }
}

impl Raster for DefaultEyes {
    open spec fn inv(&self) -> bool {
        self.inv_state()
    }

    open spec fn spec_cell(&self, ctx: RenderContext, ss: SharedFaceState, i: int, j: int) -> Option<
        DrawCmd,
    > {
        let x = i + 1;
        let yy = 100 * j;
        let bounds = DefaultEyes::spec_bounds(ctx, ss, x);
        let ya = bounds.0;
        let yb = bounds.1;
        let yc = bounds.2;
        let yd = bounds.3;
        if ya < yy && yb > yy && yc < yy && yd > yy {
            let bright: int =
                if ya < yy - 100 && yb > yy + 100 && yc < yy - 100 && yd > yy + 100 {
                    25500
                } else if ya > yy - 100 {
                    255 * (yy - ya)
                } else if yb < yy + 100 {
                    255 * (yb - yy)
                } else if yc > yy - 100 {
                    255 * (yy - yc)
                } else if yd < yy + 100 {
                    255 * (yd - yy)
                } else {
                    25500
                };
            Option::Some(DrawCmd {
                bright: bright as i64,
                color_index: (ctx.time_counter + 500 * x + 500 * (j + 1)) as i64,
                x: x as i32,
                y: j as i32,
            })
        } else {
            Option::None
        }
    }

    fn cell(&self, ctx: &RenderContext, ss: &SharedFaceState, i: i32, j: i32) -> (r: Option<
        DrawCmd,
    >) {
        let x: i64 = i as i64 + 1;
        let yy: i64 = 100 * (j as i64);
        let ya: i64 = div_floor((ctx.offset_x - 100 * x) * 100, ss.eye_bottom) + 2500 + ctx.offset_y;
        let yb: i64 = div_floor((200 + ctx.offset_x - 100 * x) * 100, ss.eye_top) + 3100 + ctx.offset_y;
        let yc: i64 = div_floor((100 * x - 1000 - ctx.offset_x) * 100, 60) + ctx.offset_y;
        let d: i64 = 100 * x - 1800 - ctx.offset_x;
        proof {
            assert(0 <= d * d <= 100_000_000_000) by (nonlinear_arith)
                requires
                    -120_000 <= d <= 120_000;
        }
        let yd: i64 = div_floor(8 * (d * d), 1000) + 2400 + ctx.offset_y;
        if ya < yy && yb > yy && yc < yy && yd > yy {
            let bright: i64 =
                if ya < yy - 100 && yb > yy + 100 && yc < yy - 100 && yd > yy + 100 {
                    25500
                } else if ya > yy - 100 {
                    255 * (yy - ya)
                } else if yb < yy + 100 {
                    255 * (yb - yy)
                } else if yc > yy - 100 {
                    255 * (yy - yc)
                } else if yd < yy + 100 {
                    255 * (yd - yy)
                } else {
                    25500
                };
            Option::Some(DrawCmd {
                bright,
                color_index: ctx.time_counter + 500 * x + 500 * (j as i64 + 1),
                x: i + 1,
                y: j,
            })
        } else {
            Option::None
        }
    }
}

} // verus!
