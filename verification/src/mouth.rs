//! The mouth element: audio-reactive opening with an idle breathing
//! animation, and a rasterizer built from seven boundary lines.

use vstd::prelude::*;
use crate::canvas::{Canvas, PixelDrawer, PixelWrite};
use crate::gamepad::GamepadButton;
use crate::raster::{div_floor, raster_scan, spec_rect_writes, DrawCmd, Raster};
use crate::state::{RenderContext, SharedFaceState, MOUTH_MAX_OPENING};
use crate::{PANEL_HEIGHT, PANEL_WIDTH};

verus! {

/// How the mouth is being driven this frame.
#[derive(Debug, Clone, Copy, PartialEq, Eq, Structural)]
pub enum MouthMode {
    /// Driven by the microphone level.
    Audio,
    /// Idle breathing animation.
    Breathing,
    /// An external override is in charge.
    Manual,
}

/// Microphone level above which the mouth opens, in centi-units of the
/// normalized [0, 1] level (0.05).
pub const SILENT_LIMIT: i64 = 5;

/// Seconds of silence before the mouth falls back to breathing.
pub const IDLE_TIMEOUT_SECS: u64 = 30;

/// One full period of the breathing phase, in centi-radians.
pub const PHASE_PERIOD: i64 = 628;

/// Quadratic approximation of the sine over one period, in centi-units:
/// `spec_sin_centi(p)` tracks `100 * sin(p / 100)` for `p` in
/// `[0, PHASE_PERIOD)`, exact at 0, the quarter points and the half period,
/// with range [-100, 100].
pub open spec fn spec_sin_centi(p: int) -> int {
    if p < 314 {
        (400 * (p * (314 - p))) / 98596
    } else {
        -((400 * ((p - 314) * (628 - p))) / 98596)
    }
}

/// Evaluate the sine approximation.
pub fn sin_centi(p: i64) -> (r: i64)
    requires
        0 <= p < PHASE_PERIOD,
    ensures
        r == spec_sin_centi(p as int),
        -100 <= r <= 100,
{
    if p < 314 {
        proof {
            assert(0 <= p * (314 - p) <= 24649) by (nonlinear_arith)
                requires
                    0 <= p < 314;
        }
        (400 * (p * (314 - p))) / 98596
    } else {
        proof {
            assert(0 <= (p - 314) * (628 - p) <= 24649) by (nonlinear_arith)
                requires
                    314 <= p < 628;
        }
        -((400 * ((p - 314) * (628 - p))) / 98596)
    }
}

/// Which mode drives the mouth, given the override flag and the seconds
/// since the last above-threshold audio sample.
pub open spec fn spec_mouth_mode(manual_active: bool, seconds_idle: u64) -> MouthMode {
    if manual_active {
        MouthMode::Manual
    } else if seconds_idle >= IDLE_TIMEOUT_SECS {
        MouthMode::Breathing
    } else {
        MouthMode::Audio
    }
}

/// Which mode drives the mouth this frame.
pub fn current_mouth_mode(manual_active: bool, seconds_idle: u64) -> (m: MouthMode)
    ensures
        m == spec_mouth_mode(manual_active, seconds_idle),
{
    if manual_active {
        MouthMode::Manual
    } else if seconds_idle >= IDLE_TIMEOUT_SECS {
        MouthMode::Breathing
    } else {
        MouthMode::Audio
    }
}

/// The audio-reactive mouth with idle breathing.
#[derive(Debug, Clone, Copy, PartialEq, Eq, Structural)]
pub struct DefaultMouth {
    /// The element's own copy of the aperture, in centi-units.
    pub mouth_opening: i64,
    /// Breathing oscillator phase in centi-radians, kept within one period.
    pub breathing_phase: i64,
}

impl DefaultMouth {
    /// Ranges the update machine preserves and relies on.
    pub open spec fn inv_state(self) -> bool {
        &&& 0 <= self.mouth_opening <= MOUTH_MAX_OPENING
        &&& 0 <= self.breathing_phase < PHASE_PERIOD
    }

    /// A closed mouth at the start of its breathing cycle.
    pub fn new() -> (r: Self)
        ensures
            r == (DefaultMouth { mouth_opening: 0, breathing_phase: 0 }),
            r.inv_state(),
    {
        DefaultMouth { mouth_opening: 0, breathing_phase: 0 }
    }

    /// The element's display name.
    pub fn name(&self) -> (r: &'static str)
        ensures
            r@ == "Default Mouth"@,
    {
        "Default Mouth"
    }

    /// A short description for status displays.
    pub fn description(&self) -> (r: &'static str)
        ensures
            r@ == "Audio-reactive mouth with idle breathing"@,
    {
        "Audio-reactive mouth with idle breathing"
    }

    /// One update step: the new element state and shared state, given the
    /// microphone level (centi-units of [0, 1]) and the seconds since the
    /// last above-threshold sample.
    ///
    /// Under manual override nothing changes. In breathing mode the phase
    /// advances and the aperture eases one step of 0.10 toward the
    /// sine-derived target; in audio mode it opens by 1.50 on sound and
    /// closes by 0.80 on silence. The result is clamped to
    /// [0, MOUTH_MAX_OPENING] and published to the shared state.
    pub open spec fn spec_step(
        self,
        ss: SharedFaceState,
        audio_level: int,
        seconds_idle: u64,
    ) -> (DefaultMouth, SharedFaceState) {
        if ss.manual_mouth_active {
            (self, ss)
        } else {
            let stepped = if seconds_idle >= IDLE_TIMEOUT_SECS {
                let phase = (self.breathing_phase + 5) % (PHASE_PERIOD as int);
                let breathing = (spec_sin_centi(phase) + 100) / 2;
                let target = breathing * 6;
                let moved = if self.mouth_opening < target {
                    self.mouth_opening + 10
                } else {
                    self.mouth_opening - 10
                };
                DefaultMouth { mouth_opening: moved as i64, breathing_phase: phase as i64 }
            } else {
                let moved = if audio_level > SILENT_LIMIT {
                    self.mouth_opening + 150
                } else {
                    self.mouth_opening - 80
                };
                DefaultMouth { mouth_opening: moved as i64, ..self }
            };
            let clamped = if stepped.mouth_opening > MOUTH_MAX_OPENING {
                MOUTH_MAX_OPENING
            } else if stepped.mouth_opening < 0 {
                0i64
            } else {
                stepped.mouth_opening
            };
            (
                DefaultMouth { mouth_opening: clamped, ..stepped },
                SharedFaceState { mouth_opening: clamped, ..ss },
            )
        }
    }

    /// Advance the mouth animation by one frame.
    pub fn update(
        &mut self,
        shared_state: &mut SharedFaceState,
        audio_level: i64,
        seconds_idle: u64,
    )
        requires
            old(self).inv_state(),
        ensures
            (*final(self), *final(shared_state)) == old(self).spec_step(
                *old(shared_state),
                audio_level as int,
                seconds_idle,
            ),
            final(self).inv_state(),
            !old(shared_state).manual_mouth_active ==> 0 <= final(shared_state).mouth_opening
                <= MOUTH_MAX_OPENING,
            final(shared_state).eye_top == old(shared_state).eye_top,
            final(shared_state).eye_bottom == old(shared_state).eye_bottom,
            final(shared_state).blink_enabled == old(shared_state).blink_enabled,
            final(shared_state).manual_mouth_active == old(shared_state).manual_mouth_active,
            (!old(shared_state).manual_mouth_active && seconds_idle >= IDLE_TIMEOUT_SECS)
                ==> -10 <= final(self).mouth_opening - old(self).mouth_opening <= 10,
    {
        match current_mouth_mode(shared_state.manual_mouth_active, seconds_idle) {
            MouthMode::Manual => {
                return;
            },
            MouthMode::Breathing => {
                self.breathing_phase = (self.breathing_phase + 5) % PHASE_PERIOD;
                let breathing = (sin_centi(self.breathing_phase) + 100) / 2;
                let target = breathing * 6;
                if self.mouth_opening < target {
                    self.mouth_opening = self.mouth_opening + 10;
                } else {
                    self.mouth_opening = self.mouth_opening - 10;
                }
            },
            MouthMode::Audio => {
                if audio_level > SILENT_LIMIT {
                    self.mouth_opening = self.mouth_opening + 150;
                } else {
                    self.mouth_opening = self.mouth_opening - 80;
                }
            },
        }
        if self.mouth_opening > MOUTH_MAX_OPENING {
            self.mouth_opening = MOUTH_MAX_OPENING;
        } else if self.mouth_opening < 0 {
            self.mouth_opening = 0;
        }
        shared_state.mouth_opening = self.mouth_opening;
    }

    /// A held trigger forces the mouth fully open or fully shut.
    pub fn handle_button(&mut self, button: GamepadButton, shared_state: &mut SharedFaceState) -> (handled: bool)
        ensures
            *final(self) == *old(self),
            handled == (button == GamepadButton::LeftTrigger || button
                == GamepadButton::RightTrigger),
            button == GamepadButton::LeftTrigger ==> *final(shared_state) == (SharedFaceState {
                mouth_opening: MOUTH_MAX_OPENING,
                ..*old(shared_state)
            }),
            button == GamepadButton::RightTrigger ==> *final(shared_state) == (SharedFaceState {
                mouth_opening: 0,
                ..*old(shared_state)
            }),
            !handled ==> *final(shared_state) == *old(shared_state),
    {
        match button {
            GamepadButton::LeftTrigger => {
                shared_state.mouth_opening = MOUTH_MAX_OPENING;
                true
            },
            GamepadButton::RightTrigger => {
                shared_state.mouth_opening = 0;
                true
            },
            _ => false,
        }
    }

    /// Everything this mouth draws in one frame, in scan order.
    pub open spec fn spec_render_writes(self, ctx: RenderContext, ss: SharedFaceState) -> Seq<
        PixelWrite,
    > {
        spec_rect_writes(
            (|i: int, j: int| self.spec_cell(ctx, ss, i, j)),
            ctx.brightness as int,
            ctx.palette,
            PANEL_WIDTH as int,
            PANEL_HEIGHT as int + 1,
        )
    }

    /// Draw the mouth at the shared state's current aperture.
    pub fn render(
        &self,
        canvas: &mut Canvas,
        context: &RenderContext,
        shared_state: &SharedFaceState,
        draw_pixel_fn: &PixelDrawer,
    )
        requires
            self.inv(),
            context.wf(),
            shared_state.wf(),
        ensures
            final(canvas)@ == old(canvas)@ + self.spec_render_writes(*context, *shared_state),
    {
        raster_scan(self, canvas, context, shared_state, draw_pixel_fn, PANEL_WIDTH, PANEL_HEIGHT + 1);
    }

    /// The seven boundary lines of column `x` at aperture `m`, centi-units.
    pub open spec fn spec_bounds(ctx: RenderContext, ss: SharedFaceState, x: int) -> Seq<int> {
        let m = ss.mouth_opening as int;
        let ma = ((700 + ctx.offset_x - 100 * x) * 100) / 130 + 3100 + ctx.offset_y;
        let mb = ((700 + ctx.offset_x - 100 * x) * 100) / (190 - m / 10) + 1800 + ctx.offset_y
            + m / 2;
        let mc = ((100 * x - ctx.offset_x) * 100) / 120 - 3200 + ctx.offset_y;
        let md = ((100 * x - ctx.offset_x) * 100) / 120 - 3700 + ctx.offset_y - m;
        let me = ((ctx.offset_x - 100 * x) * 100) / 120 + 5700 + ctx.offset_y;
        let mf = ((ctx.offset_x - 100 * x) * 100) / 120 + 5200 + ctx.offset_y - (13 * m) / 10;
        let mg = ((100 * x - ctx.offset_x) * 100) / 160 - 200 + ctx.offset_y;
        seq![ma, mb, mc, md, me, mf, mg]
    }
}

impl Raster for DefaultMouth {
    open spec fn inv(&self) -> bool {
        self.inv_state()
    }

    open spec fn spec_cell(&self, ctx: RenderContext, ss: SharedFaceState, i: int, j: int) -> Option<
        DrawCmd,
    > {
        let x = i + 1;
        let yy = 100 * j;
        let bs = DefaultMouth::spec_bounds(ctx, ss, x);
        let ma = bs[0];
        let mb = bs[1];
        let mc = bs[2];
        let md = bs[3];
        let me = bs[4];
        let mf = bs[5];
        let mg = bs[6];
        if (me > yy && mf < yy && mc > yy) || (mc > yy && md < yy && me > yy && mb < yy) || (mb < yy
            && ma > yy && mg > yy && md < yy) {
            Option::Some(DrawCmd {
                bright: 25500,
                color_index: (ctx.time_counter + 500 * x + 500 * (j + 1)) as i64,
                x: x as i32,
                y: j as i32,
            })
        } else {
            Option::None
        }
    }

    fn cell(&self, ctx: &RenderContext, ss: &SharedFaceState, i: i32, j: i32) -> (r: Option<
        DrawCmd,
    >) {
        let x: i64 = i as i64 + 1;
        let yy: i64 = 100 * (j as i64);
        let m: i64 = ss.mouth_opening;
        let ma: i64 = div_floor((700 + ctx.offset_x - 100 * x) * 100, 130) + 3100 + ctx.offset_y;
        let mb: i64 = div_floor((700 + ctx.offset_x - 100 * x) * 100, 190 - m / 10) + 1800
            + ctx.offset_y + m / 2;
        let mc: i64 = div_floor((100 * x - ctx.offset_x) * 100, 120) - 3200 + ctx.offset_y;
        let md: i64 = div_floor((100 * x - ctx.offset_x) * 100, 120) - 3700 + ctx.offset_y - m;
        let me: i64 = div_floor((ctx.offset_x - 100 * x) * 100, 120) + 5700 + ctx.offset_y;
        let mf: i64 = div_floor((ctx.offset_x - 100 * x) * 100, 120) + 5200 + ctx.offset_y - (13
            * m) / 10;
        let mg: i64 = div_floor((100 * x - ctx.offset_x) * 100, 160) - 200 + ctx.offset_y;
        if (me > yy && mf < yy && mc > yy) || (mc > yy && md < yy && me > yy && mb < yy) || (mb < yy
            && ma > yy && mg > yy && md < yy) {
            Option::Some(DrawCmd {
                bright: 25500,
                color_index: ctx.time_counter + 500 * x + 500 * (j as i64 + 1),
                x: i + 1,
                y: j,
            })
        } else {
            Option::None
        }
    }
}

} // verus!
