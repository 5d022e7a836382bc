//! Gamepad control: the mask configuration state and the decision logic
//! that maps one input event to its effect.
//!
//! Events arrive as plain values of the library's own types; the caller
//! polls the controller hardware, converts each event, and hands it here
//! together with a millisecond timestamp for long-press detection.

use vstd::prelude::*;
use crate::color::ColorPalette;

verus! {

/// The controller buttons the mask reacts to.
#[derive(Debug, Clone, Copy, PartialEq, Eq, Structural)]
pub enum GamepadButton {
    South,
    East,
    North,
    West,
    DPadUp,
    DPadDown,
    DPadLeft,
    DPadRight,
    LeftTrigger,
    RightTrigger,
    Start,
    Other,
}

/// One controller event, already reduced to plain values.
#[derive(Debug, Clone, Copy, PartialEq, Eq, Structural)]
pub enum GamepadEvent {
    ButtonPressed(GamepadButton),
    ButtonReleased(GamepadButton),
    /// An analog axis moved. `left_trigger` says whether it is the left
    /// trigger axis; `value` is the raw reading in centi-units, -100
    /// (released) to 100 (fully pressed).
    AxisChanged { left_trigger: bool, value: i64 },
}

/// What the playback loop should do with video, as requested by the
/// Start button.
#[derive(Debug, Clone, Copy, PartialEq, Eq, Structural)]
pub enum VideoAction {
    /// Nothing requested.
    Idle,
    PlayFirst,
    NextVideo,
    ExitVideo,
}

/// Milliseconds a Start press must be held to count as a long press.
pub const LONG_PRESS_MILLIS: u64 = 800;

/// Tracks an in-flight Start press for long-press detection, by the
/// millisecond timestamp at which it went down.
#[derive(Debug, Clone, Copy, PartialEq, Eq, Structural)]
pub struct ButtonTracker {
    pub start_pressed_at: Option<u64>,
}

impl ButtonTracker {
    /// No press in flight.
    pub fn new() -> (r: Self)
        ensures
            r == (ButtonTracker { start_pressed_at: Option::None }),
    {
        ButtonTracker { start_pressed_at: Option::None }
    }
}

/// The externally controllable mask configuration.
#[derive(Debug, Clone, Copy, PartialEq, Eq, Structural)]
pub struct MaskState {
    /// Force breathing mode regardless of the microphone.
    pub mic_muted: bool,
    /// Global brightness in centi-units of [0, 1].
    pub brightness: i64,
    pub color_palette: ColorPalette,
    pub blink_enabled: bool,
    /// The analog trigger drives the mouth directly.
    pub manual_mouth_mode: bool,
    /// Latest left-trigger reading in centi-units of [0, 1].
    pub mouth_analog_value: i64,
    /// Video playback is active.
    pub video_mode: bool,
    /// Pending request for the playback loop.
    pub video_action: VideoAction,
}

impl MaskState {
    /// Brightness and the analog value stay valid fractions.
    pub open spec fn wf(self) -> bool {
        &&& 0 <= self.brightness <= 100
        &&& 0 <= self.mouth_analog_value <= 100
    }

    /// The startup configuration: full brightness, Forest palette,
    /// blinking on, every override off.
    pub fn new() -> (r: Self)
        ensures
            r == (MaskState {
                mic_muted: false,
                brightness: 100,
                color_palette: ColorPalette::Forest,
                blink_enabled: true,
                manual_mouth_mode: false,
                mouth_analog_value: 0,
                video_mode: false,
                video_action: VideoAction::Idle,
            }),
            r.wf(),
    {
        MaskState {
            mic_muted: false,
            brightness: 100,
            color_palette: ColorPalette::Forest,
            blink_enabled: true,
            manual_mouth_mode: false,
            mouth_analog_value: 0,
            video_mode: false,
            video_action: VideoAction::Idle,
        }
    }
}

/// A face that can switch between its registered eye variants.
pub trait CycleEyes {
    /// How many eye variants are registered.
    spec fn eye_variant_count(&self) -> int;

    /// The index of the active eye variant.
    spec fn active_eye_index(&self) -> int;

    /// Select the next eye variant, wrapping past the end; a no-op with
    /// no variants registered.
    fn cycle_eyes_forward(&mut self)
        ensures
            final(self).eye_variant_count() == old(self).eye_variant_count(),
            old(self).eye_variant_count() == 0 ==> final(self).active_eye_index() == old(
                self,
            ).active_eye_index(),
            (old(self).eye_variant_count() > 0 && 0 <= old(self).active_eye_index() < old(
                self,
            ).eye_variant_count()) ==> final(self).active_eye_index() == (old(
                self,
            ).active_eye_index() + 1) % old(self).eye_variant_count(),
    ;

    /// Select the previous eye variant, wrapping past the start; a no-op
    /// with no variants registered.
    fn cycle_eyes_backward(&mut self)
        ensures
            final(self).eye_variant_count() == old(self).eye_variant_count(),
            old(self).eye_variant_count() == 0 ==> final(self).active_eye_index() == old(
                self,
            ).active_eye_index(),
            (old(self).eye_variant_count() > 0 && 0 <= old(self).active_eye_index() < old(
                self,
            ).eye_variant_count()) ==> final(self).active_eye_index() == (
            if old(self).active_eye_index() == 0 {
                old(self).eye_variant_count() - 1
            } else {
                old(self).active_eye_index() - 1
            }),
    ;
}

/// The mask state after one button press.
pub open spec fn spec_press(s: MaskState, b: GamepadButton) -> MaskState {
    match b {
        GamepadButton::South => MaskState { mic_muted: !s.mic_muted, ..s },
        GamepadButton::East => MaskState { manual_mouth_mode: !s.manual_mouth_mode, ..s },
        GamepadButton::North => MaskState { blink_enabled: !s.blink_enabled, ..s },
        GamepadButton::West => MaskState { color_palette: s.color_palette.spec_next(), ..s },
        GamepadButton::DPadUp => MaskState {
            brightness: if s.brightness + 10 <= 100 { (s.brightness + 10) as i64 } else { 100i64 },
            ..s
        },
        GamepadButton::DPadDown => MaskState {
            brightness: if s.brightness - 10 >= 10 { (s.brightness - 10) as i64 } else { 10i64 },
            ..s
        },
        _ => s,
    }
}

/// The state and tracker after one event; cycling buttons leave both
/// untouched and act on the face alone.
pub open spec fn spec_handle_event(
    s: MaskState,
    t: ButtonTracker,
    event: GamepadEvent,
    now_millis: u64,
) -> (MaskState, ButtonTracker) {
    match event {
        GamepadEvent::ButtonPressed(b) => {
            let t2 = if b == GamepadButton::Start {
                ButtonTracker { start_pressed_at: Option::Some(now_millis) }
            } else {
                t
            };
            (spec_press(s, b), t2)
        },
        GamepadEvent::ButtonReleased(b) => {
            if b == GamepadButton::Start && t.start_pressed_at is Some {
                let pressed_at = t.start_pressed_at->0;
                let held = if now_millis >= pressed_at { now_millis - pressed_at } else { 0 };
                let s2 = if held >= LONG_PRESS_MILLIS {
                    if s.video_mode {
                        MaskState { video_action: VideoAction::ExitVideo, ..s }
                    } else {
                        s
                    }
                } else {
                    if s.video_mode {
                        MaskState { video_action: VideoAction::NextVideo, ..s }
                    } else {
                        MaskState { video_action: VideoAction::PlayFirst, ..s }
                    }
                };
                (s2, ButtonTracker { start_pressed_at: Option::None })
            } else {
                (s, t)
            }
        },
        GamepadEvent::AxisChanged { left_trigger, value } => {
            if left_trigger {
                let v = if value < 0 { 0i64 } else if value > 100 { 100i64 } else { value };
                (MaskState { mouth_analog_value: v, ..s }, t)
            } else {
                (s, t)
            }
        },
    }
}

/// Apply one controller event to the mask state, the press tracker, and
/// the face.
///
/// The D-pad right (resp. left) button makes exactly one forward (resp.
/// backward) eye-cycling step on the face and changes nothing else; every
/// other event leaves the face untouched and acts on the state and
/// tracker exactly as `spec_handle_event` lays out.
pub fn handle_gamepad_event<T: CycleEyes>(
    state: &mut MaskState,
    tracker: &mut ButtonTracker,
    protogen: &mut T,
    event: GamepadEvent,
    now_millis: u64,
)
    requires
        old(state).wf(),
    ensures
        (*final(state), *final(tracker)) == spec_handle_event(
            *old(state),
            *old(tracker),
            event,
            now_millis,
        ),
        final(state).wf(),
        (event != GamepadEvent::ButtonPressed(GamepadButton::DPadRight) && event
            != GamepadEvent::ButtonPressed(GamepadButton::DPadLeft)) ==> *final(protogen) == *old(
            protogen,
        ),
        final(protogen).eye_variant_count() == old(protogen).eye_variant_count(),
        event == GamepadEvent::ButtonPressed(GamepadButton::DPadRight) ==> {
            &&& old(protogen).eye_variant_count() == 0 ==> final(protogen).active_eye_index()
                == old(protogen).active_eye_index()
            &&& (old(protogen).eye_variant_count() > 0 && 0 <= old(protogen).active_eye_index()
                < old(protogen).eye_variant_count()) ==> final(protogen).active_eye_index() == (
            old(protogen).active_eye_index() + 1) % old(protogen).eye_variant_count()
        },
        event == GamepadEvent::ButtonPressed(GamepadButton::DPadLeft) ==> {
            &&& old(protogen).eye_variant_count() == 0 ==> final(protogen).active_eye_index()
                == old(protogen).active_eye_index()
            &&& (old(protogen).eye_variant_count() > 0 && 0 <= old(protogen).active_eye_index()
                < old(protogen).eye_variant_count()) ==> final(protogen).active_eye_index() == (
            if old(protogen).active_eye_index() == 0 {
                old(protogen).eye_variant_count() - 1
            } else {
                old(protogen).active_eye_index() - 1
            })
        },
{
    match event {
        GamepadEvent::ButtonPressed(button) => {
            if button == GamepadButton::Start {
                tracker.start_pressed_at = Option::Some(now_millis);
            }
            match button {
                GamepadButton::South => {
                    state.mic_muted = !state.mic_muted;
                },
                GamepadButton::East => {
                    state.manual_mouth_mode = !state.manual_mouth_mode;
                },
                GamepadButton::North => {
                    state.blink_enabled = !state.blink_enabled;
                },
                GamepadButton::West => {
                    state.color_palette = state.color_palette.next();
                },
                GamepadButton::DPadUp => {
                    if state.brightness + 10 <= 100 {
                        state.brightness = state.brightness + 10;
                    } else {
                        state.brightness = 100;
                    }
                },
                GamepadButton::DPadDown => {
                    if state.brightness - 10 >= 10 {
                        state.brightness = state.brightness - 10;
                    } else {
                        state.brightness = 10;
                    }
                },
                GamepadButton::DPadRight => {
                    protogen.cycle_eyes_forward();
                },
                GamepadButton::DPadLeft => {
                    protogen.cycle_eyes_backward();
                },
                _ => {},
            }
        },
        GamepadEvent::ButtonReleased(button) => {
            if button == GamepadButton::Start {
                match tracker.start_pressed_at {
                    Option::Some(pressed_at) => {
                        let held: u64 = if now_millis >= pressed_at {
                            now_millis - pressed_at
                        } else {
                            0
                        };
                        if held >= LONG_PRESS_MILLIS {
                            if state.video_mode {
                                state.video_action = VideoAction::ExitVideo;
                            }
                        } else {
                            if state.video_mode {
                                state.video_action = VideoAction::NextVideo;
                            } else {
                                state.video_action = VideoAction::PlayFirst;
                            }
                        }
                        tracker.start_pressed_at = Option::None;
                    },
                    Option::None => {},
                }
            }
        },
        GamepadEvent::AxisChanged { left_trigger, value } => {
            if left_trigger {
                let v: i64 = if value < 0 {
                    0
                } else if value > 100 {
                    100
                } else {
                    value
                };
                state.mouth_analog_value = v;
            }
        },
    }
}

} // verus!
