use protogen_face::canvas::{Canvas, PixelDrawer};
use protogen_face::eyes::default::DefaultEyes;
use protogen_face::eyes::heart::HeartEyes;
use protogen_face::face::{
    get_all_eye_types, get_all_mouth_types, get_all_nose_types, ElementCategory, FaceElement,
    FaceElementRegistry, FrameInputs, ProtogenFace,
};
use protogen_face::color::ColorPalette;
use protogen_face::gamepad::{
    handle_gamepad_event, ButtonTracker, CycleEyes, GamepadButton, GamepadEvent, MaskState,
    VideoAction,
};
use protogen_face::state::{RenderContext, SharedFaceState};

#[test]
fn element_lists_cover_every_variant() {
    let eyes = get_all_eye_types();
    assert_eq!(eyes.len(), 4);
    for e in &eyes {
        assert_eq!(e.category(), ElementCategory::Eyes);
    }
    assert_eq!(eyes[0].name(), "Default Eyes");
    assert_eq!(eyes[1].name(), "Heart Eyes");
    assert_eq!(eyes[2].name(), "O Eyes");
    assert_eq!(eyes[3].name(), "X Eyes");
    let mouths = get_all_mouth_types();
    assert_eq!(mouths.len(), 1);
    assert_eq!(mouths[0].category(), ElementCategory::Mouth);
    let noses = get_all_nose_types();
    assert_eq!(noses.len(), 1);
    assert_eq!(noses[0].category(), ElementCategory::Nose);
}

#[test]
fn eye_cycling_round_trip() {
    let mut face = ProtogenFace::new();
    let start = face.get_active_eyes_name();
    assert_eq!(start, "Default Eyes");
    face.cycle_eyes_forward();
    assert_eq!(face.get_active_eyes_name(), "Heart Eyes");
    face.cycle_eyes_forward();
    assert_eq!(face.get_active_eyes_name(), "O Eyes");
    face.cycle_eyes_forward();
    assert_eq!(face.get_active_eyes_name(), "X Eyes");
    face.cycle_eyes_forward();
    assert_eq!(face.get_active_eyes_name(), start);
}

#[test]
fn eye_cycling_backward_wraps() {
    let mut face = ProtogenFace::new();
    face.cycle_eyes_backward();
    assert_eq!(face.get_active_eyes_name(), "X Eyes");
    face.cycle_eyes_backward();
    assert_eq!(face.get_active_eyes_name(), "O Eyes");
}

#[test]
fn cycling_with_no_eye_variants_is_a_quiet_no_op() {
    let mut registry = FaceElementRegistry::new();
    registry.cycle_eyes_forward();
    registry.cycle_eyes_backward();
    assert_eq!(registry.get_active_eyes_name(), "None");
}

#[test]
fn active_eye_renders_and_inactive_does_not() {
    // Register only the default and heart eyes, make the heart active,
    // and render: the canvas must hold exactly the heart's writes and
    // none of the default eye's.
    let mut registry = FaceElementRegistry::new();
    registry.register(FaceElement::DefaultEyes(DefaultEyes::new()));
    registry.register(FaceElement::HeartEyes(HeartEyes::new()));
    registry.cycle_eyes_forward();
    let ctx = RenderContext {
        offset_x: 0,
        offset_y: 0,
        time_counter: 0,
        brightness: 100,
        palette: ColorPalette::Forest,
    };
    let ss = SharedFaceState::new();
    let drawer = PixelDrawer;
    let mut combined = Canvas::new();
    registry.render_all(&mut combined, &ctx, &ss, &drawer);

    let mut heart_only = Canvas::new();
    HeartEyes::new().render(&mut heart_only, &ctx, &ss, &drawer);
    assert_eq!(combined.writes().len(), heart_only.writes().len());
    for (a, b) in combined.writes().iter().zip(heart_only.writes().iter()) {
        assert_eq!(a, b);
    }

    let mut default_only = Canvas::new();
    DefaultEyes::new().render(&mut default_only, &ctx, &ss, &drawer);
    assert!(default_only.writes().len() > 0);
    assert_ne!(default_only.writes().len(), combined.writes().len());
}

#[test]
fn engine_frame_renders_within_panel_bounds() {
    let mut face = ProtogenFace::new();
    let mut canvas = Canvas::new();
    let inputs = FrameInputs {
        mask: MaskState::new(),
        now_secs: 0,
        audio_level: 0,
        seconds_idle: 0,
    };
    face.render(&mut canvas, &inputs);
    assert!(canvas.writes().len() > 0);
    for w in canvas.writes() {
        assert!(w.x >= 0 && w.x < 128);
        assert!(w.y >= 0 && w.y < 32);
    }
    assert_eq!(face.get_mouth_opening(), 0);
}

#[test]
fn engine_manual_mouth_override_drives_aperture() {
    let mut face = ProtogenFace::new();
    let mut canvas = Canvas::new();
    let mut mask = MaskState::new();
    mask.manual_mouth_mode = true;
    mask.mouth_analog_value = 50;
    let inputs = FrameInputs { mask, now_secs: 0, audio_level: 0, seconds_idle: 0 };
    face.render(&mut canvas, &inputs);
    assert_eq!(face.get_mouth_opening(), 300);
}

#[test]
fn engine_trigger_button_is_claimed_by_the_mouth() {
    let mut face = ProtogenFace::new();
    assert!(face.handle_element_button(GamepadButton::LeftTrigger));
    assert_eq!(face.get_mouth_opening(), 600);
    assert!(!face.handle_element_button(GamepadButton::North));
}

#[test]
fn mask_state_defaults() {
    let s = MaskState::new();
    assert!(!s.mic_muted);
    assert_eq!(s.brightness, 100);
    assert_eq!(s.color_palette, ColorPalette::Forest);
    assert!(s.blink_enabled);
    assert!(!s.manual_mouth_mode);
    assert_eq!(s.mouth_analog_value, 0);
    assert!(!s.video_mode);
    assert_eq!(s.video_action, VideoAction::Idle);
}

#[test]
fn gamepad_buttons_toggle_mask_state() {
    let mut state = MaskState::new();
    let mut tracker = ButtonTracker::new();
    let mut face = ProtogenFace::new();
    handle_gamepad_event(
        &mut state,
        &mut tracker,
        &mut face,
        GamepadEvent::ButtonPressed(GamepadButton::South),
        0,
    );
    assert!(state.mic_muted);
    handle_gamepad_event(
        &mut state,
        &mut tracker,
        &mut face,
        GamepadEvent::ButtonPressed(GamepadButton::North),
        0,
    );
    assert!(!state.blink_enabled);
    handle_gamepad_event(
        &mut state,
        &mut tracker,
        &mut face,
        GamepadEvent::ButtonPressed(GamepadButton::West),
        0,
    );
    assert_eq!(state.color_palette, ColorPalette::Fire);
    handle_gamepad_event(
        &mut state,
        &mut tracker,
        &mut face,
        GamepadEvent::ButtonPressed(GamepadButton::East),
        0,
    );
    assert!(state.manual_mouth_mode);
}

#[test]
fn gamepad_brightness_steps_are_clamped() {
    let mut state = MaskState::new();
    let mut tracker = ButtonTracker::new();
    let mut face = ProtogenFace::new();
    handle_gamepad_event(
        &mut state,
        &mut tracker,
        &mut face,
        GamepadEvent::ButtonPressed(GamepadButton::DPadUp),
        0,
    );
    assert_eq!(state.brightness, 100);
    for _ in 0..20 {
        handle_gamepad_event(
            &mut state,
            &mut tracker,
            &mut face,
            GamepadEvent::ButtonPressed(GamepadButton::DPadDown),
            0,
        );
    }
    assert_eq!(state.brightness, 10);
}

#[test]
fn gamepad_dpad_cycles_the_face_eyes() {
    let mut state = MaskState::new();
    let mut tracker = ButtonTracker::new();
    let mut face = ProtogenFace::new();
    handle_gamepad_event(
        &mut state,
        &mut tracker,
        &mut face,
        GamepadEvent::ButtonPressed(GamepadButton::DPadRight),
        0,
    );
    assert_eq!(face.get_active_eyes_name(), "Heart Eyes");
    handle_gamepad_event(
        &mut state,
        &mut tracker,
        &mut face,
        GamepadEvent::ButtonPressed(GamepadButton::DPadLeft),
        0,
    );
    assert_eq!(face.get_active_eyes_name(), "Default Eyes");
}

#[test]
fn gamepad_start_short_press_requests_playback() {
    let mut state = MaskState::new();
    let mut tracker = ButtonTracker::new();
    let mut face = ProtogenFace::new();
    handle_gamepad_event(
        &mut state,
        &mut tracker,
        &mut face,
        GamepadEvent::ButtonPressed(GamepadButton::Start),
        1000,
    );
    handle_gamepad_event(
        &mut state,
        &mut tracker,
        &mut face,
        GamepadEvent::ButtonReleased(GamepadButton::Start),
        1300,
    );
    assert_eq!(state.video_action, VideoAction::PlayFirst);
}

#[test]
fn gamepad_start_long_press_exits_video_mode() {
    let mut state = MaskState::new();
    state.video_mode = true;
    let mut tracker = ButtonTracker::new();
    let mut face = ProtogenFace::new();
    handle_gamepad_event(
        &mut state,
        &mut tracker,
        &mut face,
        GamepadEvent::ButtonPressed(GamepadButton::Start),
        1000,
    );
    handle_gamepad_event(
        &mut state,
        &mut tracker,
        &mut face,
        GamepadEvent::ButtonReleased(GamepadButton::Start),
        1900,
    );
    assert_eq!(state.video_action, VideoAction::ExitVideo);
}

#[test]
fn gamepad_short_press_in_video_mode_skips_ahead() {
    let mut state = MaskState::new();
    state.video_mode = true;
    let mut tracker = ButtonTracker::new();
    let mut face = ProtogenFace::new();
    handle_gamepad_event(
        &mut state,
        &mut tracker,
        &mut face,
        GamepadEvent::ButtonPressed(GamepadButton::Start),
        0,
    );
    handle_gamepad_event(
        &mut state,
        &mut tracker,
        &mut face,
        GamepadEvent::ButtonReleased(GamepadButton::Start),
        100,
    );
    assert_eq!(state.video_action, VideoAction::NextVideo);
}

#[test]
fn gamepad_left_trigger_axis_sets_analog_value() {
    let mut state = MaskState::new();
    let mut tracker = ButtonTracker::new();
    let mut face = ProtogenFace::new();
    handle_gamepad_event(
        &mut state,
        &mut tracker,
        &mut face,
        GamepadEvent::AxisChanged { left_trigger: true, value: 73 },
        0,
    );
    assert_eq!(state.mouth_analog_value, 73);
    handle_gamepad_event(
        &mut state,
        &mut tracker,
        &mut face,
        GamepadEvent::AxisChanged { left_trigger: true, value: -40 },
        0,
    );
    assert_eq!(state.mouth_analog_value, 0);
    handle_gamepad_event(
        &mut state,
        &mut tracker,
        &mut face,
        GamepadEvent::AxisChanged { left_trigger: false, value: 90 },
        0,
    );
    assert_eq!(state.mouth_analog_value, 0);
}

#[test]
fn cycle_eyes_trait_dispatch() {
    let mut face = ProtogenFace::new();
    let as_trait: &mut dyn CycleEyes = &mut face;
    as_trait.cycle_eyes_forward();
    assert_eq!(face.get_active_eyes_name(), "Heart Eyes");
}
