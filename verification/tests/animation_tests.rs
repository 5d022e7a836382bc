use protogen_face::eyes::default::DefaultEyes;
use protogen_face::eyes::heart::HeartEyes;
use protogen_face::mouth::{current_mouth_mode, sin_centi, DefaultMouth, MouthMode};
use protogen_face::gamepad::GamepadButton;
use protogen_face::state::SharedFaceState;

#[test]
fn blink_sequence_walks_forward_and_back() {
    let mut eyes = DefaultEyes::new();
    let mut ss = SharedFaceState::new();
    // Let ten whole seconds elapse, one per update; the lids stay open the
    // whole time the interval has not yet passed.
    for s in 1..=9u64 {
        eyes.update(&mut ss, s);
        assert_eq!((ss.eye_bottom, ss.eye_top), (145, 900));
    }
    // The tenth second starts the blink; eleven further steps at a fixed
    // clock reading walk the scripted pairs forward and back.
    let script = [
        (200, 800),
        (300, 700),
        (400, 600),
        (500, 500),
        (600, 400),
        (700, 10),
        (600, 400),
        (500, 500),
        (400, 600),
        (300, 700),
        (200, 800),
    ];
    for (k, expected) in script.iter().enumerate() {
        eyes.update(&mut ss, 10);
        assert_eq!((ss.eye_bottom, ss.eye_top), *expected, "step {}", k);
    }
    // The cycle ends with the second counter reset exactly once, and the
    // next update waits with open lids again.
    eyes.update(&mut ss, 10);
    assert_eq!((ss.eye_bottom, ss.eye_top), (145, 900));
}

#[test]
fn blink_disabled_holds_lids_open() {
    let mut eyes = DefaultEyes::new();
    let mut ss = SharedFaceState::new();
    ss.blink_enabled = false;
    for s in 1..=50u64 {
        eyes.update(&mut ss, s);
        assert_eq!((ss.eye_bottom, ss.eye_top), (145, 900));
    }
}

#[test]
fn heart_eyes_never_change_state() {
    let mut eyes = HeartEyes::new();
    let mut ss = SharedFaceState::new();
    for _ in 0..60 {
        eyes.update(&mut ss);
        assert_eq!(eyes, HeartEyes::new());
        assert_eq!(ss, SharedFaceState::new());
    }
}

#[test]
fn mouth_opening_always_clamped() {
    let mut mouth = DefaultMouth::new();
    let mut ss = SharedFaceState::new();
    // Loud input opens the mouth, clamped at the maximum.
    for _ in 0..20 {
        mouth.update(&mut ss, 90, 0);
        assert!(ss.mouth_opening >= 0 && ss.mouth_opening <= 600);
    }
    assert_eq!(ss.mouth_opening, 600);
    // Silence closes it, clamped at zero.
    for _ in 0..20 {
        mouth.update(&mut ss, 0, 0);
        assert!(ss.mouth_opening >= 0 && ss.mouth_opening <= 600);
    }
    assert_eq!(ss.mouth_opening, 0);
}

#[test]
fn mouth_audio_steps_open_and_close() {
    let mut mouth = DefaultMouth::new();
    let mut ss = SharedFaceState::new();
    mouth.update(&mut ss, 90, 0);
    assert_eq!(ss.mouth_opening, 150);
    mouth.update(&mut ss, 0, 0);
    assert_eq!(ss.mouth_opening, 70);
}

#[test]
fn breathing_moves_by_bounded_steps() {
    // In idle mode the mouth eases toward the sine target: every step
    // changes the opening by at most the fixed easing step of 0.10.
    let mut mouth = DefaultMouth::new();
    let mut ss = SharedFaceState::new();
    let mut prev = ss.mouth_opening;
    for _ in 0..500 {
        mouth.update(&mut ss, 0, 30);
        let delta = (ss.mouth_opening - prev).abs();
        assert!(delta <= 10);
        prev = ss.mouth_opening;
    }
}

#[test]
fn manual_override_freezes_the_mouth_element() {
    let mut mouth = DefaultMouth::new();
    let mut ss = SharedFaceState::new();
    mouth.update(&mut ss, 90, 0);
    let frozen = ss.mouth_opening;
    ss.manual_mouth_active = true;
    mouth.update(&mut ss, 90, 0);
    mouth.update(&mut ss, 0, 50);
    assert_eq!(ss.mouth_opening, frozen);
}

#[test]
fn mouth_mode_selection() {
    assert_eq!(current_mouth_mode(true, 0), MouthMode::Manual);
    assert_eq!(current_mouth_mode(true, 99), MouthMode::Manual);
    assert_eq!(current_mouth_mode(false, 29), MouthMode::Audio);
    assert_eq!(current_mouth_mode(false, 30), MouthMode::Breathing);
}

#[test]
fn mouth_trigger_buttons_force_aperture() {
    let mut mouth = DefaultMouth::new();
    let mut ss = SharedFaceState::new();
    assert!(mouth.handle_button(GamepadButton::LeftTrigger, &mut ss));
    assert_eq!(ss.mouth_opening, 600);
    assert!(mouth.handle_button(GamepadButton::RightTrigger, &mut ss));
    assert_eq!(ss.mouth_opening, 0);
    assert!(!mouth.handle_button(GamepadButton::South, &mut ss));
}

#[test]
fn sine_approximation_hits_quarter_points() {
    assert_eq!(sin_centi(0), 0);
    assert_eq!(sin_centi(157), 100);
    assert_eq!(sin_centi(314), 0);
    assert_eq!(sin_centi(471), -100);
    for p in 0..628 {
        let v = sin_centi(p);
        assert!(v >= -100 && v <= 100);
    }
}
