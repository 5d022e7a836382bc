use protogen_face::canvas::{Canvas, PixelDrawer};
use protogen_face::color::ColorPalette;
use protogen_face::eyes::heart::{heart_pattern, HeartEyes};
use protogen_face::eyes::EyePosition;
use protogen_face::face::{FrameInputs, ProtogenFace};
use protogen_face::gamepad::MaskState;
use protogen_face::nose::DefaultNose;
use protogen_face::raster::Raster;
use protogen_face::state::{RenderContext, SharedFaceState};

fn test_ctx() -> RenderContext {
    RenderContext {
        offset_x: 0,
        offset_y: 0,
        time_counter: 0,
        brightness: 100,
        palette: ColorPalette::Forest,
    }
}

#[test]
fn heart_pattern_pixel_count() {
    let mut lit = 0;
    for row in 0..16 {
        for col in 0..24 {
            if heart_pattern(row, col) {
                lit += 1;
            }
        }
    }
    assert_eq!(lit, 204);
}

#[test]
fn heart_render_writes_every_lit_pixel_twice() {
    // At the stock position the whole heart lies on the panel, so each of
    // its 204 lit pixels produces a write and a mirrored write.
    let mut canvas = Canvas::new();
    HeartEyes::new().render(&mut canvas, &test_ctx(), &SharedFaceState::new(), &PixelDrawer);
    assert_eq!(canvas.writes().len(), 204 * 2);
}

#[test]
fn heart_draws_its_full_bitmap_every_frame() {
    // Heart eyes never blink: however long they have been active with
    // blinking enabled, every frame holds the whole bitmap.
    let mut eyes = HeartEyes::new();
    let mut ss = SharedFaceState::new();
    for _ in 0..600 {
        eyes.update(&mut ss);
    }
    let mut canvas = Canvas::new();
    eyes.render(&mut canvas, &test_ctx(), &ss, &PixelDrawer);
    assert_eq!(canvas.writes().len(), 204 * 2);
}

#[test]
fn nose_cell_matches_hand_computed_boundaries() {
    // At column x = 56 the upper parabola sits at 27.00 and the lower at
    // -0.1 * 9 + 23 = 22.10, so rows 23 through 26 lie inside.
    let nose = DefaultNose::new();
    let ctx = test_ctx();
    let ss = SharedFaceState::new();
    for y in 0..=32 {
        let inside = nose.cell(&ctx, &ss, 55, y).is_some();
        assert_eq!(inside, (23..=26).contains(&y), "row {}", y);
    }
}

#[test]
fn nose_cell_carries_scan_color_index() {
    let nose = DefaultNose::new();
    let ctx = test_ctx();
    let ss = SharedFaceState::new();
    let cmd = nose.cell(&ctx, &ss, 55, 24).unwrap();
    // time 0, x = 56, y = 24: index 5.00 * 56 + 5.00 * 25.
    assert_eq!(cmd.color_index, 500 * 56 + 500 * 25);
    assert_eq!(cmd.bright, 25500);
    assert_eq!((cmd.x, cmd.y), (56, 24));
}

#[test]
fn engine_frame_writes_come_in_mirrored_pairs() {
    let mut face = ProtogenFace::new();
    let mut canvas = Canvas::new();
    let inputs = FrameInputs {
        mask: MaskState::new(),
        now_secs: 0,
        audio_level: 0,
        seconds_idle: 0,
    };
    face.render(&mut canvas, &inputs);
    let writes = canvas.writes();
    assert!(writes.len() > 0);
    assert_eq!(writes.len() % 2, 0);
    let mut k = 0;
    while k < writes.len() {
        let a = &writes[k];
        let b = &writes[k + 1];
        assert_eq!(b.x, 2 * 64 - 1 - a.x);
        assert_eq!(b.y, a.y);
        assert_eq!(b.color, a.color);
        k += 2;
    }
}

#[test]
fn engine_palette_changes_frame_colors() {
    let mut face_a = ProtogenFace::new();
    let mut face_b = ProtogenFace::new();
    let mut canvas_a = Canvas::new();
    let mut canvas_b = Canvas::new();
    let mask_a = MaskState::new();
    let mut mask_b = MaskState::new();
    mask_b.color_palette = ColorPalette::Ocean;
    face_a.render(
        &mut canvas_a,
        &FrameInputs { mask: mask_a, now_secs: 0, audio_level: 0, seconds_idle: 0 },
    );
    face_b.render(
        &mut canvas_b,
        &FrameInputs { mask: mask_b, now_secs: 0, audio_level: 0, seconds_idle: 0 },
    );
    let a = canvas_a.writes();
    let b = canvas_b.writes();
    assert_eq!(a.len(), b.len());
    let mut differs = false;
    for (wa, wb) in a.iter().zip(b.iter()) {
        assert_eq!((wa.x, wa.y), (wb.x, wb.y));
        if wa.color != wb.color {
            differs = true;
        }
    }
    assert!(differs);
}

#[test]
fn heart_corner_rounds_toward_zero() {
    // A heart centered left of the panel: center -2.50 gives corner
    // column (-2.50 - 12.00) rounded toward zero, -14, so bitmap columns
    // 15 and up still land on the panel. Per pattern row that is
    // 6+7+8+8+8+7+6+5+4+3+2+1 = 65 lit pixels, each written twice.
    let eyes = HeartEyes::with_position(EyePosition { center_x: -250, center_y: 2200 });
    let mut canvas = Canvas::new();
    eyes.render(&mut canvas, &test_ctx(), &SharedFaceState::new(), &PixelDrawer);
    assert_eq!(canvas.writes().len(), 65 * 2);
}

#[test]
fn engine_frame_counter_is_monotone() {
    let mut face = ProtogenFace::new();
    let mut canvas = Canvas::new();
    let inputs = FrameInputs {
        mask: MaskState::new(),
        now_secs: 0,
        audio_level: 0,
        seconds_idle: 0,
    };
    let mut prev = face.time_counter;
    for _ in 0..5 {
        face.render(&mut canvas, &inputs);
        assert_eq!(face.time_counter, prev + 100);
        prev = face.time_counter;
    }
}
