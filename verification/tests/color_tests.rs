use protogen_face::color::{get_shimmer_color, ColorPalette, Rgb};

#[test]
fn palette_cycle_returns_after_five_steps() {
    let all = [
        ColorPalette::Forest,
        ColorPalette::Fire,
        ColorPalette::Ocean,
        ColorPalette::Purple,
        ColorPalette::Rainbow,
    ];
    for p in all {
        let five = p.next().next().next().next().next();
        assert_eq!(five, p);
    }
}

#[test]
fn palette_next_order() {
    assert_eq!(ColorPalette::Forest.next(), ColorPalette::Fire);
    assert_eq!(ColorPalette::Fire.next(), ColorPalette::Ocean);
    assert_eq!(ColorPalette::Ocean.next(), ColorPalette::Purple);
    assert_eq!(ColorPalette::Purple.next(), ColorPalette::Rainbow);
    assert_eq!(ColorPalette::Rainbow.next(), ColorPalette::Forest);
}

#[test]
fn palette_names() {
    assert_eq!(ColorPalette::Forest.name(), "Forest (Green)");
    assert_eq!(ColorPalette::Fire.name(), "Fire (Red/Orange)");
    assert_eq!(ColorPalette::Ocean.name(), "Ocean (Blue/Cyan)");
    assert_eq!(ColorPalette::Purple.name(), "Purple/Pink");
    assert_eq!(ColorPalette::Rainbow.name(), "Rainbow");
}

#[test]
fn shimmer_at_anchor_zero_full_brightness() {
    // Color index 0 sits exactly on the first Forest anchor (0, 64, 0).
    let c = get_shimmer_color(0, 25500, ColorPalette::Forest);
    assert_eq!(c, Rgb { red: 0, green: 64, blue: 0 });
}

#[test]
fn shimmer_halfway_between_anchors() {
    // Index 5.00 is halfway between Forest anchors (0,64,0) and (0,128,32).
    let c = get_shimmer_color(500, 25500, ColorPalette::Forest);
    assert_eq!(c, Rgb { red: 0, green: 96, blue: 16 });
}

#[test]
fn shimmer_brightness_scales_channels() {
    // Half brightness halves each channel (with truncation).
    let c = get_shimmer_color(500, 12750, ColorPalette::Forest);
    assert_eq!(c, Rgb { red: 0, green: 48, blue: 8 });
}

#[test]
fn shimmer_negative_index_folds_by_absolute_value() {
    let pos = get_shimmer_color(500, 25500, ColorPalette::Ocean);
    let neg = get_shimmer_color(-500, 25500, ColorPalette::Ocean);
    assert_eq!(pos, neg);
}

#[test]
fn shimmer_wraps_at_period() {
    // 60.00 index units is one full period.
    let a = get_shimmer_color(700, 25500, ColorPalette::Rainbow);
    let b = get_shimmer_color(700 + 6000, 25500, ColorPalette::Rainbow);
    assert_eq!(a, b);
}

#[test]
fn shimmer_zero_brightness_is_black() {
    let c = get_shimmer_color(4321, 0, ColorPalette::Purple);
    assert_eq!(c, Rgb { red: 0, green: 0, blue: 0 });
}

#[test]
fn shimmer_overlarge_brightness_is_clamped() {
    let a = get_shimmer_color(500, 99999, ColorPalette::Fire);
    let b = get_shimmer_color(500, 25500, ColorPalette::Fire);
    assert_eq!(a, b);
}

#[test]
fn shimmer_stays_within_palette_anchor_bounds() {
    // No overshoot: every output channel stays within the palette's
    // anchor minima and maxima at full brightness.
    for ci in (-6000..6000).step_by(37) {
        let c = get_shimmer_color(ci, 25500, ColorPalette::Forest);
        assert!(c.red <= 128);
        assert!(c.green >= 64 && c.green <= 255);
        assert!(c.blue <= 160);
    }
}
