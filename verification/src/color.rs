//! Color palettes and the shimmer interpolation that colors every pixel.
//!
//! A palette is a short ordered list of RGB anchor colors. The shimmer
//! function maps an unbounded color index (derived from pixel position and
//! the frame counter) to a smooth blend between adjacent anchors, scaled by
//! a brightness factor. Color indices and brightness values are carried in
//! centi-units: a brightness of `25500` stands for the full value 255.

use vstd::prelude::*;
use vstd::math::abs;
use vstd::arithmetic::div_mod::{
    lemma_div_denominator, lemma_div_is_ordered, lemma_div_multiples_vanish,
    lemma_div_pos_is_pos,
};

verus! {

/// The palettes, cycled through in a fixed order.
#[derive(Debug, Clone, Copy, PartialEq, Eq, Structural)]
pub enum ColorPalette {
    Forest,
    Fire,
    Ocean,
    Purple,
    Rainbow,
}

/// An 8-bit RGB color, the unit of every pixel write.
#[derive(Debug, Clone, Copy, PartialEq, Eq, Structural)]
pub struct Rgb {
    pub red: u8,
    pub green: u8,
    pub blue: u8,
}

/// Number of anchor colors in every palette.
pub const ANCHOR_COUNT: i64 = 6;

/// Period of the shimmer blend in centi-units: `ANCHOR_COUNT` anchors,
/// ten centi-index steps from one anchor to the next, one hundred
/// centi-units per step.
pub const SHIMMER_PERIOD: i64 = 6000;

/// Full brightness in centi-units (255.00).
pub const BRIGHT_FULL: i64 = 25500;

impl ColorPalette {
    /// The successor in the fixed palette cycle.
    pub open spec fn spec_next(self) -> ColorPalette {
        match self {
            ColorPalette::Forest => ColorPalette::Fire,
            ColorPalette::Fire => ColorPalette::Ocean,
            ColorPalette::Ocean => ColorPalette::Purple,
            ColorPalette::Purple => ColorPalette::Rainbow,
            ColorPalette::Rainbow => ColorPalette::Forest,
        }
    }

    /// Advance to the next palette in the cycle.
    pub fn next(&self) -> (r: ColorPalette)
        ensures
            r == self.spec_next(),
    {
        match self {
            ColorPalette::Forest => ColorPalette::Fire,
            ColorPalette::Fire => ColorPalette::Ocean,
            ColorPalette::Ocean => ColorPalette::Purple,
            ColorPalette::Purple => ColorPalette::Rainbow,
            ColorPalette::Rainbow => ColorPalette::Forest,
        }
    }

    /// The display name of the palette.
    pub open spec fn spec_name(self) -> Seq<char> {
        match self {
            ColorPalette::Forest => "Forest (Green)"@,
            ColorPalette::Fire => "Fire (Red/Orange)"@,
            ColorPalette::Ocean => "Ocean (Blue/Cyan)"@,
            ColorPalette::Purple => "Purple/Pink"@,
            ColorPalette::Rainbow => "Rainbow"@,
        }
    }

    /// Human-readable name, for status displays.
    pub fn name(&self) -> (r: &'static str)
        ensures
            r@ == self.spec_name(),
    {
        match self {
            ColorPalette::Forest => "Forest (Green)",
            ColorPalette::Fire => "Fire (Red/Orange)",
            ColorPalette::Ocean => "Ocean (Blue/Cyan)",
            ColorPalette::Purple => "Purple/Pink",
            ColorPalette::Rainbow => "Rainbow",
        }
    }
}

/// The palette cycle returns to its start after exactly five steps, one per
/// palette: `next` is a total cyclic permutation of the palette set.
pub proof fn lemma_palette_cycle(p: ColorPalette)
    ensures
        p.spec_next().spec_next().spec_next().spec_next().spec_next() == p,
{
}

/// Anchor color `i` of palette `p`, as an (R, G, B) triple.
pub open spec fn spec_anchor(p: ColorPalette, i: int) -> (u8, u8, u8) {
    match p {
        ColorPalette::Forest => {
            if i == 0 { (0u8, 64u8, 0u8) }
            else if i == 1 { (0u8, 128u8, 32u8) }
            else if i == 2 { (32u8, 160u8, 64u8) }
            else if i == 3 { (64u8, 192u8, 96u8) }
            else if i == 4 { (96u8, 224u8, 128u8) }
            else { (128u8, 255u8, 160u8) }
        },
        ColorPalette::Fire => {
            if i == 0 { (64u8, 16u8, 0u8) }
            else if i == 1 { (128u8, 32u8, 0u8) }
            else if i == 2 { (192u8, 64u8, 0u8) }
            else if i == 3 { (255u8, 96u8, 0u8) }
            else if i == 4 { (255u8, 128u8, 32u8) }
            else { (255u8, 160u8, 64u8) }
        },
        ColorPalette::Ocean => {
            if i == 0 { (0u8, 32u8, 64u8) }
            else if i == 1 { (0u8, 64u8, 128u8) }
            else if i == 2 { (0u8, 96u8, 192u8) }
            else if i == 3 { (32u8, 128u8, 255u8) }
            else if i == 4 { (64u8, 160u8, 255u8) }
            else { (128u8, 192u8, 255u8) }
        },
        ColorPalette::Purple => {
            if i == 0 { (64u8, 0u8, 64u8) }
            else if i == 1 { (128u8, 0u8, 128u8) }
            else if i == 2 { (160u8, 32u8, 160u8) }
            else if i == 3 { (192u8, 64u8, 192u8) }
            else if i == 4 { (224u8, 96u8, 224u8) }
            else { (255u8, 128u8, 255u8) }
        },
        ColorPalette::Rainbow => {
            if i == 0 { (255u8, 0u8, 0u8) }
            else if i == 1 { (255u8, 128u8, 0u8) }
            else if i == 2 { (255u8, 255u8, 0u8) }
            else if i == 3 { (0u8, 255u8, 0u8) }
            else if i == 4 { (0u8, 128u8, 255u8) }
            else { (128u8, 0u8, 255u8) }
        },
    }
}

/// Anchor color `i` of palette `p`.
fn anchor(p: ColorPalette, i: i64) -> (r: (u8, u8, u8))
    requires
        0 <= i < ANCHOR_COUNT,
    ensures
        r == spec_anchor(p, i as int),
{
    match p {
        ColorPalette::Forest => {
            if i == 0 { (0u8, 64u8, 0u8) }
            else if i == 1 { (0u8, 128u8, 32u8) }
            else if i == 2 { (32u8, 160u8, 64u8) }
            else if i == 3 { (64u8, 192u8, 96u8) }
            else if i == 4 { (96u8, 224u8, 128u8) }
            else { (128u8, 255u8, 160u8) }
        },
        ColorPalette::Fire => {
            if i == 0 { (64u8, 16u8, 0u8) }
            else if i == 1 { (128u8, 32u8, 0u8) }
            else if i == 2 { (192u8, 64u8, 0u8) }
            else if i == 3 { (255u8, 96u8, 0u8) }
            else if i == 4 { (255u8, 128u8, 32u8) }
            else { (255u8, 160u8, 64u8) }
        },
        ColorPalette::Ocean => {
            if i == 0 { (0u8, 32u8, 64u8) }
            else if i == 1 { (0u8, 64u8, 128u8) }
            else if i == 2 { (0u8, 96u8, 192u8) }
            else if i == 3 { (32u8, 128u8, 255u8) }
            else if i == 4 { (64u8, 160u8, 255u8) }
            else { (128u8, 192u8, 255u8) }
        },
        ColorPalette::Purple => {
            if i == 0 { (64u8, 0u8, 64u8) }
            else if i == 1 { (128u8, 0u8, 128u8) }
            else if i == 2 { (160u8, 32u8, 160u8) }
            else if i == 3 { (192u8, 64u8, 192u8) }
            else if i == 4 { (224u8, 96u8, 224u8) }
            else { (255u8, 128u8, 255u8) }
        },
        ColorPalette::Rainbow => {
            if i == 0 { (255u8, 0u8, 0u8) }
            else if i == 1 { (255u8, 128u8, 0u8) }
            else if i == 2 { (255u8, 255u8, 0u8) }
            else if i == 3 { (0u8, 255u8, 0u8) }
            else if i == 4 { (0u8, 128u8, 255u8) }
            else { (128u8, 0u8, 255u8) }
        },
    }
}

/// Channel `k` (0 = red, 1 = green, 2 = blue) of an anchor triple.
pub open spec fn channel_of(a: (u8, u8, u8), k: int) -> u8 {
    if k == 0 { a.0 } else if k == 1 { a.1 } else { a.2 }
}

/// Brightness clamped to the valid centi-range [0, 255.00].
pub open spec fn spec_clamp_bright(b: int) -> int {
    if b < 0 { 0 } else if b > BRIGHT_FULL { BRIGHT_FULL as int } else { b }
}

/// Linear blend between two anchor channels, in milli-channel units.
/// `blend` ranges over [0, 1000), the fractional position between anchors.
pub open spec fn spec_blend_milli(c1: u8, c2: u8, blend: int) -> int {
    1000 * c1 + (c2 - c1) * blend
}

/// Scale a milli-channel value by a centi-brightness factor and truncate
/// to a whole channel value: `milli / 1000 * (bc / 25500)`, floored.
pub open spec fn spec_scale_channel(milli: int, bc: int) -> int {
    (milli * bc) / 25500000
}

/// One output channel of the shimmer blend.
pub open spec fn spec_shimmer_channel(ci: int, b: int, p: ColorPalette, k: int) -> int {
    let bc = spec_clamp_bright(b);
    let norm = abs(ci) % (SHIMMER_PERIOD as nat);
    let base = norm as int / 1000;
    let nxt = (base + 1) % (ANCHOR_COUNT as int);
    let blend = norm as int % 1000;
    let c1 = channel_of(spec_anchor(p, base), k);
    let c2 = channel_of(spec_anchor(p, nxt), k);
    spec_scale_channel(spec_blend_milli(c1, c2, blend), bc)
}

/// The full shimmer color for a color index and brightness.
pub open spec fn spec_shimmer(ci: int, b: int, p: ColorPalette) -> Rgb {
    Rgb {
        red: spec_shimmer_channel(ci, b, p, 0) as u8,
        green: spec_shimmer_channel(ci, b, p, 1) as u8,
        blue: spec_shimmer_channel(ci, b, p, 2) as u8,
    }
}

/// A shimmer channel always lands in [0, 255], so the `u8` casts in
/// `spec_shimmer` are exact.
pub proof fn lemma_shimmer_channel_in_range(ci: int, b: int, p: ColorPalette, k: int)
    ensures
        0 <= spec_shimmer_channel(ci, b, p, k) <= 255,
{
    let bc = spec_clamp_bright(b);
    let norm = abs(ci) % (SHIMMER_PERIOD as nat);
    let base = norm as int / 1000;
    let nxt = (base + 1) % (ANCHOR_COUNT as int);
    let blend = norm as int % 1000;
    let c1 = channel_of(spec_anchor(p, base), k);
    let c2 = channel_of(spec_anchor(p, nxt), k);
    let milli = spec_blend_milli(c1, c2, blend);
    assert(0 <= blend < 1000);
    assert(0 <= milli <= 255000) by (nonlinear_arith)
        requires
            milli == 1000 * c1 + (c2 - c1) * blend,
            0 <= c1 <= 255,
            0 <= c2 <= 255,
            0 <= blend < 1000;
    assert(milli * bc <= 255000 * 25500) by (nonlinear_arith)
        requires
            0 <= milli <= 255000,
            0 <= bc <= 25500;
    assert(milli * bc >= 0) by (nonlinear_arith)
        requires
            0 <= milli,
            0 <= bc;
    lemma_div_is_ordered(0, milli * bc, 25500000);
    lemma_div_is_ordered(milli * bc, 255000int * 25500, 25500000);
}

/// Smallest value of channel `k` over all anchors of palette `p`.
pub open spec fn palette_channel_min(p: ColorPalette, k: int) -> int {
    vstd::math::min(channel_of(spec_anchor(p, 0), k) as int,
    vstd::math::min(channel_of(spec_anchor(p, 1), k) as int,
    vstd::math::min(channel_of(spec_anchor(p, 2), k) as int,
    vstd::math::min(channel_of(spec_anchor(p, 3), k) as int,
    vstd::math::min(channel_of(spec_anchor(p, 4), k) as int,
                    channel_of(spec_anchor(p, 5), k) as int)))))
}

/// Largest value of channel `k` over all anchors of palette `p`.
pub open spec fn palette_channel_max(p: ColorPalette, k: int) -> int {
    vstd::math::max(channel_of(spec_anchor(p, 0), k) as int,
    vstd::math::max(channel_of(spec_anchor(p, 1), k) as int,
    vstd::math::max(channel_of(spec_anchor(p, 2), k) as int,
    vstd::math::max(channel_of(spec_anchor(p, 3), k) as int,
    vstd::math::max(channel_of(spec_anchor(p, 4), k) as int,
                    channel_of(spec_anchor(p, 5), k) as int)))))
}

/// No overshoot: for every color index and brightness, each shimmer output
/// channel stays between the palette's smallest and largest anchor value for
/// that channel, scaled by the clamped brightness factor `bc / 255.00`.
pub proof fn lemma_shimmer_no_overshoot(ci: int, b: int, p: ColorPalette, k: int)
    ensures
        ({
            let bc = spec_clamp_bright(b);
            (palette_channel_min(p, k) * bc) / 25500 <= spec_shimmer_channel(ci, b, p, k)
                <= (palette_channel_max(p, k) * bc) / 25500
        }),
{
    let bc = spec_clamp_bright(b);
    let norm = abs(ci) % (SHIMMER_PERIOD as nat);
    let base = norm as int / 1000;
    let nxt = (base + 1) % (ANCHOR_COUNT as int);
    let blend = norm as int % 1000;
    let c1 = channel_of(spec_anchor(p, base), k);
    let c2 = channel_of(spec_anchor(p, nxt), k);
    let milli = spec_blend_milli(c1, c2, blend);
    let lo = palette_channel_min(p, k);
    let hi = palette_channel_max(p, k);
    assert(0 <= base < 6 && 0 <= nxt < 6);
    assert(lo <= c1 <= hi && lo <= c2 <= hi);
    assert(1000 * lo <= milli <= 1000 * hi) by (nonlinear_arith)
        requires
            milli == 1000 * c1 + (c2 - c1) * blend,
            lo <= c1 <= hi,
            lo <= c2 <= hi,
            0 <= blend < 1000;
    assert(1000 * lo * bc <= milli * bc <= 1000 * hi * bc) by (nonlinear_arith)
        requires
            1000 * lo <= milli <= 1000 * hi,
            0 <= bc;
    lemma_div_is_ordered(1000 * lo * bc, milli * bc, 25500000);
    lemma_div_is_ordered(milli * bc, 1000 * hi * bc, 25500000);
    assert(0 <= lo * bc && 0 <= hi * bc) by (nonlinear_arith)
        requires
            0 <= lo,
            0 <= hi,
            0 <= bc;
    lemma_div_denominator(1000 * (lo * bc), 1000, 25500);
    lemma_div_denominator(1000 * (hi * bc), 1000, 25500);
    lemma_div_multiples_vanish(lo * bc, 1000);
    lemma_div_multiples_vanish(hi * bc, 1000);
    assert(1000 * lo * bc == 1000 * (lo * bc)) by (nonlinear_arith);
    assert(1000 * hi * bc == 1000 * (hi * bc)) by (nonlinear_arith);
    assert((1000 * (lo * bc)) / 25500000 == (lo * bc) / 25500) by {
        assert(1000int * 25500 == 25500000);
    };
    assert((1000 * (hi * bc)) / 25500000 == (hi * bc) / 25500) by {
        assert(1000int * 25500 == 25500000);
    };
}

/// Smooth palette color with brightness applied.
///
/// The color index selects a position along the palette's anchor cycle at
/// one-tenth-anchor granularity (negative indices are folded by absolute
/// value); the result linearly interpolates the two adjacent anchors and is
/// scaled by the clamped brightness.
pub fn get_shimmer_color(color_index: i64, brightness: i64, palette: ColorPalette) -> (r: Rgb)
    requires
        -1_000_000_000_000_000 <= color_index <= 1_000_000_000_000_000,
    ensures
        r == spec_shimmer(color_index as int, brightness as int, palette),
{
    let bc: i64 = if brightness < 0 {
        0
    } else if brightness > BRIGHT_FULL {
        BRIGHT_FULL
    } else {
        brightness
    };
    let mag: i64 = if color_index < 0 { -color_index } else { color_index };
    assert(mag == abs(color_index as int));
    let norm: i64 = mag % SHIMMER_PERIOD;
    let base: i64 = norm / 1000;
    let nxt: i64 = (base + 1) % ANCHOR_COUNT;
    let blend: i64 = norm % 1000;
    let (r1, g1, b1) = anchor(palette, base);
    let (r2, g2, b2) = anchor(palette, nxt);

    proof {
        lemma_shimmer_channel_in_range(color_index as int, brightness as int, palette, 0);
        lemma_shimmer_channel_in_range(color_index as int, brightness as int, palette, 1);
        lemma_shimmer_channel_in_range(color_index as int, brightness as int, palette, 2);
    }

    proof {
        assert(-255000 <= (r2 - r1) * blend <= 255000) by (nonlinear_arith)
            requires
                0 <= r1 <= 255,
                0 <= r2 <= 255,
                0 <= blend < 1000;
        assert(-255000 <= (g2 - g1) * blend <= 255000) by (nonlinear_arith)
            requires
                0 <= g1 <= 255,
                0 <= g2 <= 255,
                0 <= blend < 1000;
        assert(-255000 <= (b2 - b1) * blend <= 255000) by (nonlinear_arith)
            requires
                0 <= b1 <= 255,
                0 <= b2 <= 255,
                0 <= blend < 1000;
    }
    let red_m: i64 = 1000 * (r1 as i64) + ((r2 as i64) - (r1 as i64)) * blend;
    let green_m: i64 = 1000 * (g1 as i64) + ((g2 as i64) - (g1 as i64)) * blend;
    let blue_m: i64 = 1000 * (b1 as i64) + ((b2 as i64) - (b1 as i64)) * blend;

    Rgb {
        red: ((red_m * bc) / 25500000) as u8,
        green: ((green_m * bc) / 25500000) as u8,
        blue: ((blue_m * bc) / 25500000) as u8,
    }
}

} // verus!
