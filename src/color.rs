//! The colour of one sector: a hue, a saturation and a lightness.
use vstd::prelude::*;
use vstd::string::StringExecFns;
use crate::text::{fixed_text, push_fixed};
use crate::theme::{SvgTheme, ring_theme_spec, xor_fold};

verus! {

/// A hue is counted in units of `1 / HUE_UNIT` degree.
pub const HUE_UNIT: u32 = 255;

/// A saturation or a lightness is counted in units of `1 / PERCENT_UNIT` percent.
pub const PERCENT_UNIT: u32 = 3;

/// An HSL colour with exact rational components.
#[derive(Debug, Clone, Copy, PartialEq, Eq, Structural)]
pub struct Hsl {
    /// Degrees times `HUE_UNIT`; not reduced modulo 360.
    pub hue: u32,
    /// Percent times `PERCENT_UNIT`.
    pub saturation: u32,
    /// Percent times `PERCENT_UNIT`.
    pub lightness: u32,
}

/// The top four bits of a colour seed.
pub open spec fn hue_bits(seed: u8) -> nat {
    (seed / 16) as nat
}

/// The two bits below the hue bits.
pub open spec fn saturation_bits(seed: u8) -> nat {
    ((seed / 4) % 4) as nat
}

/// The two lowest bits.
pub open spec fn lightness_bits(seed: u8) -> nat {
    (seed % 4) as nat
}

/// The colour of a sector: with `g` the global theme, `r` the ring's theme
/// and `h`, `s`, `l` the seed's bit fields,
/// hue `= 360 g / 255 + 120 r / 255 + 30 h / 15` degrees,
/// saturation `= 20 + 80 s / 3` percent and lightness `= 40 + 50 l / 3` percent.
pub open spec fn color_spec(global: u8, ring: u8, seed: u8) -> Hsl {
    Hsl {
        hue: (360 * global + 120 * ring + 510 * hue_bits(seed)) as u32,
        saturation: (60 + 80 * saturation_bits(seed)) as u32,
        lightness: (120 + 50 * lightness_bits(seed)) as u32,
    }
}

/// Every colour has a saturation from 20 to 100 percent and a lightness from
/// 40 to 90 percent.
pub proof fn lemma_color_bounds(global: u8, ring: u8, seed: u8)
    ensures
        20 * PERCENT_UNIT <= color_spec(global, ring, seed).saturation <= 100 * PERCENT_UNIT,
        40 * PERCENT_UNIT <= color_spec(global, ring, seed).lightness <= 90 * PERCENT_UNIT,
        color_spec(global, ring, seed).hue < 540 * HUE_UNIT,
{
}

/// The colour of sector `index` of ring `ring_index` under a theme of `digest`.
pub open spec fn sector_color(digest: Seq<u8>, ring_index: int, index: int) -> Hsl {
    color_spec(xor_fold(digest), ring_theme_spec(digest, ring_index), digest[ring_index * 8 + index])
}

/// The colour of sector `index` of ring `ring_index`.
pub fn construct_color(ring_index: usize, index: usize, theme: &SvgTheme) -> (c: Hsl)
    requires
        theme.wf(),
        ring_index < 4,
        index < 8,
    ensures
        c == sector_color(theme.rings@, ring_index as int, index as int),
{
    let color = theme.ring(ring_index, index);
    let h = color >> 4;
    let s = (color >> 2) & 0x03;
    let l = color & 0x03;
    assert(color >> 4u8 == color / 16 && (color >> 2u8) & 3u8 == (color / 4) % 4 && color & 3u8
        == color % 4) by (bit_vector);
    let g = theme.global_theme as u32;
    let r = theme.ring_theme(ring_index) as u32;
    Hsl {
        hue: 360 * g + 120 * r + 510 * (h as u32),
        saturation: 60 + 80 * (s as u32),
        lightness: 120 + 50 * (l as u32),
    }
}

/// The text of a colour, `hsl(H, S%, L%)`, each component with two decimals,
/// rounded down.
pub open spec fn hsl_text(c: Hsl) -> Seq<char> {
    "hsl("@ + fixed_text(c.hue * 100 / HUE_UNIT as int, 2) + ", "@ + fixed_text(
        c.saturation * 100 / PERCENT_UNIT as int,
        2,
    ) + "%, "@ + fixed_text(c.lightness * 100 / PERCENT_UNIT as int, 2) + "%)"@
}

/// Writes the text of a colour.
pub fn color_text(c: &Hsl) -> (t: String)
    requires
        c.hue < 540 * HUE_UNIT,
        c.saturation <= 100 * PERCENT_UNIT,
        c.lightness <= 90 * PERCENT_UNIT,
    ensures
        t@ == hsl_text(*c),
{
    let mut t = String::from_str("hsl(");
    push_fixed(&mut t, (c.hue as i64) * 100 / (HUE_UNIT as i64), 2);
    t.append(", ");
    push_fixed(&mut t, (c.saturation as i64) * 100 / (PERCENT_UNIT as i64), 2);
    t.append("%, ");
    push_fixed(&mut t, (c.lightness as i64) * 100 / (PERCENT_UNIT as i64), 2);
    t.append("%)");
    t
}

} // verus!
