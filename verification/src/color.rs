//! Colours with integer channels and the linear blend used to derive
//! lighter and darker variants.

use vstd::prelude::*;

verus! {

/// The largest value of a colour channel.
pub const CHANNEL_MAX: u8 = 255;

/// The number of parts that make a whole fraction.
pub const WHOLE: u8 = 100;

/// An RGBA colour, eight bits per channel.
#[derive(Clone, Copy, Debug, PartialEq, Eq, Structural)]
pub struct Color {
    pub r: u8,
    pub g: u8,
    pub b: u8,
    pub a: u8,
}

/// A fraction in hundredths, with anything above the whole counted as the whole.
pub open spec fn clamp_percent(percent: int) -> int {
    if percent > 100 {
        100
    } else {
        percent
    }
}

/// Linear interpolation from `from` toward `to` by `percent` hundredths,
/// rounded down.
pub open spec fn mix(from: int, to: int, percent: int) -> int {
    (from * (100 - percent) + to * percent) / 100
}

/// An interpolated channel lies between its two end points.
pub proof fn lemma_mix_between(from: int, to: int, percent: int)
    requires
        0 <= from <= 255,
        0 <= to <= 255,
        0 <= percent <= 100,
    ensures
        from <= to ==> from <= mix(from, to, percent) <= to,
        to <= from ==> to <= mix(from, to, percent) <= from,
        mix(from, to, 0) == from,
        mix(from, to, 100) == to,
{
    let n = from * (100 - percent) + to * percent;
    assert(from <= to ==> from * 100 <= n <= to * 100) by (nonlinear_arith)
        requires
            0 <= percent <= 100,
            n == from * (100 - percent) + to * percent,
    ;
    assert(to <= from ==> to * 100 <= n <= from * 100) by (nonlinear_arith)
        requires
            0 <= percent <= 100,
            n == from * (100 - percent) + to * percent,
    ;
}

fn mix_channel(from: u8, to: u8, percent: u8) -> (res: u8)
    requires
        percent <= 100,
    ensures
        res == mix(from as int, to as int, percent as int),
{
    let keep: u32 = 100 - percent as u32;
    assert(from * keep <= 25500 && to * percent <= 25500) by (nonlinear_arith)
        requires
            from <= 255,
            to <= 255,
            keep <= 100,
            percent <= 100,
    ;
    let a: u32 = from as u32 * keep;
    let b: u32 = to as u32 * percent as u32;
    proof {
        lemma_mix_between(from as int, to as int, percent as int);
    }
    ((a + b) / 100) as u8
}

impl Color {
    /// This colour with every colour channel moved toward white by `percent`
    /// hundredths of the distance, and the same opacity.
    pub open spec fn spec_lighten(self, percent: int) -> Color {
        let p = clamp_percent(percent);
        Color {
            r: mix(self.r as int, 255, p) as u8,
            g: mix(self.g as int, 255, p) as u8,
            b: mix(self.b as int, 255, p) as u8,
            a: self.a,
        }
    }

    /// This colour with every colour channel moved toward black by `percent`
    /// hundredths of the distance, and the same opacity.
    pub open spec fn spec_darken(self, percent: int) -> Color {
        let p = clamp_percent(percent);
        Color {
            r: mix(self.r as int, 0, p) as u8,
            g: mix(self.g as int, 0, p) as u8,
            b: mix(self.b as int, 0, p) as u8,
            a: self.a,
        }
    }

    /// An opaque colour from its three colour channels.
    pub fn rgb(r: u8, g: u8, b: u8) -> (res: Color)
        ensures
            res == (Color { r, g, b, a: 255 }),
    {
        Color { r, g, b, a: CHANNEL_MAX }
    }

    /// Moves every colour channel toward white by `percent` hundredths of
    /// the distance; the opacity is kept.
    pub fn lighten(self, percent: u8) -> (res: Color)
        ensures
            res == self.spec_lighten(percent as int),
    {
        let p: u8 = if percent > WHOLE { WHOLE } else { percent };
        Color {
            r: mix_channel(self.r, CHANNEL_MAX, p),
            g: mix_channel(self.g, CHANNEL_MAX, p),
            b: mix_channel(self.b, CHANNEL_MAX, p),
            a: self.a,
        }
    }

    /// Moves every colour channel toward black by `percent` hundredths of
    /// the distance; the opacity is kept.
    pub fn darken(self, percent: u8) -> (res: Color)
        ensures
            res == self.spec_darken(percent as int),
    {
        let p: u8 = if percent > WHOLE { WHOLE } else { percent };
        Color {
            r: mix_channel(self.r, 0, p),
            g: mix_channel(self.g, 0, p),
            b: mix_channel(self.b, 0, p),
            a: self.a,
        }
    }
}

/// Lightening lowers no colour channel and darkening raises none;
/// neither changes the opacity, and by nothing neither changes the colour.
pub proof fn lemma_lighten_darken(color: Color, percent: int)
    requires
        0 <= percent,
    ensures
        color.spec_lighten(percent).r >= color.r,
        color.spec_lighten(percent).g >= color.g,
        color.spec_lighten(percent).b >= color.b,
        color.spec_darken(percent).r <= color.r,
        color.spec_darken(percent).g <= color.g,
        color.spec_darken(percent).b <= color.b,
        color.spec_lighten(percent).a == color.a,
        color.spec_darken(percent).a == color.a,
        color.spec_lighten(0) == color,
        color.spec_darken(0) == color,
{
    let p = clamp_percent(percent);
    lemma_mix_between(color.r as int, 255, p);
    lemma_mix_between(color.g as int, 255, p);
    lemma_mix_between(color.b as int, 255, p);
    lemma_mix_between(color.r as int, 0, p);
    lemma_mix_between(color.g as int, 0, p);
    lemma_mix_between(color.b as int, 0, p);
    lemma_mix_between(color.r as int, 255, 0);
    lemma_mix_between(color.g as int, 255, 0);
    lemma_mix_between(color.b as int, 255, 0);
    lemma_mix_between(color.r as int, 0, 0);
    lemma_mix_between(color.g as int, 0, 0);
    lemma_mix_between(color.b as int, 0, 0);
}

} // verus!
