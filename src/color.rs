//! The colour value type: alpha (the dimmer), red, green, blue and white
//! channels, each a unit value (see `units`).

use vstd::prelude::*;
use crate::units::{FULL, byte, byte_of, mul_of, unit_mul};

verus! {

#[derive(Clone, Copy, Debug, PartialEq, Eq, Structural)]
pub struct Color {
    pub a: u16,
    pub r: u16,
    pub g: u16,
    pub b: u16,
    pub w: u16,
}

/// One-third of the unit range.
pub const THIRD: u16 = 21845;

/// Two-thirds of the unit range.
pub const TWO_THIRDS: u16 = 43690;

/// The triangular hue kernel `clamp(|6 fract(x) - 3| - 1, 0, 1)`, on unit values.
pub open spec fn hue_kernel(x: int) -> int {
    let f = x % 65535;
    let d = if 6 * f >= 3 * 65535 { 6 * f - 3 * 65535 } else { 3 * 65535 - 6 * f };
    if d <= 65535 {
        0
    } else if d - 65535 >= 65535 {
        65535
    } else {
        d - 65535
    }
}

/// `v * mix(1, k, s)`: the kernel value `k` mixed toward 1.0 as the
/// saturation `s` falls, then scaled by the value `v`.
pub open spec fn hsv_channel(k: int, s: int, v: int) -> int {
    v * (65535 - (65535 - k) * s / 65535) / 65535
}

/// The opaque colour of hue `h`, saturation `s` and value `v`: each primary
/// is the hue kernel at phase offset 0, 2/3 and 1/3 respectively.
pub open spec fn hsv_of(h: u16, s: u16, v: u16) -> Color {
    Color {
        a: FULL,
        r: hsv_channel(hue_kernel(h as int), s as int, v as int) as u16,
        g: hsv_channel(hue_kernel(h + TWO_THIRDS), s as int, v as int) as u16,
        b: hsv_channel(hue_kernel(h + THIRD), s as int, v as int) as u16,
        w: 0,
    }
}

/// `c` with its alpha scaled by `x`.
pub open spec fn dimmed(c: Color, x: u16) -> Color {
    Color { a: mul_of(c.a, x), ..c }
}

impl Color {
    pub fn argbw(a: u16, r: u16, g: u16, b: u16, w: u16) -> (c: Color)
        ensures
            c == (Color { a, r, g, b, w }),
    {
        Color { a, r, g, b, w }
    }

    pub fn argb(a: u16, r: u16, g: u16, b: u16) -> (c: Color)
        ensures
            c == (Color { a, r, g, b, w: 0 }),
    {
        Self::argbw(a, r, g, b, 0)
    }

    pub fn aw(a: u16, w: u16) -> (c: Color)
        ensures
            c == (Color { a, r: 0, g: 0, b: 0, w }),
    {
        Self::argbw(a, 0, 0, 0, w)
    }

    pub fn rgbw(r: u16, g: u16, b: u16, w: u16) -> (c: Color)
        ensures
            c == (Color { a: FULL, r, g, b, w }),
    {
        Self::argbw(FULL, r, g, b, w)
    }

    pub fn rgb(r: u16, g: u16, b: u16) -> (c: Color)
        ensures
            c == (Color { a: FULL, r, g, b, w: 0 }),
    {
        Self::argb(FULL, r, g, b)
    }

    pub fn w(w: u16) -> (c: Color)
        ensures
            c == (Color { a: FULL, r: 0, g: 0, b: 0, w }),
    {
        Self::aw(FULL, w)
    }

    /// The colour of hue `h`, saturation `s` and value `v`, fully opaque.
    pub fn hsv(h: u16, s: u16, v: u16) -> (c: Color)
        ensures
            c == hsv_of(h, s, v),
    {
        let r = hsv_mix(hue(h as u32), s, v);
        let g = hsv_mix(hue(h as u32 + TWO_THIRDS as u32), s, v);
        let b = hsv_mix(hue(h as u32 + THIRD as u32), s, v);
        Self::rgb(r, g, b)
    }

    /// The same colour with alpha replaced.
    pub fn a(self, a: u16) -> (c: Color)
        ensures
            c == (Color { a, ..self }),
    {
        Color { a, r: self.r, g: self.g, b: self.b, w: self.w }
    }

    /// The same colour with alpha scaled by `x`; the other channels are kept.
    pub fn a_mul(self, x: u16) -> (c: Color)
        ensures
            c == dimmed(self, x),
    {
        Color { a: unit_mul(self.a, x), r: self.r, g: self.g, b: self.b, w: self.w }
    }
}

/// Named entries of the control surface's palette.
#[derive(Clone, Copy, Debug, PartialEq, Eq, Structural)]
pub enum PaletteColor {
    /// A palette slot with no named colour; shown as white.
    Index(u8),
    Off,
    White,
    Red,
    Orange,
    Yellow,
    Pea,
    Lime,
    Mint,
    Cyan,
    Blue,
    Violet,
    Magenta,
    Pink,
}

/// Every channel at zero.
pub open spec fn dark() -> Color {
    Color { a: 0, r: 0, g: 0, b: 0, w: 0 }
}

/// An opaque colour with no white emitter.
pub open spec fn opaque(r: u16, g: u16, b: u16) -> Color {
    Color { a: FULL, r, g, b, w: 0 }
}

/// The colour that a palette entry names.
pub open spec fn palette_color(p: PaletteColor) -> Color {
    match p {
        PaletteColor::Index(_) => Color { a: FULL, r: 0, g: 0, b: 0, w: FULL },
        PaletteColor::Off => Color { a: 0, r: 0, g: 0, b: 0, w: 0 },
        PaletteColor::White => Color { a: FULL, r: 0, g: 0, b: 0, w: FULL },
        PaletteColor::Red => opaque(FULL, 0, 0),
        PaletteColor::Orange => opaque(FULL, 16449, 0),
        PaletteColor::Yellow => opaque(FULL, FULL, 0),
        PaletteColor::Pea => opaque(34930, FULL, 0),
        PaletteColor::Lime => opaque(0, FULL, 0),
        PaletteColor::Mint => opaque(0, FULL, 17498),
        PaletteColor::Cyan => opaque(0, 52428, FULL),
        PaletteColor::Blue => opaque(0, 0, FULL),
        PaletteColor::Violet => opaque(34930, 0, FULL),
        PaletteColor::Magenta => opaque(FULL, 0, FULL),
        PaletteColor::Pink => opaque(FULL, 24903, 52428),
    }
}

impl Color {
    /// The named colour: every channel at zero.
    pub fn off() -> (c: Color)
        ensures
            c == palette_color(PaletteColor::Off),
    {
        Color::from(PaletteColor::Off)
    }

    /// The named colour: the white emitter, opaque.
    pub fn white() -> (c: Color)
        ensures
            c == palette_color(PaletteColor::White),
    {
        Color::from(PaletteColor::White)
    }

    /// The named colour: opaque red.
    pub fn red() -> (c: Color)
        ensures
            c == palette_color(PaletteColor::Red),
    {
        Color::from(PaletteColor::Red)
    }

    /// The named colour: opaque orange.
    pub fn orange() -> (c: Color)
        ensures
            c == palette_color(PaletteColor::Orange),
    {
        Color::from(PaletteColor::Orange)
    }

    /// The named colour: opaque yellow.
    pub fn yellow() -> (c: Color)
        ensures
            c == palette_color(PaletteColor::Yellow),
    {
        Color::from(PaletteColor::Yellow)
    }

    /// The named colour: opaque pea.
    pub fn pea() -> (c: Color)
        ensures
            c == palette_color(PaletteColor::Pea),
    {
        Color::from(PaletteColor::Pea)
    }

    /// The named colour: opaque lime.
    pub fn lime() -> (c: Color)
        ensures
            c == palette_color(PaletteColor::Lime),
    {
        Color::from(PaletteColor::Lime)
    }

    /// The named colour: opaque mint.
    pub fn mint() -> (c: Color)
        ensures
            c == palette_color(PaletteColor::Mint),
    {
        Color::from(PaletteColor::Mint)
    }

    /// The named colour: opaque cyan.
    pub fn cyan() -> (c: Color)
        ensures
            c == palette_color(PaletteColor::Cyan),
    {
        Color::from(PaletteColor::Cyan)
    }

    /// The named colour: opaque blue.
    pub fn blue() -> (c: Color)
        ensures
            c == palette_color(PaletteColor::Blue),
    {
        Color::from(PaletteColor::Blue)
    }

    /// The named colour: opaque violet.
    pub fn violet() -> (c: Color)
        ensures
            c == palette_color(PaletteColor::Violet),
    {
        Color::from(PaletteColor::Violet)
    }

    /// The named colour: opaque magenta.
    pub fn magenta() -> (c: Color)
        ensures
            c == palette_color(PaletteColor::Magenta),
    {
        Color::from(PaletteColor::Magenta)
    }

    /// The named colour: opaque pink.
    pub fn pink() -> (c: Color)
        ensures
            c == palette_color(PaletteColor::Pink),
    {
        Color::from(PaletteColor::Pink)
    }

    /// All three primaries at full, opaque (brighter than, and distinct
    /// from, the white emitter).
    pub fn rgb_white() -> (c: Color)
        ensures
            c == opaque(FULL, FULL, FULL),
    {
        Color::rgb(FULL, FULL, FULL)
    }
}

impl From<PaletteColor> for Color {
    fn from(p: PaletteColor) -> (c: Color) {
        match p {
            PaletteColor::Index(_) => Color::w(FULL),
            PaletteColor::Off => Color::argbw(0, 0, 0, 0, 0),
            PaletteColor::White => Color::w(FULL),
            PaletteColor::Red => Color::rgb(FULL, 0, 0),
            PaletteColor::Orange => Color::rgb(FULL, 16449, 0),
            PaletteColor::Yellow => Color::rgb(FULL, FULL, 0),
            PaletteColor::Pea => Color::rgb(34930, FULL, 0),
            PaletteColor::Lime => Color::rgb(0, FULL, 0),
            PaletteColor::Mint => Color::rgb(0, FULL, 17498),
            PaletteColor::Cyan => Color::rgb(0, 52428, FULL),
            PaletteColor::Blue => Color::rgb(0, 0, FULL),
            PaletteColor::Violet => Color::rgb(34930, 0, FULL),
            PaletteColor::Magenta => Color::rgb(FULL, 0, FULL),
            PaletteColor::Pink => Color::rgb(FULL, 24903, 52428),
        }
    }
}

impl vstd::std_specs::convert::FromSpecImpl<PaletteColor> for Color {
    open spec fn obeys_from_spec() -> bool {
        true
    }

    open spec fn from_spec(p: PaletteColor) -> Color {
        palette_color(p)
    }
}

/// What a control-surface pad shows: a palette entry, or a direct RGB value.
#[derive(Clone, Copy, Debug, PartialEq, Eq, Structural)]
pub enum PadColor {
    Palette(PaletteColor),
    Rgb(u8, u8, u8),
}

/// Pure white (white emitter, or all three primaries) shows as the surface's
/// own white entry, which renders brighter than a direct RGB white; any other
/// colour shows as its primaries scaled by alpha, one byte each.
pub open spec fn pad_color(c: Color) -> PadColor {
    if c == palette_color(PaletteColor::White) || c == opaque(FULL, FULL, FULL) {
        PadColor::Palette(PaletteColor::White)
    } else {
        PadColor::Rgb(byte_of(mul_of(c.r, c.a)), byte_of(mul_of(c.g, c.a)), byte_of(mul_of(c.b, c.a)))
    }
}

impl From<Color> for PadColor {
    fn from(c: Color) -> (p: PadColor) {
        if c == Color::w(FULL) || c == Color::rgb(FULL, FULL, FULL) {
            PadColor::Palette(PaletteColor::White)
        } else {
            let r = byte(unit_mul(c.r, c.a));
            let g = byte(unit_mul(c.g, c.a));
            let b = byte(unit_mul(c.b, c.a));
            PadColor::Rgb(r, g, b)
        }
    }
}

impl vstd::std_specs::convert::FromSpecImpl<Color> for PadColor {
    open spec fn obeys_from_spec() -> bool {
        true
    }

    open spec fn from_spec(c: Color) -> PadColor {
        pad_color(c)
    }
}

/// The red, green and blue levels reported to a visualiser: full on all three
/// for the white palette colour, the primaries as they are otherwise.
pub fn telemetry_rgb(c: Color) -> (t: (u16, u16, u16))
    ensures
        t == if c == palette_color(PaletteColor::White) {
            (FULL, FULL, FULL)
        } else {
            (c.r, c.g, c.b)
        },
{
    if c == Color::w(FULL) {
        (FULL, FULL, FULL)
    } else {
        (c.r, c.g, c.b)
    }
}

fn hue(x: u32) -> (k: u16)
    requires
        x <= 3 * 65535,
    ensures
        k as int == hue_kernel(x as int),
{
    let f: u32 = x % 65535;
    let d: u32 = if 6 * f >= 3 * 65535 { 6 * f - 3 * 65535 } else { 3 * 65535 - 6 * f };
    if d <= 65535 {
        0
    } else if d - 65535 >= 65535 {
        65535
    } else {
        (d - 65535) as u16
    }
}

fn hsv_mix(k: u16, s: u16, v: u16) -> (c: u16)
    ensures
        c as int == hsv_channel(k as int, s as int, v as int),
{
    let dk: u32 = 65535 - k as u32;
    assert(dk * (s as u32) <= 65535 * 65535) by (nonlinear_arith)
        requires dk <= 65535, s <= 65535;
    let q: u32 = dk * (s as u32) / 65535;
    assert(q <= 65535) by (nonlinear_arith)
        requires q == dk * (s as u32) / 65535, dk <= 65535, s <= 65535;
    let m: u32 = 65535 - q;
    assert((v as u32) * m <= 65535 * 65535) by (nonlinear_arith)
        requires m <= 65535, v <= 65535;
    let c: u32 = (v as u32) * m / 65535;
    assert(c <= 65535) by (nonlinear_arith)
        requires c == (v as u32) * m / 65535, m <= 65535, v <= 65535;
    c as u16
}

} // verus!
