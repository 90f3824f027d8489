use vstd::prelude::*;
use crate::dmx::{blit, put};
use crate::show::ColorMode;
use crate::units::{FULL, inv, lerp_byte, lerp_of};

verus! {

/// Colour selection of the laser projector.
#[derive(Clone, Copy, Debug, PartialEq, Eq, Structural)]
pub enum LaserColor {
    /// A hardware code written as it is.
    Raw(u8),
    /// Red, green and blue emitters switched on or off.
    Rgb(bool, bool, bool),
    /// One of the seven built-in colour mixes, taken modulo seven.
    Mix(usize),
}

/// The channel value for an emitter combination.
pub open spec fn rgb_code(r: bool, g: bool, b: bool) -> u8 {
    match (r, g, b) {
        (true, false, false) => 76,
        (false, true, false) => 98,
        (false, false, true) => 116,
        (true, true, false) => 86,
        (true, false, true) => 122,
        (false, true, true) => 104,
        (true, true, true) => 64,
        (false, false, false) => 0,
    }
}

/// The channel value of the built-in mix with index `i % 7`.
pub open spec fn mix_code(i: usize) -> u8 {
    let k = i % 7;
    if k == 0 {
        0
    } else if k == 1 {
        10
    } else if k == 2 {
        20
    } else if k == 3 {
        28
    } else if k == 4 {
        38
    } else if k == 5 {
        50
    } else {
        58
    }
}

impl LaserColor {
    /// The red emitter alone.
    pub fn red() -> (c: LaserColor)
        ensures
            c == LaserColor::Rgb(true, false, false),
    {
        LaserColor::Rgb(true, false, false)
    }

    /// The green emitter alone.
    pub fn green() -> (c: LaserColor)
        ensures
            c == LaserColor::Rgb(false, true, false),
    {
        LaserColor::Rgb(false, true, false)
    }

    /// The blue emitter alone.
    pub fn blue() -> (c: LaserColor)
        ensures
            c == LaserColor::Rgb(false, false, true),
    {
        LaserColor::Rgb(false, false, true)
    }

    /// All three emitters.
    pub fn rgb() -> (c: LaserColor)
        ensures
            c == LaserColor::Rgb(true, true, true),
    {
        LaserColor::Rgb(true, true, true)
    }

    pub open spec fn code(self) -> u8 {
        match self {
            LaserColor::Raw(i) => i,
            LaserColor::Rgb(r, g, b) => rgb_code(r, g, b),
            LaserColor::Mix(i) => mix_code(i),
        }
    }

    /// The laser's colour channel value.
    pub fn byte(self) -> (r: u8)
        ensures
            r == self.code(),
    {
        match self {
            LaserColor::Raw(i) => i,
            LaserColor::Rgb(r, g, b) => match (r, g, b) {
                (true, false, false) => 76,
                (false, true, false) => 98,
                (false, false, true) => 116,
                (true, true, false) => 86,
                (true, false, true) => 122,
                (false, true, true) => 104,
                (true, true, true) => 64,
                (false, false, false) => 0,
            },
            LaserColor::Mix(i) => {
                let k: usize = i % 7;
                if k == 0 {
                    0
                } else if k == 1 {
                    10
                } else if k == 2 {
                    20
                } else if k == 3 {
                    28
                } else if k == 4 {
                    38
                } else if k == 5 {
                    50
                } else {
                    58
                }
            },
        }
    }
}

/// The figure that the laser draws.
#[derive(Clone, Copy, Debug, PartialEq, Eq, Structural)]
pub enum LaserPattern {
    /// A hardware code written as it is.
    Raw(u8),
    Square,
    SquareWide,
    SquareXWide,
    SquareBlock,
    Circle,
    CircleWide,
    CircleDash,
    CircleQuad,
    CircleCircle,
    CircleSquare,
    CircleX,
    CircleY,
    LineX,
    LineY,
    LineXY,
    LineDX,
    LineDY,
    Line2X,
    Line2Y,
    LinePenta,
    LineStair,
    Tri,
    TriX,
    TriY,
    Tri3d,
    TriTri,
    TriCircle,
    TriWing,
    TriArch,
    Penta,
    Squig1,
    Squig2,
    Three,
    Two,
    One,
    Music,
    Tree,
    Star,
    Sin,
    Heart,
    Elephant,
    Apple,
    Plus,
    PlusOval,
    PlusArrow,
    PlusDia,
    Arrow,
    ArrowInvert,
    Hourglass1,
    Hourglass2,
}

impl LaserPattern {
    pub open spec fn code(self) -> u8 {
        match self {
            LaserPattern::Raw(i) => i,
            LaserPattern::Square => 0,
            LaserPattern::SquareWide => 232,
            LaserPattern::SquareXWide => 255,
            LaserPattern::SquareBlock => 224,
            LaserPattern::Circle => 6,
            LaserPattern::CircleWide => 82,
            LaserPattern::CircleDash => 138,
            LaserPattern::CircleQuad => 144,
            LaserPattern::CircleCircle => 146,
            LaserPattern::CircleSquare => 162,
            LaserPattern::CircleX => 26,
            LaserPattern::CircleY => 32,
            LaserPattern::LineX => 12,
            LaserPattern::LineY => 16,
            LaserPattern::LineXY => 22,
            LaserPattern::LineDX => 46,
            LaserPattern::LineDY => 52,
            LaserPattern::Line2X => 56,
            LaserPattern::Line2Y => 62,
            LaserPattern::LinePenta => 172,
            LaserPattern::LineStair => 182,
            LaserPattern::Tri => 36,
            LaserPattern::TriX => 42,
            LaserPattern::TriY => 100,
            LaserPattern::Tri3d => 152,
            LaserPattern::TriTri => 168,
            LaserPattern::TriCircle => 214,
            LaserPattern::TriWing => 218,
            LaserPattern::TriArch => 224,
            LaserPattern::Penta => 186,
            LaserPattern::Squig1 => 66,
            LaserPattern::Squig2 => 72,
            LaserPattern::Three => 94,
            LaserPattern::Two => 112,
            LaserPattern::One => 116,
            LaserPattern::Music => 76,
            LaserPattern::Tree => 86,
            LaserPattern::Star => 104,
            LaserPattern::Sin => 108,
            LaserPattern::Heart => 122,
            LaserPattern::Elephant => 126,
            LaserPattern::Apple => 132,
            LaserPattern::Plus => 156,
            LaserPattern::PlusOval => 194,
            LaserPattern::PlusArrow => 196,
            LaserPattern::PlusDia => 250,
            LaserPattern::Arrow => 204,
            LaserPattern::ArrowInvert => 228,
            LaserPattern::Hourglass1 => 238,
            LaserPattern::Hourglass2 => 210,
        }
    }

    /// The pattern channel value.
    pub fn byte(self) -> (r: u8)
        ensures
            r == self.code(),
    {
        match self {
            LaserPattern::Raw(i) => i,
            LaserPattern::Square => 0,
            LaserPattern::SquareWide => 232,
            LaserPattern::SquareXWide => 255,
            LaserPattern::SquareBlock => 224,
            LaserPattern::Circle => 6,
            LaserPattern::CircleWide => 82,
            LaserPattern::CircleDash => 138,
            LaserPattern::CircleQuad => 144,
            LaserPattern::CircleCircle => 146,
            LaserPattern::CircleSquare => 162,
            LaserPattern::CircleX => 26,
            LaserPattern::CircleY => 32,
            LaserPattern::LineX => 12,
            LaserPattern::LineY => 16,
            LaserPattern::LineXY => 22,
            LaserPattern::LineDX => 46,
            LaserPattern::LineDY => 52,
            LaserPattern::Line2X => 56,
            LaserPattern::Line2Y => 62,
            LaserPattern::LinePenta => 172,
            LaserPattern::LineStair => 182,
            LaserPattern::Tri => 36,
            LaserPattern::TriX => 42,
            LaserPattern::TriY => 100,
            LaserPattern::Tri3d => 152,
            LaserPattern::TriTri => 168,
            LaserPattern::TriCircle => 214,
            LaserPattern::TriWing => 218,
            LaserPattern::TriArch => 224,
            LaserPattern::Penta => 186,
            LaserPattern::Squig1 => 66,
            LaserPattern::Squig2 => 72,
            LaserPattern::Three => 94,
            LaserPattern::Two => 112,
            LaserPattern::One => 116,
            LaserPattern::Music => 76,
            LaserPattern::Tree => 86,
            LaserPattern::Star => 104,
            LaserPattern::Sin => 108,
            LaserPattern::Heart => 122,
            LaserPattern::Elephant => 126,
            LaserPattern::Apple => 132,
            LaserPattern::Plus => 156,
            LaserPattern::PlusOval => 194,
            LaserPattern::PlusArrow => 196,
            LaserPattern::PlusDia => 250,
            LaserPattern::Arrow => 204,
            LaserPattern::ArrowInvert => 228,
            LaserPattern::Hourglass1 => 238,
            LaserPattern::Hourglass2 => 210,
        }
    }
}

/// How the figure is stroked, with its fill fraction (a unit value).
#[derive(Clone, Copy, Debug, PartialEq, Eq, Structural)]
pub enum LaserStroke {
    Solid(u16),
    Dots(u16),
}

impl LaserStroke {
    /// A solid stroke uses the lower half of the channel, dots the upper
    /// half; within each, a fuller stroke gives a lower value.
    pub open spec fn code(self) -> u8 {
        match self {
            LaserStroke::Solid(fr) => lerp_of((FULL - fr) as u16, 0, 127),
            LaserStroke::Dots(fr) => lerp_of((FULL - fr) as u16, 128, 255),
        }
    }

    /// The stroke channel value.
    pub fn byte(self) -> (r: u8)
        ensures
            r == self.code(),
    {
        match self {
            LaserStroke::Solid(fr) => lerp_byte(inv(fr), 0, 127),
            LaserStroke::Dots(fr) => lerp_byte(inv(fr), 128, 255),
        }
    }
}

/// The laser colour for a colour mode.
pub open spec fn mode_color(mode: ColorMode) -> LaserColor {
    match mode {
        ColorMode::Red => LaserColor::Rgb(true, false, false),
        ColorMode::Green => LaserColor::Rgb(false, true, false),
        ColorMode::Blue => LaserColor::Rgb(false, false, true),
        ColorMode::Other => LaserColor::Rgb(true, true, true),
    }
}

impl From<ColorMode> for LaserColor {
    fn from(mode: ColorMode) -> (c: LaserColor) {
        match mode {
            ColorMode::Red => LaserColor::Rgb(true, false, false),
            ColorMode::Green => LaserColor::Rgb(false, true, false),
            ColorMode::Blue => LaserColor::Rgb(false, false, true),
            ColorMode::Other => LaserColor::Rgb(true, true, true),
        }
    }
}

impl vstd::std_specs::convert::FromSpecImpl<ColorMode> for LaserColor {
    open spec fn obeys_from_spec() -> bool {
        true
    }

    open spec fn from_spec(mode: ColorMode) -> LaserColor {
        mode_color(mode)
    }
}

#[derive(Clone, Copy, Debug, PartialEq, Eq, Structural)]
pub struct Laser {
    pub active: bool,
    pub pattern: LaserPattern,
    pub color: LaserColor,
    pub stroke: LaserStroke,
    pub rotate: u16,
    pub xflip: u16,
    pub yflip: u16,
    pub x: u16,
    pub y: u16,
    pub size: u16,
}

impl Default for Laser {
    fn default() -> (p: Laser)
        ensures
            p == Laser::initial(),
    {
        Laser {
            active: false,
            pattern: LaserPattern::Raw(0),
            color: LaserColor::Rgb(true, true, true),
            stroke: LaserStroke::Solid(FULL),
            rotate: 0,
            xflip: 0,
            yflip: 0,
            x: 0,
            y: 0,
            size: 0,
        }
    }
}

impl Laser {
    pub const SIZE: usize = 10;

    /// Off, raw pattern 0, all emitters, a full solid stroke, every axis at 0.
    pub open spec fn initial() -> Laser {
        Laser {
            active: false,
            pattern: LaserPattern::Raw(0),
            color: LaserColor::Rgb(true, true, true),
            stroke: LaserStroke::Solid(FULL),
            rotate: 0,
            xflip: 0,
            yflip: 0,
            x: 0,
            y: 0,
            size: 0,
        }
    }

    /// The channel bytes: on/off, pattern, rotation, y flip, x flip, x, y,
    /// size, colour, stroke.
    pub open spec fn frame(self) -> Seq<u8> {
        seq![
            if self.active { 64u8 } else { 0u8 },
            self.pattern.code(),
            lerp_of(self.rotate, 0, 127),
            lerp_of(self.yflip, 0, 127),
            lerp_of(self.xflip, 0, 127),
            lerp_of(self.x, 0, 127),
            lerp_of(self.y, 0, 127),
            lerp_of(self.size, 0, 63),
            self.color.code(),
            self.stroke.code(),
        ]
    }

    /// The number of channels this fixture occupies.
    pub fn size(&self) -> (n: usize)
        ensures
            n == Self::SIZE,
            n == self.frame().len(),
    {
        Self::SIZE
    }

    pub fn bytes(&self) -> (v: Vec<u8>)
        ensures
            v@ == self.frame(),
    {
        let on: u8 = if self.active { 64 } else { 0 };
        let v = vec![
            on,
            self.pattern.byte(),
            lerp_byte(self.rotate, 0, 127),
            lerp_byte(self.yflip, 0, 127),
            lerp_byte(self.xflip, 0, 127),
            lerp_byte(self.x, 0, 127),
            lerp_byte(self.y, 0, 127),
            lerp_byte(self.size, 0, 63),
            self.color.byte(),
            self.stroke.byte(),
        ];
        assert(v@ =~= self.frame());
        v
    }

    /// Writes the frame at `at`; every other position is kept.
    pub fn encode(&self, buffer: &mut [u8], at: usize)
        requires
            at + Self::SIZE <= old(buffer)@.len(),
        ensures
            final(buffer)@ == put(old(buffer)@, at as int, self.frame()),
    {
        let v = self.bytes();
        blit(buffer, at, &v);
    }
}

} // verus!
