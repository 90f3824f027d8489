//! The moving-head beam: yaw, yaw fine, pitch, pitch fine, speed, dimmer,
//! strobe, red, green, blue, white, colour preset, mode, auto/reset, ring.

use vstd::prelude::*;
use crate::color::{Color, THIRD, TWO_THIRDS};
use crate::dmx::{blit, put};
use crate::fixture::{color_slots, slots};
use crate::units::{FULL, byte, byte_of, inv, mul_of, unit_mul};

verus! {

#[derive(Clone, Copy, Debug, PartialEq, Eq, Structural)]
pub enum BeamMode {
    Manual,
    ColorCycle,
    Auto,
}

impl BeamMode {
    pub open spec fn code(self) -> u8 {
        match self {
            BeamMode::Manual => 0,
            BeamMode::ColorCycle => 159,
            BeamMode::Auto => 60,
        }
    }

    /// The mode channel value.
    pub fn byte(&self) -> (r: u8)
        ensures
            r == self.code(),
    {
        match self {
            BeamMode::Manual => 0,
            BeamMode::ColorCycle => 159,
            BeamMode::Auto => 60,
        }
    }
}

/// The colour of the LED ring around the beam.
#[derive(Clone, Copy, Debug, PartialEq, Eq, Structural)]
pub enum BeamRing {
    Off,
    Red,
    Green,
    Blue,
    Yellow,
    Purple,
    Teal,
    White,
    RedYellow,
    RedPurple,
    RedWhite,
    GreenYellow,
    GreenBlue,
    GreenWhite,
    BluePurple,
    BlueTeal,
    BlueWhite,
    Cycle,
    /// A hardware code written as it is.
    Raw(u8),
}

impl BeamRing {
    pub open spec fn code(self) -> u8 {
        match self {
            BeamRing::Off => 0,
            BeamRing::Red => 4,
            BeamRing::Green => 22,
            BeamRing::Blue => 36,
            BeamRing::Yellow => 56,
            BeamRing::Purple => 74,
            BeamRing::Teal => 84,
            BeamRing::White => 104,
            BeamRing::RedYellow => 116,
            BeamRing::RedPurple => 128,
            BeamRing::RedWhite => 140,
            BeamRing::GreenYellow => 156,
            BeamRing::GreenBlue => 176,
            BeamRing::GreenWhite => 192,
            BeamRing::BluePurple => 206,
            BeamRing::BlueTeal => 216,
            BeamRing::BlueWhite => 242,
            BeamRing::Cycle => 248,
            BeamRing::Raw(i) => i,
        }
    }

    /// The ring channel value.
    pub fn byte(&self) -> (r: u8)
        ensures
            r == self.code(),
    {
        match self {
            BeamRing::Off => 0,
            BeamRing::Red => 4,
            BeamRing::Green => 22,
            BeamRing::Blue => 36,
            BeamRing::Yellow => 56,
            BeamRing::Purple => 74,
            BeamRing::Teal => 84,
            BeamRing::White => 104,
            BeamRing::RedYellow => 116,
            BeamRing::RedPurple => 128,
            BeamRing::RedWhite => 140,
            BeamRing::GreenYellow => 156,
            BeamRing::GreenBlue => 176,
            BeamRing::GreenWhite => 192,
            BeamRing::BluePurple => 206,
            BeamRing::BlueTeal => 216,
            BeamRing::BlueWhite => 242,
            BeamRing::Cycle => 248,
            BeamRing::Raw(i) => *i,
        }
    }
}

#[derive(Clone, Copy, Debug, PartialEq, Eq, Structural)]
pub struct Beam {
    pub mode: BeamMode,
    pub pitch: u16,
    pub yaw: u16,
    pub speed: u16,
    pub color: Color,
    pub ring: BeamRing,
}

impl Default for Beam {
    fn default() -> (p: Beam)
        ensures
            p == Beam::initial(),
    {
        Beam {
            mode: BeamMode::Manual,
            pitch: 0,
            yaw: TWO_THIRDS,
            speed: FULL,
            color: Color::argbw(0, 0, 0, 0, 0),
            ring: BeamRing::Off,
        }
    }
}

/// The yaw position mapped onto the usable third-to-full sweep of the head.
pub open spec fn yaw_unit(yaw: u16) -> u16 {
    (THIRD + mul_of(yaw, TWO_THIRDS)) as u16
}

impl Beam {
    pub const SIZE: usize = 15;

    /// Manual mode, pitch 0, yaw at two-thirds, full speed, dark, ring off.
    pub open spec fn initial() -> Beam {
        Beam {
            mode: BeamMode::Manual,
            pitch: 0,
            yaw: TWO_THIRDS,
            speed: FULL,
            color: Color { a: 0, r: 0, g: 0, b: 0, w: 0 },
            ring: BeamRing::Off,
        }
    }

    /// The channel bytes of this fixture, reserved positions zero.
    pub open spec fn frame(self) -> Seq<u8> {
        let c = self.color;
        let s = slots(c);
        seq![
            byte_of(yaw_unit(self.yaw)),
            0u8,
            byte_of(self.pitch),
            0u8,
            byte_of((FULL - self.speed) as u16),
            byte_of(c.a),
            0u8,
            s.0,
            s.1,
            s.2,
            byte_of(c.w),
            0u8,
            self.mode.code(),
            0u8,
            self.ring.code(),
        ]
    }

    /// The number of channels this fixture occupies.
    pub fn size(&self) -> (n: usize)
        ensures
            n == Self::SIZE,
            n == self.frame().len(),
    {
        Self::SIZE
    }

    pub fn bytes(&self) -> (v: Vec<u8>)
        ensures
            v@ == self.frame(),
    {
        let c = self.color;
        let (r, g, b) = color_slots(c);
        let yaw: u16 = THIRD + unit_mul(self.yaw, TWO_THIRDS);
        let v = vec![
            byte(yaw),
            0u8,
            byte(self.pitch),
            0u8,
            byte(inv(self.speed)),
            byte(c.a),
            0u8,
            r,
            g,
            b,
            byte(c.w),
            0u8,
            self.mode.byte(),
            0u8,
            self.ring.byte(),
        ];
        assert(v@ =~= self.frame());
        v
    }

    /// Writes the frame at `at`; every other position is kept.
    pub fn encode(&self, buffer: &mut [u8], at: usize)
        requires
            at + Self::SIZE <= old(buffer)@.len(),
        ensures
            final(buffer)@ == put(old(buffer)@, at as int, self.frame()),
    {
        let v = self.bytes();
        blit(buffer, at, &v);
    }
}

} // verus!
