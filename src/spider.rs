//! The spider effect: two tilt positions, dimmer, strobe, then two groups of
//! red, green, blue and white (both driven from the first colour), effect
//! preset, effect speed and reset.

use vstd::prelude::*;
use crate::color::Color;
use crate::dmx::{blit, put};
use crate::fixture::{color_slots, slots};
use crate::units::{byte, byte_of};

verus! {

#[derive(Clone, Copy, Debug, PartialEq, Eq, Structural)]
pub struct Spider {
    pub color0: Color,
    pub pos0: u16,
    pub color1: Color,
    pub pos1: u16,
}

impl Default for Spider {
    fn default() -> (p: Spider)
        ensures
            p == Spider::initial(),
    {
        Spider {
            color0: Color::argbw(0, 0, 0, 0, 0),
            pos0: 0,
            color1: Color::argbw(0, 0, 0, 0, 0),
            pos1: 0,
        }
    }
}

impl Spider {
    pub const SIZE: usize = 15;

    /// Both colours dark, both positions 0.
    pub open spec fn initial() -> Spider {
        Spider {
            color0: Color { a: 0, r: 0, g: 0, b: 0, w: 0 },
            pos0: 0,
            color1: Color { a: 0, r: 0, g: 0, b: 0, w: 0 },
            pos1: 0,
        }
    }

    /// The channel bytes of this fixture, reserved positions zero.
    pub open spec fn frame(self) -> Seq<u8> {
        let c = self.color0;
        let s = slots(c);
        let w = byte_of(c.w);
        seq![
            byte_of(self.pos0),
            byte_of(self.pos1),
            byte_of(c.a),
            0u8,
            s.0,
            s.1,
            s.2,
            w,
            s.0,
            s.1,
            s.2,
            w,
            0u8,
            0u8,
            0u8,
        ]
    }

    /// The number of channels this fixture occupies.
    pub fn size(&self) -> (n: usize)
        ensures
            n == Self::SIZE,
            n == self.frame().len(),
    {
        Self::SIZE
    }

    pub fn bytes(&self) -> (v: Vec<u8>)
        ensures
            v@ == self.frame(),
    {
        let c = self.color0;
        let (r, g, b) = color_slots(c);
        let w = byte(c.w);
        let v = vec![
            byte(self.pos0),
            byte(self.pos1),
            byte(c.a),
            0u8,
            r,
            g,
            b,
            w,
            r,
            g,
            b,
            w,
            0u8,
            0u8,
            0u8,
        ];
        assert(v@ =~= self.frame());
        v
    }

    /// Writes the frame at `at`; every other position is kept.
    pub fn encode(&self, buffer: &mut [u8], at: usize)
        requires
            at + Self::SIZE <= old(buffer)@.len(),
        ensures
            final(buffer)@ == put(old(buffer)@, at as int, self.frame()),
    {
        let v = self.bytes();
        blit(buffer, at, &v);
    }
}

} // verus!
