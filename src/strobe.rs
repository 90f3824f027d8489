//! The strobe: dimmer, mode, red, green, blue, sound control.

use vstd::prelude::*;
use crate::color::Color;
use crate::dmx::{blit, put};
use crate::fixture::{color_slots, slots};
use crate::units::{byte, byte_of};

verus! {

#[derive(Clone, Copy, Debug, PartialEq, Eq, Structural)]
pub struct Strobe {
    pub color: Color,
}

impl Default for Strobe {
    fn default() -> (p: Strobe)
        ensures
            p.color == (Color { a: 0, r: 0, g: 0, b: 0, w: 0 }),
    {
        Strobe { color: Color::argbw(0, 0, 0, 0, 0) }
    }
}

impl Strobe {
    pub const SIZE: usize = 6;

    /// The channel bytes of this fixture, reserved positions zero.
    pub open spec fn frame(self) -> Seq<u8> {
        let s = slots(self.color);
        seq![byte_of(self.color.a), 0u8, s.0, s.1, s.2, 0u8]
    }

    /// The number of channels this fixture occupies.
    pub fn size(&self) -> (n: usize)
        ensures
            n == Self::SIZE,
            n == self.frame().len(),
    {
        Self::SIZE
    }

    pub fn bytes(&self) -> (v: Vec<u8>)
        ensures
            v@ == self.frame(),
    {
        let (r, g, b) = color_slots(self.color);
        let v = vec![byte(self.color.a), 0u8, r, g, b, 0u8];
        assert(v@ =~= self.frame());
        v
    }

    /// Writes the frame at `at`; every other position is kept.
    pub fn encode(&self, buffer: &mut [u8], at: usize)
        requires
            at + Self::SIZE <= old(buffer)@.len(),
        ensures
            final(buffer)@ == put(old(buffer)@, at as int, self.frame()),
    {
        let v = self.bytes();
        blit(buffer, at, &v);
    }
}

} // verus!
