//! The par can: reserved, reserved, reserved, dimmer, red, green, blue, white.

use vstd::prelude::*;
use crate::color::Color;
use crate::dmx::{blit, put};
use crate::units::{byte, byte_of};

verus! {

#[derive(Clone, Copy, Debug, PartialEq, Eq, Structural)]
pub struct Par {
    pub color: Color,
}

impl Default for Par {
    fn default() -> (p: Par)
        ensures
            p.color == (Color { a: 0, r: 0, g: 0, b: 0, w: 0 }),
    {
        Par { color: Color::argbw(0, 0, 0, 0, 0) }
    }
}

impl Par {
    pub const SIZE: usize = 8;

    /// The channel bytes of this fixture, reserved positions zero.
    pub open spec fn frame(self) -> Seq<u8> {
        seq![
            0u8,
            0u8,
            0u8,
            byte_of(self.color.a),
            byte_of(self.color.r),
            byte_of(self.color.g),
            byte_of(self.color.b),
            byte_of(self.color.w),
        ]
    }

    /// The number of channels this fixture occupies.
    pub fn size(&self) -> (n: usize)
        ensures
            n == Self::SIZE,
            n == self.frame().len(),
    {
        Self::SIZE
    }

    pub fn bytes(&self) -> (v: Vec<u8>)
        ensures
            v@ == self.frame(),
    {
        let c = self.color;
        let v = vec![0u8, 0u8, 0u8, byte(c.a), byte(c.r), byte(c.g), byte(c.b), byte(c.w)];
        assert(v@ =~= self.frame());
        v
    }

    /// Writes the frame at `at`; every other position is kept.
    pub fn encode(&self, buffer: &mut [u8], at: usize)
        requires
            at + Self::SIZE <= old(buffer)@.len(),
        ensures
            final(buffer)@ == put(old(buffer)@, at as int, self.frame()),
    {
        let v = self.bytes();
        blit(buffer, at, &v);
    }
}

} // verus!
