//! The LED bar: red, green, blue, preset, strobe, mode, dimmer.

use vstd::prelude::*;
use crate::color::Color;
use crate::dmx::{blit, put};
use crate::fixture::{color_slots, slots};
use crate::units::{byte, byte_of};

verus! {

#[derive(Clone, Copy, Debug, PartialEq, Eq, Structural)]
pub struct Bar {
    pub color: Color,
}

impl Default for Bar {
    fn default() -> (p: Bar)
        ensures
            p.color == (Color { a: 0, r: 0, g: 0, b: 0, w: 0 }),
    {
        Bar { color: Color::argbw(0, 0, 0, 0, 0) }
    }
}

impl Bar {
    pub const SIZE: usize = 7;

    /// The channel bytes of this fixture, reserved positions zero.
    pub open spec fn frame(self) -> Seq<u8> {
        let s = slots(self.color);
        seq![s.0, s.1, s.2, 0u8, 0u8, 0u8, byte_of(self.color.a)]
    }

    /// The number of channels this fixture occupies.
    pub fn size(&self) -> (n: usize)
        ensures
            n == Self::SIZE,
            n == self.frame().len(),
    {
        Self::SIZE
    }

    pub fn bytes(&self) -> (v: Vec<u8>)
        ensures
            v@ == self.frame(),
    {
        let (r, g, b) = color_slots(self.color);
        let v = vec![r, g, b, 0u8, 0u8, 0u8, byte(self.color.a)];
        assert(v@ =~= self.frame());
        v
    }

    /// Writes the frame at `at`; every other position is kept.
    pub fn encode(&self, buffer: &mut [u8], at: usize)
        requires
            at + Self::SIZE <= old(buffer)@.len(),
        ensures
            final(buffer)@ == put(old(buffer)@, at as int, self.frame()),
    {
        let v = self.bytes();
        blit(buffer, at, &v);
    }
}

} // verus!
