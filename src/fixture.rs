//! Channel mapping shared by the fixture encoders.

use vstd::prelude::*;
use crate::bar::Bar;
use crate::beam::Beam;
use crate::color::Color;
use crate::spider::Spider;
use crate::strobe::Strobe;
use crate::units::{byte, byte_of};

verus! {

/// The bytes for a fixture's three colour slots: with any white set, every
/// slot follows white (monochrome override); otherwise they follow red,
/// green and blue.
pub open spec fn slots(c: Color) -> (u8, u8, u8) {
    if c.w > 0 {
        (byte_of(c.w), byte_of(c.w), byte_of(c.w))
    } else {
        (byte_of(c.r), byte_of(c.g), byte_of(c.b))
    }
}

/// Computes `slots(c)`.
pub fn color_slots(c: Color) -> (s: (u8, u8, u8))
    ensures
        s == slots(c),
{
    if c.w > 0 {
        let x = byte(c.w);
        (x, x, x)
    } else {
        (byte(c.r), byte(c.g), byte(c.b))
    }
}

/// Monochrome override: with any white set, every colour slot of the beam,
/// the bar, the strobe and both spider groups carries white's byte, whatever
/// red, green and blue hold.
pub proof fn lemma_white_override(beam: Beam, bar: Bar, strobe: Strobe, spider: Spider)
    ensures
        beam.color.w > 0 ==> {
            let x = byte_of(beam.color.w);
            let f = beam.frame();
            f[7] == x && f[8] == x && f[9] == x && f[10] == x
        },
        bar.color.w > 0 ==> {
            let x = byte_of(bar.color.w);
            let f = bar.frame();
            f[0] == x && f[1] == x && f[2] == x
        },
        strobe.color.w > 0 ==> {
            let x = byte_of(strobe.color.w);
            let f = strobe.frame();
            f[2] == x && f[3] == x && f[4] == x
        },
        spider.color0.w > 0 ==> {
            let x = byte_of(spider.color0.w);
            let f = spider.frame();
            f[4] == x && f[5] == x && f[6] == x && f[7] == x && f[8] == x && f[9] == x && f[10] == x && f[11] == x
        },
{
}

} // verus!
