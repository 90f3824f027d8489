//! Fixed-point unit values: a `u16` where `0` stands for 0.0 and `FULL`
//! stands for 1.0. Every conceptual [0, 1] quantity of the show (colour
//! channels, positions, speeds, dimmer levels) is held this way, so a value
//! is in range by construction and the mapping onto channel bytes is exact.

use vstd::prelude::*;

verus! {

/// The unit value that stands for 1.0.
pub const FULL: u16 = 65535;

/// The channel byte of a unit value: `x / FULL` scaled onto 0..=255, truncated.
pub open spec fn byte_of(x: u16) -> u8 {
    (x as int * 255 / 65535) as u8
}

/// The byte `lo + x * (hi - lo)`, truncated towards `lo`: a unit value mapped
/// onto a sub-range of the byte axis (either direction).
pub open spec fn lerp_of(x: u16, lo: u8, hi: u8) -> u8 {
    if lo <= hi {
        (lo + x as int * (hi - lo) / 65535) as u8
    } else {
        (lo - x as int * (lo - hi) / 65535) as u8
    }
}

/// The product of two unit values, truncated.
pub open spec fn mul_of(x: u16, y: u16) -> u16 {
    (x as int * y as int / 65535) as u16
}

/// Maps a unit value onto the full byte range.
pub fn byte(x: u16) -> (r: u8)
    ensures
        r == byte_of(x),
        r as int == x as int * 255 / 65535,
{
    let p: u32 = (x as u32) * 255;
    (p / 65535) as u8
}

/// Maps a unit value onto the byte range from `lo` (at 0.0) to `hi` (at 1.0).
pub fn lerp_byte(x: u16, lo: u8, hi: u8) -> (r: u8)
    ensures
        r == lerp_of(x, lo, hi),
        lo <= hi ==> lo <= r <= hi,
        hi < lo ==> hi <= r <= lo,
{
    if lo <= hi {
        let span: u32 = (hi - lo) as u32;
        assert((x as u32) * span <= 65535 * 255) by (nonlinear_arith)
            requires x <= 65535, span <= 255;
        let d: u32 = (x as u32) * span / 65535;
        assert(d <= span) by (nonlinear_arith)
            requires d == (x as u32) * span / 65535, x <= 65535;
        (lo as u32 + d) as u8
    } else {
        let span: u32 = (lo - hi) as u32;
        assert((x as u32) * span <= 65535 * 255) by (nonlinear_arith)
            requires x <= 65535, span <= 255;
        let d: u32 = (x as u32) * span / 65535;
        assert(d <= span) by (nonlinear_arith)
            requires d == (x as u32) * span / 65535, x <= 65535;
        (lo as u32 - d) as u8
    }
}

/// The product of two unit values (scaling one by the other).
pub fn unit_mul(x: u16, y: u16) -> (r: u16)
    ensures
        r == mul_of(x, y),
        r <= x,
        r <= y,
{
    assert((x as u32) * (y as u32) <= 65535 * 65535) by (nonlinear_arith)
        requires x <= 65535, y <= 65535;
    let p: u32 = (x as u32) * (y as u32);
    let q: u32 = p / 65535;
    assert(q <= x && q <= y) by (nonlinear_arith)
        requires p == (x as u32) * (y as u32), q == p / 65535, x <= 65535, y <= 65535;
    q as u16
}

/// One minus a unit value.
pub fn inv(x: u16) -> (r: u16)
    ensures
        r == FULL - x,
{
    FULL - x
}

} // verus!
