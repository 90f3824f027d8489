//! Musical periods and the phase of the musical position within one.
//! Positions are counted in millionths of a beat.

use vstd::prelude::*;

verus! {

/// Millionths of a beat in one beat.
pub const BEAT: u64 = 1000000;

/// A period of `n / d` beats. Its denominator is non-zero.
#[derive(Clone, Copy, Debug, PartialEq, Eq, Structural)]
pub struct Pd(pub usize, pub usize);

/// The period `pd` in millionths of a beat, as an exact rational's floor.
pub open spec fn period_of(pd: Pd) -> int {
    pd.0 * BEAT / (pd.1 as int)
}

/// Where position `phi` falls within period `pd`, as a unit value: the
/// fractional part of `phi / (n / d)`, scaled onto 0..=65535 and truncated.
/// A zero-length period puts every position at phase 0.
pub open spec fn phase_of(phi: u64, pd: Pd) -> u16 {
    if pd.0 == 0 || pd.1 == 0 {
        0
    } else {
        ((phi as int * pd.1 as int) % (pd.0 * BEAT) * 65535 / (pd.0 * BEAT)) as u16
    }
}

impl Pd {
    /// The length in millionths of a beat (truncated).
    pub fn fr(&self) -> (r: u64)
        requires
            self.1 > 0,
            self.0 * BEAT <= u64::MAX,
        ensures
            r == period_of(*self),
    {
        (self.0 as u64) * BEAT / (self.1 as u64)
    }

    /// The period `mul` times as long.
    pub fn mul(&self, mul: usize) -> (r: Pd)
        requires
            self.0 * mul <= usize::MAX,
        ensures
            r == Pd((self.0 * mul) as usize, self.1),
    {
        Pd(self.0 * mul, self.1)
    }

    /// The period `div` times as short.
    pub fn div(&self, div: usize) -> (r: Pd)
        requires
            div > 0,
            self.1 * div <= usize::MAX,
        ensures
            r == Pd(self.0, (self.1 * div) as usize),
    {
        Pd(self.0, self.1 * div)
    }
}

/// Computes `phase_of(phi, pd)`.
pub fn phase(phi: u64, pd: Pd) -> (r: u16)
    ensures
        r == phase_of(phi, pd),
{
    if pd.0 == 0 || pd.1 == 0 {
        return 0;
    }
    let n: u128 = pd.0 as u128;
    let d: u128 = pd.1 as u128;
    let len: u128 = n * (BEAT as u128);
    assert((phi as u128) * d <= 0xffff_ffff_ffff_ffffu128 * 0xffff_ffff_ffff_ffffu128) by (nonlinear_arith)
        requires phi <= 0xffff_ffff_ffff_ffffu64, d <= 0xffff_ffff_ffff_ffffu128;
    let x: u128 = (phi as u128) * d;
    let m: u128 = x % len;
    assert(m * 65535 <= len * 65535) by (nonlinear_arith)
        requires m < len;
    let q: u128 = m * 65535 / len;
    assert(q <= 65535) by (nonlinear_arith)
        requires q == (m * 65535) as int / (len as int), m < len, len > 0;
    q as u16
}

/// Periodicity: advancing the position by exactly one period leaves its
/// phase in that period unchanged.
pub proof fn lemma_phase_periodic(phi: u64, next: u64, pd: Pd)
    requires
        pd.1 > 0,
        (next - phi) * pd.1 == pd.0 * BEAT,
    ensures
        phase_of(next, pd) == phase_of(phi, pd),
{
    if pd.0 > 0 {
        let len = pd.0 * BEAT;
        let x = phi as int * pd.1 as int;
        assert(next as int * pd.1 as int == x + len) by (nonlinear_arith)
            requires (next - phi) * pd.1 == len, x == phi as int * pd.1 as int;
        vstd::arithmetic::div_mod::lemma_mod_add_multiples_vanish(x, len as int);
    }
}

} // verus!
