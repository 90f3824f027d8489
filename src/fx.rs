//! The effect algebra: colour sources (`ColorOp`) and colour transforms
//! (`ColorMapOp`), both pure functions of a timing snapshot, held as trees
//! and evaluated by one recursive match.

use vstd::prelude::*;
use crate::color::{Color, dimmed, hsv_of};
use crate::period::{Pd, period_of, phase, phase_of, lemma_phase_periodic, BEAT};
use crate::units::{FULL, mul_of, unit_mul};

verus! {

/// One tick's timing: wall-clock milliseconds, the musical position in
/// millionths of a beat, and the tempo in thousandths of a BPM.
#[derive(Clone, Copy, Debug, PartialEq, Eq, Structural)]
pub struct Timing {
    pub t: u64,
    pub phi: u64,
    pub bpm: u32,
}

/// The unit value going from `from` (at 0) to `to` (at 1) as `x` does.
pub open spec fn lerp_unit(from: u16, to: u16, x: u16) -> u16 {
    if from <= to {
        (from + (to - from) * x / 65535) as u16
    } else {
        (from - (from - to) * x / 65535) as u16
    }
}

/// A triangle over the period: 0 at its start, 1 at its middle, 0 at its end.
pub open spec fn tri_of(u: u16) -> u16 {
    if 2 * u <= 65535 {
        (2 * u) as u16
    } else {
        (2 * (65535 - u)) as u16
    }
}

/// `v (1 - v)` on unit values, scaled by 65535 squared.
pub open spec fn bump(v: int) -> int {
    v * (65535 - v)
}

/// The half sine `sin(pi v)` for a unit value `v`, by Bhaskara's rational
/// approximation `16 v (1 - v) / (5 - 4 v (1 - v))`, which is exact at 0, 1/2
/// and 1.
pub open spec fn half_sine(v: int) -> int {
    16 * bump(v) * 65535 / (5 * 65535 * 65535 - 4 * bump(v))
}

/// A sine over the period around `center` with amplitude `depth`, clamped to
/// the unit range.
pub open spec fn sin_of(center: u16, depth: u16, u: u16) -> u16 {
    if 2 * u <= 65535 {
        let s = depth * half_sine(2 * u) / 65535;
        if center + s >= 65535 { 65535 } else { (center + s) as u16 }
    } else {
        let s = depth * half_sine(2 * u - 65535) / 65535;
        if center - s <= 0 { 0 } else { (center - s) as u16 }
    }
}

/// A short pulse takes the first quarter of its period to fall, then holds.
pub open spec fn short_of(u: u16) -> u16 {
    if 4 * u >= 65535 { 65535 } else { (4 * u) as u16 }
}

/// Millionths of a beat elapsed at `tm` since wall-clock `start`.
pub open spec fn elapsed(tm: Timing, start: u64) -> int {
    if tm.t <= start {
        0
    } else {
        (tm.t - start) * tm.bpm / 60
    }
}

/// How long a one-shot effect runs: its period, capped to what a position holds.
pub open spec fn once_len(pd: Pd) -> int {
    if pd.1 == 0 {
        0
    } else if period_of(pd) > u64::MAX {
        u64::MAX as int
    } else {
        period_of(pd)
    }
}

/// The snapshot at which a one-shot effect activated at `at` latches: the
/// last position of its period, counted from the activation position.
pub open spec fn once_end(at: Timing, pd: Pd) -> Timing {
    let len = once_len(pd);
    let last = if len == 0 {
        at.phi as int
    } else if at.phi + len - 1 > u64::MAX {
        u64::MAX as int
    } else {
        at.phi + len - 1
    };
    Timing { phi: last as u64, ..at }
}

/// Whether `tm` lies within one period of an activation at wall-clock `start`.
pub open spec fn in_window(tm: Timing, pd: Pd, start: u64) -> bool {
    elapsed(tm, start) < once_len(pd)
}

/// A colour source.
#[derive(Clone, Copy, Debug, PartialEq, Eq, Structural)]
pub enum ColorOp {
    /// A constant colour.
    Value(Color),
    /// Full-saturation hues, cycling once per period.
    Rainbow(Pd),
}

impl ColorOp {
    pub open spec fn eval(self, tm: Timing) -> Color {
        match self {
            ColorOp::Value(c) => c,
            ColorOp::Rainbow(pd) => hsv_of(phase_of(tm.phi, pd), FULL, FULL),
        }
    }

    pub fn value(c: Color) -> (op: ColorOp)
        ensures
            op == ColorOp::Value(c),
    {
        ColorOp::Value(c)
    }

    /// The colour this source gives at `tm`.
    pub fn apply(&self, tm: &Timing) -> (c: Color)
        ensures
            c == self.eval(*tm),
    {
        match self {
            ColorOp::Value(c) => *c,
            ColorOp::Rainbow(pd) => Color::hsv(phase(tm.phi, *pd), FULL, FULL),
        }
    }
}

impl From<Color> for ColorOp {
    fn from(c: Color) -> (op: ColorOp) {
        ColorOp::Value(c)
    }
}

impl vstd::std_specs::convert::FromSpecImpl<Color> for ColorOp {
    open spec fn obeys_from_spec() -> bool {
        true
    }

    open spec fn from_spec(c: Color) -> ColorOp {
        ColorOp::Value(c)
    }
}

/// Full-saturation hues, cycling once per `pd`.
pub fn rainbow(pd: Pd) -> (op: ColorOp)
    ensures
        op == ColorOp::Rainbow(pd),
{
    ColorOp::Rainbow(pd)
}

/// A transform of a base colour. The periodic ones scale the base's alpha
/// by a waveform of the position's phase in their period.
#[derive(Debug)]
pub enum ColorMapOp {
    /// The base colour unchanged.
    Id,
    /// The base colour unchanged (a slot with no effect bound).
    Off,
    /// Override: this colour, with its alpha scaled by the base's.
    Value(Color),
    /// A constant dimmer.
    Alpha(u16),
    Sin { pd: Pd, center: u16, depth: u16 },
    Tri { pd: Pd, low: u16, high: u16 },
    /// From `from` to `to` over the period.
    Pulse { pd: Pd, from: u16, to: u16 },
    /// From `from` to `to` over the first quarter of the period.
    PulseShort { pd: Pd, from: u16, to: u16 },
    /// `high` for the first `duty` of each period, `low` for the rest.
    Strobe { pd: Pd, duty: u16, low: u16, high: u16 },
    /// From 0 to 1 over the period.
    Ramp(Pd),
    /// `inner` as it is for one period from the activation snapshot `at`,
    /// then held at its value for the period's last position.
    Once { pd: Pd, at: Timing, inner: Box<ColorMapOp> },
    /// The outer transform applied to what the inner one gives.
    Compose(Box<ColorMapOp>, Box<ColorMapOp>),
}

impl ColorMapOp {
    pub open spec fn eval(self, tm: Timing, c: Color) -> Color
        decreases self,
    {
        match self {
            ColorMapOp::Id => c,
            ColorMapOp::Off => c,
            ColorMapOp::Value(v) => Color { a: mul_of(v.a, c.a), ..v },
            ColorMapOp::Alpha(x) => dimmed(c, x),
            ColorMapOp::Sin { pd, center, depth } => dimmed(c, sin_of(center, depth, phase_of(tm.phi, pd))),
            ColorMapOp::Tri { pd, low, high } => dimmed(c, lerp_unit(low, high, tri_of(phase_of(tm.phi, pd)))),
            ColorMapOp::Pulse { pd, from, to } => dimmed(c, lerp_unit(from, to, phase_of(tm.phi, pd))),
            ColorMapOp::PulseShort { pd, from, to } => dimmed(c, lerp_unit(from, to, short_of(phase_of(tm.phi, pd)))),
            ColorMapOp::Strobe { pd, duty, low, high } => dimmed(c, if phase_of(tm.phi, pd) < duty { high } else { low }),
            ColorMapOp::Ramp(pd) => dimmed(c, phase_of(tm.phi, pd)),
            ColorMapOp::Once { pd, at, inner } => if in_window(tm, pd, at.t) {
                inner.eval(tm, c)
            } else {
                inner.eval(once_end(at, pd), c)
            },
            ColorMapOp::Compose(outer, inner) => outer.eval(tm, inner.eval(tm, c)),
        }
    }

    /// Override with `c`, keeping the base's alpha as a dimmer.
    pub fn value(c: Color) -> (op: ColorMapOp)
        ensures
            op == ColorMapOp::Value(c),
    {
        ColorMapOp::Value(c)
    }

    /// `self` applied to what `other` gives: the rightmost transform is the
    /// innermost.
    pub fn compose(self, other: ColorMapOp) -> (op: ColorMapOp)
        ensures
            op == ColorMapOp::Compose(Box::new(self), Box::new(other)),
    {
        ColorMapOp::Compose(Box::new(self), Box::new(other))
    }

    /// The base colour `c` transformed at `tm`.
    pub fn apply(&self, tm: &Timing, c: Color) -> (r: Color)
        ensures
            r == self.eval(*tm, c),
        decreases self,
    {
        match self {
            ColorMapOp::Id => c,
            ColorMapOp::Off => c,
            ColorMapOp::Value(v) => Color { a: unit_mul(v.a, c.a), ..*v },
            ColorMapOp::Alpha(x) => c.a_mul(*x),
            ColorMapOp::Sin { pd, center, depth } => c.a_mul(sine_level(*center, *depth, phase(tm.phi, *pd))),
            ColorMapOp::Tri { pd, low, high } => c.a_mul(lerp_level(*low, *high, triangle(phase(tm.phi, *pd)))),
            ColorMapOp::Pulse { pd, from, to } => c.a_mul(lerp_level(*from, *to, phase(tm.phi, *pd))),
            ColorMapOp::PulseShort { pd, from, to } => {
                let u = phase(tm.phi, *pd);
                let q: u16 = if u >= 16384 { FULL } else if 4 * u >= FULL { FULL } else { 4 * u };
                c.a_mul(lerp_level(*from, *to, q))
            },
            ColorMapOp::Strobe { pd, duty, low, high } => {
                let x = if phase(tm.phi, *pd) < *duty { *high } else { *low };
                c.a_mul(x)
            },
            ColorMapOp::Ramp(pd) => c.a_mul(phase(tm.phi, *pd)),
            ColorMapOp::Once { pd, at, inner } => {
                if window_holds(tm, *pd, at.t) {
                    inner.apply(tm, c)
                } else {
                    let end = end_timing(at, *pd);
                    inner.apply(&end, c)
                }
            },
            ColorMapOp::Compose(outer, inner) => {
                let x = inner.apply(tm, c);
                outer.apply(tm, x)
            },
        }
    }
}

/// The base colour unchanged.
pub fn id() -> (op: ColorMapOp)
    ensures
        op == ColorMapOp::Id,
{
    ColorMapOp::Id
}

/// No effect bound: the base colour unchanged.
pub fn off() -> (op: ColorMapOp)
    ensures
        op == ColorMapOp::Off,
{
    ColorMapOp::Off
}

/// A constant dimmer `x`.
pub fn alpha(x: u16) -> (op: ColorMapOp)
    ensures
        op == ColorMapOp::Alpha(x),
{
    ColorMapOp::Alpha(x)
}

/// Alpha following a sine of period `pd` around `center` with amplitude `depth`.
pub fn sin(pd: Pd, center: u16, depth: u16) -> (op: ColorMapOp)
    ensures
        op == (ColorMapOp::Sin { pd, center, depth }),
{
    ColorMapOp::Sin { pd, center, depth }
}

/// Alpha following a triangle of period `pd` between `low` and `high`.
pub fn tri(pd: Pd, low: u16, high: u16) -> (op: ColorMapOp)
    ensures
        op == (ColorMapOp::Tri { pd, low, high }),
{
    ColorMapOp::Tri { pd, low, high }
}

/// Alpha going from `from` to `to` over each period `pd`.
pub fn pulse(pd: Pd, from: u16, to: u16) -> (op: ColorMapOp)
    ensures
        op == (ColorMapOp::Pulse { pd, from, to }),
{
    ColorMapOp::Pulse { pd, from, to }
}

/// Alpha going from `from` to `to` over the first quarter of each period `pd`.
pub fn pulse_short(pd: Pd, from: u16, to: u16) -> (op: ColorMapOp)
    ensures
        op == (ColorMapOp::PulseShort { pd, from, to }),
{
    ColorMapOp::PulseShort { pd, from, to }
}

/// Alpha `high` for the first `duty` of each period `pd`, `low` for the rest.
pub fn strobe(pd: Pd, duty: u16, low: u16, high: u16) -> (op: ColorMapOp)
    ensures
        op == (ColorMapOp::Strobe { pd, duty, low, high }),
{
    ColorMapOp::Strobe { pd, duty, low, high }
}

/// Alpha rising linearly from 0 to 1 over each period `pd`.
pub fn ramp(pd: Pd) -> (op: ColorMapOp)
    ensures
        op == ColorMapOp::Ramp(pd),
{
    ColorMapOp::Ramp(pd)
}

/// `inner` run for one period `pd` from the activation snapshot `at`, then held.
pub fn once(pd: Pd, inner: ColorMapOp, at: Timing) -> (op: ColorMapOp)
    ensures
        op == (ColorMapOp::Once { pd, at, inner: Box::new(inner) }),
{
    ColorMapOp::Once { pd, at, inner: Box::new(inner) }
}

impl ColorMapOp {
    /// The period of a periodic waveform.
    pub open spec fn period(self) -> Option<Pd> {
        match self {
            ColorMapOp::Sin { pd, .. } => Some(pd),
            ColorMapOp::Tri { pd, .. } => Some(pd),
            ColorMapOp::Pulse { pd, .. } => Some(pd),
            ColorMapOp::PulseShort { pd, .. } => Some(pd),
            ColorMapOp::Strobe { pd, .. } => Some(pd),
            ColorMapOp::Ramp(pd) => Some(pd),
            _ => None,
        }
    }
}

/// Periodicity: a periodic waveform gives the same colour at a position and
/// at the position one period later.
pub proof fn lemma_periodic(op: ColorMapOp, tm: Timing, next: u64, c: Color)
    requires
        op.period() is Some,
        op.period()->Some_0.1 > 0,
        (next - tm.phi) * op.period()->Some_0.1 == op.period()->Some_0.0 * BEAT,
    ensures
        op.eval(Timing { phi: next, ..tm }, c) == op.eval(tm, c),
{
    lemma_phase_periodic(tm.phi, next, op.period()->Some_0);
}

/// A rainbow gives the same colour at a position and one period later.
pub proof fn lemma_rainbow_periodic(pd: Pd, tm: Timing, next: u64)
    requires
        pd.1 > 0,
        (next - tm.phi) * pd.1 == pd.0 * BEAT,
    ensures
        ColorOp::Rainbow(pd).eval(Timing { phi: next, ..tm }) == ColorOp::Rainbow(pd).eval(tm),
{
    lemma_phase_periodic(tm.phi, next, pd);
}

/// Latching: within one period of its activation a one-shot effect gives
/// exactly what its inner effect gives on the same snapshot; from then on it
/// gives one fixed colour for a given base colour, whatever the wall-clock
/// time, position or tempo.
pub proof fn lemma_once_latches(pd: Pd, at: Timing, inner: ColorMapOp, tm: Timing, later: Timing, c: Color)
    ensures
        in_window(tm, pd, at.t) ==> (ColorMapOp::Once { pd, at, inner: Box::new(inner) }).eval(tm, c)
            == inner.eval(tm, c),
        !in_window(tm, pd, at.t) && !in_window(later, pd, at.t) ==> (ColorMapOp::Once {
            pd,
            at,
            inner: Box::new(inner),
        }).eval(later, c) == (ColorMapOp::Once { pd, at, inner: Box::new(inner) }).eval(tm, c),
        !in_window(tm, pd, at.t) ==> (ColorMapOp::Once { pd, at, inner: Box::new(inner) }).eval(tm, c)
            == inner.eval(once_end(at, pd), c),
{
}

/// Composition is associative: `(a . b) . c` and `a . (b . c)` transform
/// every colour alike.
pub proof fn lemma_compose_assoc(a: ColorMapOp, b: ColorMapOp, d: ColorMapOp, tm: Timing, c: Color)
    ensures
        ColorMapOp::Compose(Box::new(ColorMapOp::Compose(Box::new(a), Box::new(b))), Box::new(d)).eval(tm, c)
            == ColorMapOp::Compose(Box::new(a), Box::new(ColorMapOp::Compose(Box::new(b), Box::new(d)))).eval(tm, c),
{
    let x = d.eval(tm, c);
    assert(ColorMapOp::Compose(Box::new(a), Box::new(b)).eval(tm, x) == a.eval(tm, b.eval(tm, x)));
    assert(ColorMapOp::Compose(Box::new(b), Box::new(d)).eval(tm, c) == b.eval(tm, x));
}

fn lerp_level(from: u16, to: u16, x: u16) -> (r: u16)
    ensures
        r == lerp_unit(from, to, x),
{
    if from <= to {
        let d: u32 = (to - from) as u32;
        assert(d * (x as u32) <= 65535 * 65535) by (nonlinear_arith)
            requires d <= 65535, x <= 65535;
        let s: u32 = d * (x as u32) / 65535;
        assert(s <= d) by (nonlinear_arith)
            requires s == d * (x as u32) / 65535, x <= 65535;
        (from as u32 + s) as u16
    } else {
        let d: u32 = (from - to) as u32;
        assert(d * (x as u32) <= 65535 * 65535) by (nonlinear_arith)
            requires d <= 65535, x <= 65535;
        let s: u32 = d * (x as u32) / 65535;
        assert(s <= d) by (nonlinear_arith)
            requires s == d * (x as u32) / 65535, x <= 65535;
        (from as u32 - s) as u16
    }
}

fn triangle(u: u16) -> (r: u16)
    ensures
        r == tri_of(u),
{
    if 2 * (u as u32) <= 65535 {
        2 * u
    } else {
        (2 * (65535 - u as u32)) as u16
    }
}

fn half_sine_of(v: u32) -> (r: u32)
    requires
        v <= 65535,
    ensures
        r as int == half_sine(v as int),
        r <= 65535,
{
    assert((v as u64) * (65535 - v as u64) <= 65535 * 65535) by (nonlinear_arith)
        requires v <= 65535;
    let p: u64 = (v as u64) * (65535 - v as u64);
    assert(p <= 65535 * 65535 / 4) by (nonlinear_arith)
        requires p == (v as u64) * (65535 - v as u64), v <= 65535;
    let num: u64 = 16 * p * 65535;
    let den: u64 = 5 * 65535 * 65535 - 4 * p;
    let r: u64 = num / den;
    assert(r <= 65535) by (nonlinear_arith)
        requires r == num / den, num == 16 * p * 65535, den == 5 * 65535 * 65535 - 4 * p,
            p <= 65535 * 65535 / 4;
    r as u32
}

fn sine_level(center: u16, depth: u16, u: u16) -> (r: u16)
    ensures
        r == sin_of(center, depth, u),
{
    if 2 * (u as u32) <= 65535 {
        let h = half_sine_of(2 * (u as u32));
        assert((depth as u32) * h <= 65535 * 65535) by (nonlinear_arith)
            requires depth <= 65535, h <= 65535;
        let s: u32 = (depth as u32) * h / 65535;
        if center as u32 + s >= 65535 { 65535 } else { (center as u32 + s) as u16 }
    } else {
        let h = half_sine_of(2 * (u as u32) - 65535);
        assert((depth as u32) * h <= 65535 * 65535) by (nonlinear_arith)
            requires depth <= 65535, h <= 65535;
        let s: u32 = (depth as u32) * h / 65535;
        if s >= center as u32 { 0 } else { (center as u32 - s) as u16 }
    }
}

fn window_holds(tm: &Timing, pd: Pd, start: u64) -> (r: bool)
    ensures
        r == in_window(*tm, pd, start),
{
    let len = once_length(pd);
    let e: u128 = if tm.t <= start {
        0
    } else {
        let dt: u128 = (tm.t - start) as u128;
        let b: u128 = tm.bpm as u128;
        assert(dt * b <= 0xffff_ffff_ffff_ffffu128 * 0xffff_ffffu128) by (nonlinear_arith)
            requires dt <= 0xffff_ffff_ffff_ffffu128, b <= 0xffff_ffffu128;
        dt * b / 60
    };
    e < len as u128
}

fn once_length(pd: Pd) -> (r: u64)
    ensures
        r as int == once_len(pd),
{
    if pd.1 == 0 {
        0
    } else {
        assert((pd.0 as u128) * (BEAT as u128) <= 0xffff_ffff_ffff_ffffu128 * 1000000) by (nonlinear_arith)
            requires pd.0 <= 0xffff_ffff_ffff_ffffu128;
        let p: u128 = (pd.0 as u128) * (BEAT as u128) / (pd.1 as u128);
        if p > u64::MAX as u128 { u64::MAX } else { p as u64 }
    }
}

fn end_timing(at: &Timing, pd: Pd) -> (r: Timing)
    ensures
        r == once_end(*at, pd),
{
    let len = once_length(pd);
    let last: u128 = if len == 0 {
        at.phi as u128
    } else if (at.phi as u128) + (len as u128) - 1 > u64::MAX as u128 {
        u64::MAX as u128
    } else {
        (at.phi as u128) + (len as u128) - 1
    };
    Timing { phi: last as u64, ..*at }
}

} // verus!
