//! The show state that the control loop owns: timing, effect bindings and
//! dimmer, with the per-tick decisions made on it.

use vstd::prelude::*;
use crate::color::Color;
use crate::fx::{ColorMapOp, ColorOp, Timing, in_window};
use crate::period::{BEAT, Pd, period_of, phase, phase_of};
use crate::time::{Arg, Message, same_addr};
use crate::units::FULL;

verus! {

/// Millionths of a beat in the 16-beat measure that positions wrap around.
pub const MEASURE: u64 = 16000000;

/// The show's colour modes, which the laser follows.
#[derive(Clone, Copy, Debug, PartialEq, Eq, Structural)]
pub enum ColorMode {
    Red,
    Green,
    Blue,
    Other,
}

/// Which colour slot an action addresses.
#[derive(Clone, Copy, Debug, PartialEq, Eq, Structural)]
pub enum ColorSelect {
    All,
    Color0,
    Color1,
}

/// Times are wall-clock milliseconds, positions millionths of a beat, tempos
/// thousandths of a BPM, levels unit values.
#[derive(Debug)]
pub struct State {
    pub t0: u64,
    pub t: u64,
    pub phi: u64,
    pub bpm: u32,
    pub viz_pd: Pd,
    pub viz_beat: bool,
    pub viz_beat_last: bool,
    pub viz_alpha: u16,
    pub color_mode: ColorMode,
    pub color0: ColorOp,
    pub color1: ColorOp,
    pub map0: ColorMapOp,
    pub map1: ColorMapOp,
    pub fr0: u16,
    pub fr1: u16,
    pub off: bool,
    pub alpha: u16,
}

/// The free-running position after `elapsed` milliseconds at `bpm`
/// thousandths of a BPM: `elapsed * bpm / 60` millionths of a beat, modulo
/// the 16-beat measure.
pub open spec fn free_phi(elapsed: u64, bpm: u32) -> u64 {
    ((elapsed as int * bpm as int / 60) % (MEASURE as int)) as u64
}

/// Position `phi` moved on by `offset` (a unit fraction) of period `pd`.
pub open spec fn shifted(phi: u64, pd: Pd, offset: u16) -> u64 {
    (phi + offset * period_of(pd) / 65535) as u64
}

/// A non-negative float argument in millionths, if it is one.
pub open spec fn micro_of(args: Seq<Arg>) -> Option<i64> {
    if args.len() > 0 && args[0] is Micro && args[0]->Micro_0 >= 0 {
        Some(args[0]->Micro_0)
    } else {
        None
    }
}

impl Default for State {
    fn default() -> (s: State)
        ensures
            s.t0 == 0 && s.t == 0 && s.phi == 0 && s.bpm == 120000,
            s.viz_pd == Pd(1, 1) && s.viz_beat && !s.viz_beat_last && s.viz_alpha == FULL,
            s.color_mode == ColorMode::Other,
            s.color0 == ColorOp::Value(Color { a: FULL, r: 0, g: 0, b: 0, w: FULL }),
            s.color1 == ColorOp::Value(Color { a: FULL, r: 0, g: 0, b: 0, w: FULL }),
            s.map0 == ColorMapOp::Id && s.map1 == ColorMapOp::Id,
            s.fr0 == 0 && s.fr1 == 0 && !s.off && s.alpha == FULL,
    {
        State {
            t0: 0,
            t: 0,
            phi: 0,
            bpm: 120000,
            viz_pd: Pd(1, 1),
            viz_beat: true,
            viz_beat_last: false,
            viz_alpha: FULL,
            color_mode: ColorMode::Other,
            color0: ColorOp::Value(Color::w(FULL)),
            color1: ColorOp::Value(Color::w(FULL)),
            map0: ColorMapOp::Id,
            map1: ColorMapOp::Id,
            fr0: 0,
            fr1: 0,
            off: false,
            alpha: FULL,
        }
    }
}

impl State {
    pub open spec fn timing_of(&self) -> Timing {
        Timing { t: self.t, phi: self.phi, bpm: self.bpm }
    }

    /// This tick's timing snapshot.
    pub fn timing(&self) -> (tm: Timing)
        ensures
            tm == self.timing_of(),
    {
        Timing { t: self.t, phi: self.phi, bpm: self.bpm }
    }

    /// The phase of the current position within period `pd`.
    pub fn phi(&self, pd: Pd) -> (u: u16)
        ensures
            u == phase_of(self.phi, pd),
    {
        phase(self.phi, pd)
    }

    /// The first colour slot: its source, through its transform.
    pub fn color0(&self) -> (c: Color)
        ensures
            c == self.map0.eval(self.timing_of(), self.color0.eval(self.timing_of())),
    {
        let tm = self.timing();
        self.map0.apply(&tm, self.color0.apply(&tm))
    }

    /// The second colour slot: its source, through its transform.
    pub fn color1(&self) -> (c: Color)
        ensures
            c == self.map1.eval(self.timing_of(), self.color1.eval(self.timing_of())),
    {
        let tm = self.timing();
        self.map1.apply(&tm, self.color1.apply(&tm))
    }

    /// The first colour slot evaluated `offset` of period `pd` ahead.
    pub fn color0_phase(&self, pd: Pd, offset: u16) -> (c: Color)
        requires
            pd.1 > 0,
            self.phi + period_of(pd) <= u64::MAX,
        ensures
            ({
                let tm = Timing { phi: shifted(self.phi, pd, offset), ..self.timing_of() };
                c == self.map0.eval(tm, self.color0.eval(tm))
            }),
    {
        let tm = Timing { phi: shift(self.phi, pd, offset), ..self.timing() };
        self.map0.apply(&tm, self.color0.apply(&tm))
    }

    /// The second colour slot evaluated `offset` of period `pd` ahead.
    pub fn color1_phase(&self, pd: Pd, offset: u16) -> (c: Color)
        requires
            pd.1 > 0,
            self.phi + period_of(pd) <= u64::MAX,
        ensures
            ({
                let tm = Timing { phi: shifted(self.phi, pd, offset), ..self.timing_of() };
                c == self.map1.eval(tm, self.color1.eval(tm))
            }),
    {
        let tm = Timing { phi: shift(self.phi, pd, offset), ..self.timing() };
        self.map1.apply(&tm, self.color1.apply(&tm))
    }
}

impl State {
    /// Starts a tick `elapsed` milliseconds into the show. With a free-running
    /// clock at `free_bpm`, the wall-clock time and the position follow from
    /// `elapsed`; otherwise they stay as the transport last set them.
    pub fn tick(&mut self, elapsed: u64, free_bpm: Option<u32>)
        ensures
            free_bpm is Some ==> *final(self) == (State {
                t0: elapsed,
                t: elapsed,
                phi: free_phi(elapsed, free_bpm->Some_0),
                ..*old(self)
            }),
            free_bpm is None ==> *final(self) == (State { t0: elapsed, ..*old(self) }),
    {
        self.t0 = elapsed;
        match free_bpm {
            Some(bpm) => {
                self.t = elapsed;
                let dt: u128 = elapsed as u128;
                let b: u128 = bpm as u128;
                assert(dt * b <= 0xffff_ffff_ffff_ffffu128 * 0xffff_ffffu128) by (nonlinear_arith)
                    requires dt <= 0xffff_ffff_ffff_ffffu128, b <= 0xffff_ffffu128;
                self.phi = ((dt * b / 60) % (MEASURE as u128)) as u64;
            },
            None => {},
        }
    }

    /// Applies a transport message from an externally driven clock:
    /// `/vdj/time` sets the wall-clock time (seconds), `/vdj/phase16` the
    /// position (a fraction of the 16-beat measure), `/vdj/bpm` the tempo.
    /// A fraction of 1 or more wraps around the measure. Returns whether the
    /// message was applied; anything else, or a missing, negative or
    /// out-of-range float argument, changes nothing.
    pub fn transport(&mut self, msg: &Message) -> (applied: bool)
        ensures
            ({
                let m = micro_of(msg.args@);
                let o = *old(self);
                let n = *final(self);
                if msg.addr@ == "/vdj/time"@ && m is Some {
                    applied && n == (State { t: (m->Some_0 / 1000) as u64, ..o })
                } else if msg.addr@ == "/vdj/phase16"@ && m is Some {
                    applied && n == (State { phi: ((m->Some_0 * 16) % (MEASURE as int)) as u64, ..o })
                } else if msg.addr@ == "/vdj/bpm"@ && m is Some && m->Some_0 / 1000 <= u32::MAX {
                    applied && n == (State { bpm: (m->Some_0 / 1000) as u32, ..o })
                } else {
                    !applied && n == o
                }
            }),
    {
        let m: i64 = if msg.args.len() > 0 {
            match msg.args[0] {
                Arg::Micro(m) => m,
                _ => -1,
            }
        } else {
            -1
        };
        if m < 0 {
            return false;
        }
        if same_addr(&msg.addr, "/vdj/time") {
            self.t = (m / 1000) as u64;
            true
        } else if same_addr(&msg.addr, "/vdj/phase16") {
            self.phi = (((m as u128) * 16) % (MEASURE as u128)) as u64;
            true
        } else if same_addr(&msg.addr, "/vdj/bpm") {
            if m / 1000 <= u32::MAX as i64 {
                self.bpm = (m / 1000) as u32;
                true
            } else {
                false
            }
        } else {
            false
        }
    }

    /// A fader moved: fader 0 is the master level, faders 1 and 2 the two
    /// free parameters; any other index changes nothing.
    pub fn slider(&mut self, index: u8, fr: u16)
        ensures
            *final(self) == if index == 0 {
                State { alpha: fr, ..*old(self) }
            } else if index == 1 {
                State { fr0: fr, ..*old(self) }
            } else if index == 2 {
                State { fr1: fr, ..*old(self) }
            } else {
                *old(self)
            },
    {
        if index == 0 {
            self.alpha = fr;
        } else if index == 1 {
            self.fr0 = fr;
        } else if index == 2 {
            self.fr1 = fr;
        }
    }

    /// The global dimmer for this tick: 0 while blacked out, else the master level.
    pub fn master(&self) -> (x: u16)
        ensures
            x == if self.off { 0 } else { self.alpha },
    {
        if self.off {
            0
        } else {
            self.alpha
        }
    }

    /// Whether a beat pulse is due: with beat pulses on, the square wave of
    /// the visual period (high for its first half) has just risen.
    pub fn beat_edge(&mut self) -> (due: bool)
        ensures
            ({
                let high = phase_of(old(self).phi, old(self).viz_pd) < 32768;
                if old(self).viz_beat {
                    due == (high && !old(self).viz_beat_last) && *final(self) == (State {
                        viz_beat_last: high,
                        ..*old(self)
                    })
                } else {
                    !due && *final(self) == *old(self)
                }
            }),
    {
        if !self.viz_beat {
            return false;
        }
        let high = phase(self.phi, self.viz_pd) < 32768;
        let due = high && !self.viz_beat_last;
        self.viz_beat_last = high;
        due
    }

    /// The visual period in milliseconds at the current tempo; `None` at a
    /// tempo of zero or a period with a zero denominator.
    pub fn viz_period_ms(&self) -> (ms: Option<u64>)
        ensures
            ms == if self.bpm == 0 || self.viz_pd.1 == 0 || 60 * period_of(self.viz_pd) / (self.bpm as int)
                > u64::MAX {
                None::<u64>
            } else {
                Some((60 * period_of(self.viz_pd) / (self.bpm as int)) as u64)
            },
    {
        if self.bpm == 0 || self.viz_pd.1 == 0 {
            return None;
        }
        let n: u128 = self.viz_pd.0 as u128;
        assert(n * 1000000 <= 0xffff_ffff_ffff_ffffu128 * 1000000) by (nonlinear_arith)
            requires n <= 0xffff_ffff_ffff_ffffu128;
        let p: u128 = n * (BEAT as u128) / (self.viz_pd.1 as u128);
        assert(p <= n * 1000000) by (nonlinear_arith)
            requires p == (n * 1000000) as int / (self.viz_pd.1 as int), self.viz_pd.1 >= 1;
        let ms: u128 = 60 * p / (self.bpm as u128);
        if ms > u64::MAX as u128 {
            None
        } else {
            Some(ms as u64)
        }
    }
}

/// Within one period of its activation, a one-shot transform bound to the
/// first slot shows exactly what its inner transform bound there alone shows.
pub proof fn lemma_slot_once_window(s: State, alone: State, pd: Pd, at: Timing, inner: ColorMapOp)
    requires
        s.map0 == (ColorMapOp::Once { pd, at, inner: Box::new(inner) }),
        alone.map0 == inner,
        alone.color0 == s.color0,
        alone.timing_of() == s.timing_of(),
        in_window(s.timing_of(), pd, at.t),
    ensures
        s.map0.eval(s.timing_of(), s.color0.eval(s.timing_of())) == alone.map0.eval(
            alone.timing_of(),
            alone.color0.eval(alone.timing_of()),
        ),
{
}

/// Past one period of its activation, a one-shot transform on a constant
/// first slot shows one fixed colour, whatever the wall-clock time, position
/// or tempo.
pub proof fn lemma_slot_once_latched(s1: State, s2: State, pd: Pd, at: Timing, inner: ColorMapOp, v: Color)
    requires
        s1.map0 == (ColorMapOp::Once { pd, at, inner: Box::new(inner) }),
        s2.map0 == s1.map0,
        s1.color0 == ColorOp::Value(v),
        s2.color0 == s1.color0,
        !in_window(s1.timing_of(), pd, at.t),
        !in_window(s2.timing_of(), pd, at.t),
    ensures
        s1.map0.eval(s1.timing_of(), s1.color0.eval(s1.timing_of())) == s2.map0.eval(
            s2.timing_of(),
            s2.color0.eval(s2.timing_of()),
        ),
{
}

fn shift(phi: u64, pd: Pd, offset: u16) -> (r: u64)
    requires
        pd.1 > 0,
        phi + period_of(pd) <= u64::MAX,
    ensures
        r == shifted(phi, pd, offset),
{
    let n: u128 = pd.0 as u128;
    let d: u128 = pd.1 as u128;
    assert(n * 1000000 <= 0xffff_ffff_ffff_ffffu128 * 1000000) by (nonlinear_arith)
        requires n <= 0xffff_ffff_ffff_ffffu128;
    let p: u128 = n * (BEAT as u128) / d;
    assert(p <= n * 1000000) by (nonlinear_arith)
        requires p == (n * 1000000) as int / (d as int), d >= 1;
    let o: u128 = offset as u128;
    assert(o * p <= 65535 * (0xffff_ffff_ffff_ffffu128 * 1000000)) by (nonlinear_arith)
        requires o <= 65535, p <= 0xffff_ffff_ffff_ffffu128 * 1000000;
    let s: u128 = o * p / 65535;
    assert(s <= p) by (nonlinear_arith)
        requires s == (o * p) as int / 65535, o <= 65535;
    (phi as u128 + s) as u64
}

} // verus!
