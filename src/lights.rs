//! The rig: one fixed-size group per fixture type, laid out in the universe
//! as pars, beams, strobe, bars, laser, spiders.

use vstd::prelude::*;
use crate::bar::Bar;
use crate::beam::Beam;
use crate::color::{Color, dark, dimmed};
use crate::dmx::{UNIVERSE_LEN, put};
use crate::laser::Laser;
use crate::par::Par;
use crate::spider::Spider;
use crate::strobe::Strobe;

verus! {

pub const PAR_COUNT: usize = 10;
pub const BEAM_COUNT: usize = 4;
pub const BAR_COUNT: usize = 2;
pub const SPIDER_COUNT: usize = 2;

/// The address of the first par; each takes `Par::SIZE` channels.
pub const PAR_BASE: usize = 1;
/// The address of the first beam; each takes `Beam::SIZE` channels.
pub const BEAM_BASE: usize = 81;
/// The address of the strobe.
pub const STROBE_BASE: usize = 142;
/// The address of the first bar; each takes `Bar::SIZE` channels.
pub const BAR_BASE: usize = 149;
/// The address of the laser.
pub const LASER_BASE: usize = 164;
/// The address of the first spider; each takes `Spider::SIZE` channels.
pub const SPIDER_BASE: usize = 175;

/// `s` with frame `i` of `frames` put at `base + stride * i`, for each `i < n`
/// in turn.
pub open spec fn put_block(s: Seq<u8>, frames: Seq<Seq<u8>>, base: int, stride: int, n: nat) -> Seq<u8>
    decreases n,
{
    if n == 0 {
        s
    } else {
        put(put_block(s, frames, base, stride, (n - 1) as nat), base + stride * (n - 1), frames[n - 1])
    }
}

pub struct Lights {
    pub pars: [Par; 10],
    pub beams: [Beam; 4],
    pub strobe: Strobe,
    pub bars: [Bar; 2],
    pub spiders: [Spider; 2],
    pub laser: Laser,
}

impl Default for Lights {
    fn default() -> (l: Lights)
        ensures
            forall|i: int| 0 <= i < 10 ==> #[trigger] l.pars@[i] == (Par { color: dark() }),
            forall|i: int| 0 <= i < 4 ==> #[trigger] l.beams@[i] == Beam::initial(),
            l.strobe == (Strobe { color: dark() }),
            forall|i: int| 0 <= i < 2 ==> #[trigger] l.bars@[i] == (Bar { color: dark() }),
            forall|i: int| 0 <= i < 2 ==> #[trigger] l.spiders@[i] == Spider::initial(),
            l.laser == Laser::initial(),
    {
        let p = Par::default();
        let b = Beam::default();
        let r = Bar::default();
        let s = Spider::default();
        Lights {
            pars: [p, p, p, p, p, p, p, p, p, p],
            beams: [b, b, b, b],
            strobe: Strobe::default(),
            bars: [r, r],
            spiders: [s, s],
            laser: Laser::default(),
        }
    }
}

impl Lights {
    /// `self` is `from` with every main colour set to `color`.
    pub open spec fn recolored(self, from: Lights, color: Color) -> bool {
        &&& forall|i: int| 0 <= i < 10 ==> #[trigger] self.pars@[i] == (Par { color, ..from.pars@[i] })
        &&& forall|i: int| 0 <= i < 4 ==> #[trigger] self.beams@[i] == (Beam { color, ..from.beams@[i] })
        &&& self.strobe == (Strobe { color, ..from.strobe })
        &&& forall|i: int| 0 <= i < 2 ==> #[trigger] self.bars@[i] == (Bar { color, ..from.bars@[i] })
        &&& forall|i: int|
            0 <= i < 2 ==> #[trigger] self.spiders@[i] == (Spider { color0: color, color1: color, ..from.spiders@[i] })
        &&& self.laser == from.laser
    }

    /// `self` is `from` with every alpha scaled by `fr`.
    pub open spec fn dimmed_from(self, from: Lights, fr: u16) -> bool {
        &&& forall|i: int| 0 <= i < 10 ==> #[trigger] self.pars@[i] == (Par { color: dimmed(from.pars@[i].color, fr) })
        &&& forall|i: int|
            0 <= i < 4 ==> #[trigger] self.beams@[i] == (Beam { color: dimmed(from.beams@[i].color, fr), ..from.beams@[i] })
        &&& self.strobe == (Strobe { color: dimmed(from.strobe.color, fr) })
        &&& forall|i: int| 0 <= i < 2 ==> #[trigger] self.bars@[i] == (Bar { color: dimmed(from.bars@[i].color, fr) })
        &&& forall|i: int|
            0 <= i < 2 ==> #[trigger] self.spiders@[i] == (Spider {
                color0: dimmed(from.spiders@[i].color0, fr),
                color1: dimmed(from.spiders@[i].color1, fr),
                ..from.spiders@[i]
            })
        &&& self.laser == from.laser
    }

    /// The byte that `write` leaves at position `p` of universe `s`, read
    /// from the one fixture whose block covers `p` (or `s[p]` where none does).
    pub open spec fn byte_at(self, s: Seq<u8>, p: int) -> u8 {
        if 1 <= p < 81 {
            self.pars@[(p - 1) / 8].frame()[(p - 1) % 8]
        } else if 81 <= p < 141 {
            self.beams@[(p - 81) / 15].frame()[(p - 81) % 15]
        } else if 142 <= p < 148 {
            self.strobe.frame()[p - 142]
        } else if 149 <= p < 163 {
            self.bars@[(p - 149) / 7].frame()[(p - 149) % 7]
        } else if 164 <= p < 174 {
            self.laser.frame()[p - 164]
        } else if 175 <= p < 205 {
            self.spiders@[(p - 175) / 15].frame()[(p - 175) % 15]
        } else {
            s[p]
        }
    }

    /// Every fixture's main colour (both spider colours) set to `color`;
    /// everything else kept.
    pub fn all(self, color: Color) -> (l: Lights)
        ensures
            l.recolored(self, color),
    {
        let mut l = self;
        let mut i: usize = 0;
        while i < PAR_COUNT
            invariant
                i <= PAR_COUNT,
                l.strobe == self.strobe && l.laser == self.laser && l.beams == self.beams,
                l.bars == self.bars && l.spiders == self.spiders,
                forall|j: int| 0 <= j < 10 ==> #[trigger] l.pars@[j] == if j < i {
                    Par { color, ..self.pars@[j] }
                } else {
                    self.pars@[j]
                },
            decreases PAR_COUNT - i,
        {
            let mut p = l.pars[i];
            p.color = color;
            l.pars[i] = p;
            i = i + 1;
        }
        let mut i: usize = 0;
        while i < BEAM_COUNT
            invariant
                i <= BEAM_COUNT,
                l.strobe == self.strobe && l.laser == self.laser,
                l.bars == self.bars && l.spiders == self.spiders,
                forall|j: int| 0 <= j < 10 ==> #[trigger] l.pars@[j] == (Par { color, ..self.pars@[j] }),
                forall|j: int| 0 <= j < 4 ==> #[trigger] l.beams@[j] == if j < i {
                    Beam { color, ..self.beams@[j] }
                } else {
                    self.beams@[j]
                },
            decreases BEAM_COUNT - i,
        {
            let mut b = l.beams[i];
            b.color = color;
            l.beams[i] = b;
            i = i + 1;
        }
        let mut i: usize = 0;
        while i < BAR_COUNT
            invariant
                i <= BAR_COUNT,
                l.strobe == self.strobe && l.laser == self.laser && l.spiders == self.spiders,
                forall|j: int| 0 <= j < 10 ==> #[trigger] l.pars@[j] == (Par { color, ..self.pars@[j] }),
                forall|j: int| 0 <= j < 4 ==> #[trigger] l.beams@[j] == (Beam { color, ..self.beams@[j] }),
                forall|j: int| 0 <= j < 2 ==> #[trigger] l.bars@[j] == if j < i {
                    Bar { color, ..self.bars@[j] }
                } else {
                    self.bars@[j]
                },
            decreases BAR_COUNT - i,
        {
            let mut b = l.bars[i];
            b.color = color;
            l.bars[i] = b;
            i = i + 1;
        }
        l.strobe.color = color;
        let mut i: usize = 0;
        while i < SPIDER_COUNT
            invariant
                i <= SPIDER_COUNT,
                l.strobe == (Strobe { color, ..self.strobe }) && l.laser == self.laser,
                forall|j: int| 0 <= j < 10 ==> #[trigger] l.pars@[j] == (Par { color, ..self.pars@[j] }),
                forall|j: int| 0 <= j < 4 ==> #[trigger] l.beams@[j] == (Beam { color, ..self.beams@[j] }),
                forall|j: int| 0 <= j < 2 ==> #[trigger] l.bars@[j] == (Bar { color, ..self.bars@[j] }),
                forall|j: int| 0 <= j < 2 ==> #[trigger] l.spiders@[j] == if j < i {
                    Spider { color0: color, color1: color, ..self.spiders@[j] }
                } else {
                    self.spiders@[j]
                },
            decreases SPIDER_COUNT - i,
        {
            let mut p = l.spiders[i];
            p.color0 = color;
            p.color1 = color;
            l.spiders[i] = p;
            i = i + 1;
        }
        l
    }

    /// Every fixture's alpha (both spider alphas) scaled by `fr`: the global
    /// dimmer. Every other channel is kept, so `fr == 0` is a blackout that
    /// a later frame recovers from at once.
    pub fn brightness(&mut self, fr: u16)
        ensures
            final(self).dimmed_from(*old(self), fr),
    {
        let ghost o = *self;
        let mut i: usize = 0;
        while i < PAR_COUNT
            invariant
                i <= PAR_COUNT,
                self.strobe == o.strobe && self.laser == o.laser && self.beams == o.beams,
                self.bars == o.bars && self.spiders == o.spiders,
                forall|j: int| 0 <= j < 10 ==> #[trigger] self.pars@[j] == if j < i {
                    Par { color: dimmed(o.pars@[j].color, fr) }
                } else {
                    o.pars@[j]
                },
            decreases PAR_COUNT - i,
        {
            let mut p = self.pars[i];
            p.color = p.color.a_mul(fr);
            self.pars[i] = p;
            i = i + 1;
        }
        let mut i: usize = 0;
        while i < BEAM_COUNT
            invariant
                i <= BEAM_COUNT,
                self.strobe == o.strobe && self.laser == o.laser,
                self.bars == o.bars && self.spiders == o.spiders,
                forall|j: int| 0 <= j < 10 ==> #[trigger] self.pars@[j] == (Par { color: dimmed(o.pars@[j].color, fr) }),
                forall|j: int| 0 <= j < 4 ==> #[trigger] self.beams@[j] == if j < i {
                    Beam { color: dimmed(o.beams@[j].color, fr), ..o.beams@[j] }
                } else {
                    o.beams@[j]
                },
            decreases BEAM_COUNT - i,
        {
            let mut b = self.beams[i];
            b.color = b.color.a_mul(fr);
            self.beams[i] = b;
            i = i + 1;
        }
        let mut i: usize = 0;
        while i < BAR_COUNT
            invariant
                i <= BAR_COUNT,
                self.strobe == o.strobe && self.laser == o.laser && self.spiders == o.spiders,
                forall|j: int| 0 <= j < 10 ==> #[trigger] self.pars@[j] == (Par { color: dimmed(o.pars@[j].color, fr) }),
                forall|j: int|
                    0 <= j < 4 ==> #[trigger] self.beams@[j] == (Beam { color: dimmed(o.beams@[j].color, fr), ..o.beams@[j] }),
                forall|j: int| 0 <= j < 2 ==> #[trigger] self.bars@[j] == if j < i {
                    Bar { color: dimmed(o.bars@[j].color, fr) }
                } else {
                    o.bars@[j]
                },
            decreases BAR_COUNT - i,
        {
            let mut b = self.bars[i];
            b.color = b.color.a_mul(fr);
            self.bars[i] = b;
            i = i + 1;
        }
        self.strobe.color = self.strobe.color.a_mul(fr);
        let mut i: usize = 0;
        while i < SPIDER_COUNT
            invariant
                i <= SPIDER_COUNT,
                self.strobe == (Strobe { color: dimmed(o.strobe.color, fr) }) && self.laser == o.laser,
                forall|j: int| 0 <= j < 10 ==> #[trigger] self.pars@[j] == (Par { color: dimmed(o.pars@[j].color, fr) }),
                forall|j: int|
                    0 <= j < 4 ==> #[trigger] self.beams@[j] == (Beam { color: dimmed(o.beams@[j].color, fr), ..o.beams@[j] }),
                forall|j: int| 0 <= j < 2 ==> #[trigger] self.bars@[j] == (Bar { color: dimmed(o.bars@[j].color, fr) }),
                forall|j: int| 0 <= j < 2 ==> #[trigger] self.spiders@[j] == if j < i {
                    Spider {
                        color0: dimmed(o.spiders@[j].color0, fr),
                        color1: dimmed(o.spiders@[j].color1, fr),
                        ..o.spiders@[j]
                    }
                } else {
                    o.spiders@[j]
                },
            decreases SPIDER_COUNT - i,
        {
            let mut p = self.spiders[i];
            p.color0 = p.color0.a_mul(fr);
            p.color1 = p.color1.a_mul(fr);
            self.spiders[i] = p;
            i = i + 1;
        }
    }

    /// The universe `s` with every fixture's frame put at its address.
    pub open spec fn render(self, s: Seq<u8>) -> Seq<u8> {
        let s1 = put_block(s, self.pars@.map_values(|p: Par| p.frame()), PAR_BASE as int, Par::SIZE as int, 10);
        let s2 = put_block(s1, self.beams@.map_values(|b: Beam| b.frame()), BEAM_BASE as int, Beam::SIZE as int, 4);
        let s3 = put(s2, STROBE_BASE as int, self.strobe.frame());
        let s4 = put_block(s3, self.bars@.map_values(|b: Bar| b.frame()), BAR_BASE as int, Bar::SIZE as int, 2);
        let s5 = put(s4, LASER_BASE as int, self.laser.frame());
        put_block(s5, self.spiders@.map_values(|p: Spider| p.frame()), SPIDER_BASE as int, Spider::SIZE as int, 2)
    }

    /// Encodes every fixture at its address in the universe.
    pub fn write(&self, buffer: &mut [u8])
        requires
            old(buffer)@.len() >= UNIVERSE_LEN,
        ensures
            final(buffer)@ == self.render(old(buffer)@),
    {
        let ghost s0 = buffer@;
        let ghost pf = self.pars@.map_values(|p: Par| p.frame());
        let mut i: usize = 0;
        while i < PAR_COUNT
            invariant
                i <= PAR_COUNT,
                s0.len() >= UNIVERSE_LEN,
                pf == self.pars@.map_values(|p: Par| p.frame()),
                buffer@ == put_block(s0, pf, PAR_BASE as int, Par::SIZE as int, i as nat),
            decreases PAR_COUNT - i,
        {
            proof { lemma_put_block_len(s0, pf, PAR_BASE as int, Par::SIZE as int, i as nat); }
            self.pars[i].encode(buffer, PAR_BASE + Par::SIZE * i);
            i = i + 1;
        }
        let ghost s1 = buffer@;
        let ghost bf = self.beams@.map_values(|b: Beam| b.frame());
        proof { lemma_put_block_len(s0, pf, PAR_BASE as int, Par::SIZE as int, 10); }
        let mut i: usize = 0;
        while i < BEAM_COUNT
            invariant
                i <= BEAM_COUNT,
                s1.len() >= UNIVERSE_LEN,
                bf == self.beams@.map_values(|b: Beam| b.frame()),
                buffer@ == put_block(s1, bf, BEAM_BASE as int, Beam::SIZE as int, i as nat),
            decreases BEAM_COUNT - i,
        {
            proof { lemma_put_block_len(s1, bf, BEAM_BASE as int, Beam::SIZE as int, i as nat); }
            self.beams[i].encode(buffer, BEAM_BASE + Beam::SIZE * i);
            i = i + 1;
        }
        proof { lemma_put_block_len(s1, bf, BEAM_BASE as int, Beam::SIZE as int, 4); }
        self.strobe.encode(buffer, STROBE_BASE);
        let ghost s3 = buffer@;
        let ghost rf = self.bars@.map_values(|b: Bar| b.frame());
        let mut i: usize = 0;
        while i < BAR_COUNT
            invariant
                i <= BAR_COUNT,
                s3.len() >= UNIVERSE_LEN,
                rf == self.bars@.map_values(|b: Bar| b.frame()),
                buffer@ == put_block(s3, rf, BAR_BASE as int, Bar::SIZE as int, i as nat),
            decreases BAR_COUNT - i,
        {
            proof { lemma_put_block_len(s3, rf, BAR_BASE as int, Bar::SIZE as int, i as nat); }
            self.bars[i].encode(buffer, BAR_BASE + Bar::SIZE * i);
            i = i + 1;
        }
        proof { lemma_put_block_len(s3, rf, BAR_BASE as int, Bar::SIZE as int, 2); }
        self.laser.encode(buffer, LASER_BASE);
        let ghost s5 = buffer@;
        let ghost sf = self.spiders@.map_values(|p: Spider| p.frame());
        let mut i: usize = 0;
        while i < SPIDER_COUNT
            invariant
                i <= SPIDER_COUNT,
                s5.len() >= UNIVERSE_LEN,
                sf == self.spiders@.map_values(|p: Spider| p.frame()),
                buffer@ == put_block(s5, sf, SPIDER_BASE as int, Spider::SIZE as int, i as nat),
            decreases SPIDER_COUNT - i,
        {
            proof { lemma_put_block_len(s5, sf, SPIDER_BASE as int, Spider::SIZE as int, i as nat); }
            self.spiders[i].encode(buffer, SPIDER_BASE + Spider::SIZE * i);
            i = i + 1;
        }
    }
}

/// The rendered universe, position by position: every fixture's frame sits
/// in its own block, and no two blocks overlap.
pub proof fn lemma_render_at(l: Lights, s: Seq<u8>, p: int)
    requires
        s.len() >= UNIVERSE_LEN,
        0 <= p < s.len(),
    ensures
        l.render(s)[p] == l.byte_at(s, p),
        l.render(s).len() == s.len(),
{
    let pf = l.pars@.map_values(|x: Par| x.frame());
    let bf = l.beams@.map_values(|x: Beam| x.frame());
    let rf = l.bars@.map_values(|x: Bar| x.frame());
    let sf = l.spiders@.map_values(|x: Spider| x.frame());
    let s1 = put_block(s, pf, 1, 8, 10);
    let s2 = put_block(s1, bf, 81, 15, 4);
    let s3 = put(s2, 142, l.strobe.frame());
    let s4 = put_block(s3, rf, 149, 7, 2);
    let s5 = put(s4, 164, l.laser.frame());
    let s6 = put_block(s5, sf, 175, 15, 2);
    assert(forall|j: int| 0 <= j < 10 ==> (#[trigger] pf[j]).len() == 8);
    assert(forall|j: int| 0 <= j < 4 ==> (#[trigger] bf[j]).len() == 15);
    assert(forall|j: int| 0 <= j < 2 ==> (#[trigger] rf[j]).len() == 7);
    assert(forall|j: int| 0 <= j < 2 ==> (#[trigger] sf[j]).len() == 15);
    lemma_put_block_len(s, pf, 1, 8, 10);
    lemma_put_block_len(s1, bf, 81, 15, 4);
    lemma_put_block_len(s3, rf, 149, 7, 2);
    lemma_put_block_len(s5, sf, 175, 15, 2);
    if 175 <= p < 205 {
        lemma_put_block_inside(s5, sf, 175, 15, 2, (p - 175) / 15, (p - 175) % 15);
    } else {
        lemma_put_block_outside(s5, sf, 175, 15, 2, p);
        if 149 <= p < 163 {
            lemma_put_block_inside(s3, rf, 149, 7, 2, (p - 149) / 7, (p - 149) % 7);
        } else {
            lemma_put_block_outside(s3, rf, 149, 7, 2, p);
            if 81 <= p < 141 {
                lemma_put_block_inside(s1, bf, 81, 15, 4, (p - 81) / 15, (p - 81) % 15);
            } else {
                lemma_put_block_outside(s1, bf, 81, 15, 4, p);
                if 1 <= p < 81 {
                    lemma_put_block_inside(s, pf, 1, 8, 10, (p - 1) / 8, (p - 1) % 8);
                } else {
                    lemma_put_block_outside(s, pf, 1, 8, 10, p);
                }
            }
        }
    }
}

/// Whether universe position `p` is some fixture's alpha (dimmer) channel.
pub open spec fn is_alpha_channel(p: int) -> bool {
    ||| 1 <= p < 81 && (p - 1) % 8 == 3
    ||| 81 <= p < 141 && (p - 81) % 15 == 5
    ||| p == 142
    ||| 149 <= p < 163 && (p - 149) % 7 == 6
    ||| 175 <= p < 205 && (p - 175) % 15 == 2
}

/// Blackout: once every alpha is scaled by zero, each alpha channel that
/// `write` produces is 0, and every other channel is what the undimmed rig
/// writes there; alpha is a channel of its own, never folded into the colour
/// bytes.
pub proof fn lemma_blackout(lit: Lights, dark: Lights, s: Seq<u8>)
    requires
        dark.dimmed_from(lit, 0),
        s.len() >= UNIVERSE_LEN,
    ensures
        dark.render(s).len() == s.len(),
        forall|p: int|
            0 <= p < s.len() ==> #[trigger] dark.render(s)[p] == if is_alpha_channel(p) {
                0u8
            } else {
                lit.render(s)[p]
            },
{
    lemma_render_at(dark, s, 0);
    assert forall|p: int| 0 <= p < s.len() implies #[trigger] dark.render(s)[p] == if is_alpha_channel(p) {
        0u8
    } else {
        lit.render(s)[p]
    } by {
        lemma_render_at(dark, s, p);
        lemma_render_at(lit, s, p);
        if 1 <= p < 81 {
            let i = (p - 1) / 8;
            assert(dark.pars@[i] == (Par { color: dimmed(lit.pars@[i].color, 0) }));
        } else if 81 <= p < 141 {
            let i = (p - 81) / 15;
            assert(dark.beams@[i] == (Beam { color: dimmed(lit.beams@[i].color, 0), ..lit.beams@[i] }));
        } else if 149 <= p < 163 {
            let i = (p - 149) / 7;
            assert(dark.bars@[i] == (Bar { color: dimmed(lit.bars@[i].color, 0) }));
        } else if 175 <= p < 205 {
            let i = (p - 175) / 15;
            assert(dark.spiders@[i] == (Spider {
                color0: dimmed(lit.spiders@[i].color0, 0),
                color1: dimmed(lit.spiders@[i].color1, 0),
                ..lit.spiders@[i]
            }));
        }
    }
}

/// A position inside the block gets the byte of the frame that covers it.
pub proof fn lemma_put_block_inside(
    s: Seq<u8>,
    frames: Seq<Seq<u8>>,
    base: int,
    stride: int,
    n: nat,
    i: int,
    k: int,
)
    requires
        0 <= i < n,
        0 <= k < stride,
        0 <= base,
        n <= frames.len(),
        base + stride * n <= s.len(),
        forall|j: int| 0 <= j < n ==> (#[trigger] frames[j]).len() == stride,
    ensures
        put_block(s, frames, base, stride, n)[base + stride * i + k] == frames[i][k],
    decreases n,
{
    lemma_put_block_len(s, frames, base, stride, (n - 1) as nat);
    assert(stride * (n - 1) + stride == stride * n) by (nonlinear_arith);
    if i < n - 1 {
        assert(stride * i + stride <= stride * (n - 1)) by (nonlinear_arith)
            requires i < n - 1, stride > 0;
        assert(stride * (n - 1) <= stride * n) by (nonlinear_arith)
            requires stride > 0;
        lemma_put_block_inside(s, frames, base, stride, (n - 1) as nat, i, k);
    }
}

/// A position outside the block keeps its byte.
pub proof fn lemma_put_block_outside(s: Seq<u8>, frames: Seq<Seq<u8>>, base: int, stride: int, n: nat, p: int)
    requires
        0 < stride,
        0 <= p < s.len(),
        p < base || p >= base + stride * n,
        forall|j: int| 0 <= j < n ==> (#[trigger] frames[j]).len() == stride,
    ensures
        put_block(s, frames, base, stride, n)[p] == s[p],
    decreases n,
{
    if n > 0 {
        lemma_put_block_len(s, frames, base, stride, (n - 1) as nat);
        assert(stride * (n - 1) + stride == stride * n) by (nonlinear_arith);
        assert(stride * (n - 1) <= stride * n) by (nonlinear_arith)
            requires stride > 0;
        lemma_put_block_outside(s, frames, base, stride, (n - 1) as nat, p);
    }
}

/// Putting frames keeps the universe's length.
pub proof fn lemma_put_block_len(s: Seq<u8>, frames: Seq<Seq<u8>>, base: int, stride: int, n: nat)
    ensures
        put_block(s, frames, base, stride, n).len() == s.len(),
    decreases n,
{
    if n > 0 {
        lemma_put_block_len(s, frames, base, stride, (n - 1) as nat);
    }
}

} // verus!
