//! The beat clock's decisions: what an inbound tempo/transport message does to
//! the shared {bpm, beat} state, and which beats a subdivided subscription
//! delivers. The listener and relay tasks that carry these out run outside
//! the library.

use vstd::prelude::*;

verus! {

/// The tempo that a new clock starts with, in thousandths of a beat per minute.
pub const DEFAULT_BPM: u32 = 120000;

/// One argument of an inbound message. A float argument is carried as its
/// value in millionths, rounded.
#[derive(Clone, Copy, Debug, PartialEq, Eq, Structural)]
pub enum Arg {
    Int(i32),
    Micro(i64),
    Other,
}

/// An inbound address-and-arguments message.
#[derive(Debug)]
pub struct Message {
    pub addr: String,
    pub args: Vec<Arg>,
}

/// What handling one message did.
#[derive(Clone, Copy, Debug, PartialEq, Eq, Structural)]
pub enum Outcome {
    /// The tempo was replaced (thousandths of a BPM).
    Tempo(u32),
    /// The beat counter was replaced; the index is to be published.
    Beat(u16),
    /// A known address with a missing or mistyped argument: dropped.
    Malformed,
    /// An address the clock does not know.
    Ignored,
}

/// The clock's shared state.
#[derive(Clone, Copy, Debug, PartialEq, Eq, Structural)]
pub struct Time {
    pub bpm: u32,
    pub beat: u16,
    pub quantum: u16,
}

/// A tempo argument in millionths of a BPM as thousandths, if it is one.
pub open spec fn tempo_of(arg: Arg) -> Option<u32> {
    match arg {
        Arg::Micro(m) => if 0 <= m && m / 1000 <= u32::MAX {
            Some((m / 1000) as u32)
        } else {
            None
        },
        _ => None,
    }
}

/// The beat counter for a raw beat number: its value modulo 2^16.
pub open spec fn beat_of(i: i32) -> u16 {
    (i as int % 65536) as u16
}

/// The next state and outcome for a message to address `addr` with `args`.
pub open spec fn clock_step(t: Time, addr: Seq<char>, args: Seq<Arg>) -> (Time, Outcome) {
    if addr == "/bpm"@ {
        if args.len() > 0 && tempo_of(args[0]).is_some() {
            let b = tempo_of(args[0]).unwrap();
            (Time { bpm: b, ..t }, Outcome::Tempo(b))
        } else {
            (t, Outcome::Malformed)
        }
    } else if addr == "/beats"@ {
        if args.len() > 0 && args[0] is Int {
            let n = beat_of(args[0]->Int_0);
            (Time { beat: n, ..t }, Outcome::Beat(n))
        } else {
            (t, Outcome::Malformed)
        }
    } else {
        (t, Outcome::Ignored)
    }
}

/// The beat step of a subscription to `num / denom` bars of `quantum` beats,
/// if it is a positive number that fits.
pub open spec fn division(quantum: u16, num: u16, denom: u16) -> Option<u16> {
    let q = quantum as int * num as int;
    if denom == 0 || q > u16::MAX || q / (denom as int) == 0 {
        None
    } else {
        Some((q / (denom as int)) as u16)
    }
}

/// What a subscription with beat step `div` delivers for raw beat `j`.
pub open spec fn subdivided(div: u16, j: u16) -> Option<u16> {
    if j % div == 0 {
        Some((j / div) as u16)
    } else {
        None
    }
}

pub(crate) fn same_addr(addr: &String, name: &str) -> (r: bool)
    ensures
        r == (addr@ == name@),
{
    let n: String = name.to_owned();
    *addr == n
}

impl Time {
    /// A clock at the default tempo and beat 0, with `quantum` beats to the bar.
    pub fn new(quantum: u16) -> (t: Time)
        ensures
            t == (Time { bpm: DEFAULT_BPM, beat: 0, quantum }),
    {
        Time { bpm: DEFAULT_BPM, beat: 0, quantum }
    }

    pub fn quantum(&self) -> (q: u16)
        ensures
            q == self.quantum,
    {
        self.quantum
    }

    /// The tempo, in thousandths of a BPM.
    pub fn bpm(&self) -> (b: u32)
        ensures
            b == self.bpm,
    {
        self.bpm
    }

    pub fn beat(&self) -> (b: u16)
        ensures
            b == self.beat,
    {
        self.beat
    }

    /// Applies one inbound message: `/bpm` with a float replaces the tempo,
    /// `/beats` with an integer replaces the counter (modulo 2^16) and asks for
    /// it to be published; anything malformed or unknown leaves the state as it
    /// was.
    pub fn handle(&mut self, msg: &Message) -> (o: Outcome)
        ensures
            (*final(self), o) == clock_step(*old(self), msg.addr@, msg.args@),
    {
        if same_addr(&msg.addr, "/bpm") {
            if msg.args.len() > 0 {
                match msg.args[0] {
                    Arg::Micro(m) => {
                        if 0 <= m && m / 1000 <= u32::MAX as i64 {
                            let b: i64 = m / 1000;
                            self.bpm = b as u32;
                            return Outcome::Tempo(b as u32);
                        }
                    },
                    _ => {},
                }
            }
            Outcome::Malformed
        } else if same_addr(&msg.addr, "/beats") {
            if msg.args.len() > 0 {
                match msg.args[0] {
                    Arg::Int(i) => {
                        let n: u16 = beat_number(i);
                        self.beat = n;
                        return Outcome::Beat(n);
                    },
                    _ => {},
                }
            }
            Outcome::Malformed
        } else {
            Outcome::Ignored
        }
    }

    /// The beat step for a subscription to every `num / denom` bars: `None`
    /// where that is not a positive whole number of beats that fits.
    pub fn divisor(&self, num: u16, denom: u16) -> (d: Option<u16>)
        ensures
            d == division(self.quantum, num, denom),
    {
        if denom == 0 {
            return None;
        }
        assert((self.quantum as u32) * (num as u32) <= 65535 * 65535) by (nonlinear_arith)
            requires self.quantum <= 65535, num <= 65535;
        let q: u32 = (self.quantum as u32) * (num as u32);
        if q > u16::MAX as u32 {
            return None;
        }
        let d: u32 = q / (denom as u32);
        if d == 0 {
            None
        } else {
            Some(d as u16)
        }
    }
}

fn beat_number(i: i32) -> (n: u16)
    ensures
        n == beat_of(i),
{
    let m: i64 = (i as i64) % 65536;
    if m < 0 {
        (m + 65536) as u16
    } else {
        m as u16
    }
}

/// What a subscription with beat step `div` delivers for raw beat `j`: the
/// quotient where `div` divides `j`, nothing otherwise.
pub fn divided_beat(div: u16, j: u16) -> (r: Option<u16>)
    requires
        div > 0,
    ensures
        r == subdivided(div, j),
{
    if j % div == 0 {
        Some(j / div)
    } else {
        None
    }
}

/// Subdivision: a subscription with beat step `div` delivers raw beat `j`
/// exactly when `div` divides it, and then delivers `j / div`; two
/// subscriptions with the same step deliver the same indices.
pub proof fn lemma_subdivision(div: u16, j: u16)
    requires
        div > 0,
    ensures
        subdivided(div, j) is Some <==> j % div == 0,
        subdivided(div, j) is Some ==> subdivided(div, j)->Some_0 == j / div,
        subdivided(div, j) is Some ==> j == (subdivided(div, j)->Some_0 as int) * div,
{
    if j % div == 0 {
        assert(j == (j / div) * div) by (nonlinear_arith)
            requires j % div == 0, div > 0;
    }
}

} // verus!
