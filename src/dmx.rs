//! Writing fixture frames into a universe buffer.

use vstd::prelude::*;

verus! {

/// The universe buffer's length: index 0 is the start code, channels are
/// addressed 1-based from index 1.
pub const UNIVERSE_LEN: usize = 205;

/// `s` with the positions `at .. at + f.len()` replaced by `f`.
pub open spec fn put(s: Seq<u8>, at: int, f: Seq<u8>) -> Seq<u8> {
    Seq::new(s.len(), |i: int| if at <= i < at + f.len() { f[i - at] } else { s[i] })
}

/// Putting a frame touches exactly its own positions: the length is kept,
/// the positions `at .. at + f.len()` hold `f`, and every other position
/// keeps its byte.
pub proof fn lemma_put_touches_own_positions(s: Seq<u8>, at: int, f: Seq<u8>)
    requires
        0 <= at,
        at + f.len() <= s.len(),
    ensures
        put(s, at, f).len() == s.len(),
        forall|i: int| 0 <= i < f.len() ==> #[trigger] put(s, at, f)[at + i] == f[i],
        forall|i: int| 0 <= i < s.len() && !(at <= i < at + f.len()) ==> #[trigger] put(s, at, f)[i] == s[i],
{
}

/// Copies `frame` into `buffer` from position `at` on, leaving the rest as it was.
pub fn blit(buffer: &mut [u8], at: usize, frame: &Vec<u8>)
    requires
        at + frame@.len() <= old(buffer)@.len(),
    ensures
        final(buffer)@ == put(old(buffer)@, at as int, frame@),
{
    let ghost start = buffer@;
    let n: usize = buffer.len();
    let mut i: usize = 0;
    while i < frame.len()
        invariant
            i <= frame@.len(),
            at + frame@.len() <= start.len(),
            buffer@.len() == start.len(),
            start.len() == n,
            forall|j: int|
                0 <= j < start.len() ==> #[trigger] buffer@[j] == if at <= j < at + i {
                    frame@[j - at]
                } else {
                    start[j]
                },
        decreases frame@.len() - i,
    {
        buffer[at + i] = frame[i];
        i = i + 1;
    }
    assert(buffer@ =~= put(start, at as int, frame@));
}

} // verus!
