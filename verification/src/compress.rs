//! The per-block compression: 64 rounds over four working registers, then a
//! wraparound addition of the working registers back into the running state.

use vstd::prelude::*;

use crate::mix::{spec_mix, F, G, H, I};
use crate::tables::{lemma_shift_in_range, spec_k, spec_shift, SHIFT_BY_ROUND};

verus! {

/// The four-word running state threaded across the blocks.
#[derive(Clone, Copy, PartialEq, Eq, Structural, Debug)]
pub struct Md5State {
    pub a: u32,
    pub b: u32,
    pub c: u32,
    pub d: u32,
}

/// Addition modulo 2^32.
pub open spec fn spec_wadd(x: u32, y: u32) -> u32 {
    if x + y > u32::MAX {
        (x + y - 0x1_0000_0000) as u32
    } else {
        (x + y) as u32
    }
}

/// Circular left shift of a 32-bit word by `s` bits, for `0 < s < 32`.
pub open spec fn spec_rotl(x: u32, s: u32) -> u32
    recommends
        0 < s < 32,
{
    (x << s) | (x >> ((32 - s) as u32))
}

/// Index of the source word drawn from the block in round `i`.
pub open spec fn spec_word_index(i: int) -> int {
    if i < 16 {
        i
    } else if i < 32 {
        (5 * i + 1) % 16
    } else if i < 48 {
        (3 * i + 5) % 16
    } else {
        (7 * i) % 16
    }
}

/// One round of the compression: mix, add the running register, the round
/// constant and the selected block word, rotate, and shift the registers in
/// lockstep.
pub open spec fn spec_round(st: Md5State, w: Seq<u32>, i: int) -> Md5State
    recommends
        0 <= i < 64,
        w.len() == 16,
{
    let mixer = spec_wadd(
        spec_wadd(spec_wadd(spec_mix(i, st.b, st.c, st.d), st.a), spec_k(i)),
        w[spec_word_index(i)],
    );
    let rotated = spec_rotl(mixer, spec_shift(i));
    Md5State { a: st.d, b: spec_wadd(st.b, rotated), c: st.b, d: st.c }
}

/// The first `n` rounds applied to `st`.
pub open spec fn spec_rounds(st: Md5State, w: Seq<u32>, n: int) -> Md5State
    decreases n,
{
    if n <= 0 {
        st
    } else {
        spec_round(spec_rounds(st, w, n - 1), w, n - 1)
    }
}

/// A full block compression: 64 rounds, then the working registers added
/// (modulo 2^32) back into the incoming state component-wise.
pub open spec fn spec_compress(st: Md5State, w: Seq<u32>) -> Md5State {
    let e = spec_rounds(st, w, 64);
    Md5State {
        a: spec_wadd(st.a, e.a),
        b: spec_wadd(st.b, e.b),
        c: spec_wadd(st.c, e.c),
        d: spec_wadd(st.d, e.d),
    }
}

/// Circular left shift of a 32-bit word.
pub fn rotate_left_u32(x: u32, s: u32) -> (r: u32)
    requires
        0 < s < 32,
    ensures
        r == spec_rotl(x, s),
{
    (x << s) | (x >> (32 - s))
}

/// Runs the 64-round compression of one block (given as 16 little-endian
/// words) against `state`, returning the updated running state.
pub fn compress_block(state: Md5State, words: &[u32; 16], k: &[u32; 64]) -> (r: Md5State)
    requires
        forall|t: int| 0 <= t < 64 ==> #[trigger] k@[t] == spec_k(t),
    ensures
        r == spec_compress(state, words@),
{
    let mut a = state.a;
    let mut b = state.b;
    let mut c = state.c;
    let mut d = state.d;
    let mut i: usize = 0;
    while i < 64
        invariant
            i <= 64,
            forall|t: int| 0 <= t < 64 ==> #[trigger] k@[t] == spec_k(t),
            (Md5State { a, b, c, d }) == spec_rounds(state, words@, i as int),
        decreases 64 - i,
    {
        let (mixed, block_index): (u32, usize) = if i < 16 {
            (F(b, c, d), i)
        } else if i < 32 {
            (G(b, c, d), (5 * i + 1) % 16)
        } else if i < 48 {
            (H(b, c, d), (3 * i + 5) % 16)
        } else {
            (I(b, c, d), (7 * i) % 16)
        };
        let mixer = mixed.wrapping_add(a).wrapping_add(k[i]).wrapping_add(words[block_index]);
        let shift = SHIFT_BY_ROUND[i];
        proof {
            lemma_shift_in_range(i as int);
        }
        let rotated = rotate_left_u32(mixer, shift);
        let new_b = b.wrapping_add(rotated);
        a = d;
        d = c;
        c = b;
        b = new_b;
        i += 1;
    }
    Md5State {
        a: state.a.wrapping_add(a),
        b: state.b.wrapping_add(b),
        c: state.c.wrapping_add(c),
        d: state.d.wrapping_add(d),
    }
}

} // verus!
