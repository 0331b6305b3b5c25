//! The digest pipeline: pad, split into 64-byte blocks, fold the compression
//! over the blocks in order, and assemble the final 128-bit digest.

use vstd::prelude::*;

use crate::bytes::{spec_word, u8_block_to_u32_block};
use crate::compress::{compress_block, spec_compress, Md5State};
use crate::padding::{lemma_padded_properties, pad_message, spec_padded};
use crate::tables::{calc_k, spec_k};
use vstd::arithmetic::div_mod::lemma_fundamental_div_mod;
use vstd::slice::slice_subrange;

verus! {

/// Initial value of register A.
pub const A0: u32 = 0x67452301;

/// Initial value of register B.
pub const B0: u32 = 0xEFCDAB89;

/// Initial value of register C.
pub const C0: u32 = 0x98BADCFE;

/// Initial value of register D.
pub const D0: u32 = 0x10325476;

/// The fixed state every digest computation starts from.
pub open spec fn spec_init_state() -> Md5State {
    Md5State { a: A0, b: B0, c: C0, d: D0 }
}

/// The sixteen little-endian words of block `blk` of the padded buffer.
pub open spec fn spec_block_words(buf: Seq<u8>, blk: int) -> Seq<u32> {
    Seq::new(16, |j: int| spec_word(buf.subrange(64 * blk, 64 * blk + 64), j))
}

/// The running state after compressing the first `n` blocks of `buf`,
/// strictly in order: each block's compression starts from the state the
/// previous block produced.
pub open spec fn spec_process_blocks(st: Md5State, buf: Seq<u8>, n: int) -> Md5State
    decreases n,
{
    if n <= 0 {
        st
    } else {
        spec_compress(spec_process_blocks(st, buf, n - 1), spec_block_words(buf, n - 1))
    }
}

/// The bytes of a 32-bit word in reverse order.
pub open spec fn spec_swap_bytes(x: u32) -> u32 {
    ((x & 0xff) << 24) | ((x & 0xff00) << 8) | ((x >> 8) & 0xff00) | (x >> 24)
}

/// The 128-bit digest read off a final state: each word's bytes reversed,
/// then concatenated as `a || b || c || d`, most significant word first.
pub open spec fn spec_assemble_digest(st: Md5State) -> u128 {
    ((spec_swap_bytes(st.a) as u128) << 96) | ((spec_swap_bytes(st.b) as u128) << 64) | ((
    spec_swap_bytes(st.c) as u128) << 32) | (spec_swap_bytes(st.d) as u128)
}

/// The MD5 digest of a byte sequence: the padded buffer folded block by
/// block through the compression from the fixed initial state, assembled as
/// 128 bits.
pub open spec fn spec_md5(msg: Seq<u8>) -> u128 {
    let padded = spec_padded(msg);
    spec_assemble_digest(
        spec_process_blocks(spec_init_state(), padded, (padded.len() as int) / 64),
    )
}

/// Reverses the byte order of a 32-bit word.
pub fn swap_word_bytes(x: u32) -> (r: u32)
    ensures
        r == spec_swap_bytes(x),
{
    ((x & 0xff) << 24) | ((x & 0xff00) << 8) | ((x >> 8) & 0xff00) | (x >> 24)
}

/// Computes the MD5 digest of `message`.
///
/// Messages of 2^61 bytes or more wrap the recorded bit length modulo 2^64,
/// matching the original specification's stated limitation.
pub fn md5(message: &[u8]) -> (digest: u128)
    ensures
        digest == spec_md5(message@),
{
    let k = calc_k();
    let m = pad_message(message);
    proof {
        lemma_padded_properties(message@);
        lemma_fundamental_div_mod(m@.len() as int, 64);
    }
    let m_len = m.len();
    let total_blocks = m_len / 64;
    let mut state = Md5State { a: A0, b: B0, c: C0, d: D0 };
    let mut blk: usize = 0;
    while blk < total_blocks
        invariant
            m@ == spec_padded(message@),
            m_len == m@.len(),
            m_len == 64 * total_blocks,
            blk <= total_blocks,
            forall|t: int| 0 <= t < 64 ==> #[trigger] k@[t] == spec_k(t),
            state == spec_process_blocks(spec_init_state(), m@, blk as int),
        decreases total_blocks - blk,
    {
        let start = blk * 64;
        let block = slice_subrange(m.as_slice(), start, start + 64);
        let words = u8_block_to_u32_block(block);
        proof {
            assert(words@ =~= spec_block_words(m@, blk as int));
        }
        state = compress_block(state, &words, &k);
        blk += 1;
    }
    ((swap_word_bytes(state.a) as u128) << 96) | ((swap_word_bytes(state.b) as u128) << 64) | ((
    swap_word_bytes(state.c) as u128) << 32) | (swap_word_bytes(state.d) as u128)
}

} // verus!
