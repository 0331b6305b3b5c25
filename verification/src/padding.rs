//! Message padding: extend the message with one `0x80` marker byte, the
//! smallest run of zero bytes that leaves room for the trailer, and the
//! original bit length as eight little-endian bytes, so that the total length
//! is a multiple of 64 bytes.

use vstd::prelude::*;

use crate::bytes::{spec_be_bytes, spec_le_bytes, u64_to_u8_array};
use vstd::arithmetic::div_mod::{
    lemma_fundamental_div_mod, lemma_mod_multiples_vanish, lemma_mod_sub_multiples_vanish,
};
use vstd::slice::slice_to_vec;

verus! {

/// Number of zero bytes between the marker byte and the length trailer:
/// the smallest `k >= 0` with `(len + 1 + k) % 64 == 56`.
pub open spec fn spec_zero_pad_len(len: nat) -> nat {
    ((119 - (len % 64)) % 64) as nat
}

/// The message length in bits, reduced modulo 2^64.
pub open spec fn spec_bit_len(len: nat) -> u64 {
    ((len * 8) % 0x1_0000_0000_0000_0000) as u64
}

/// The padded buffer: the message, one `0x80` byte, zero fill, and the bit
/// length as eight little-endian bytes.
pub open spec fn spec_padded(msg: Seq<u8>) -> Seq<u8> {
    msg + seq![0x80u8] + Seq::new(spec_zero_pad_len(msg.len()), |i: int| 0u8) + spec_le_bytes(
        spec_bit_len(msg.len()),
    )
}

/// The zero-fill length makes the padded buffer end exactly on a 64-byte
/// boundary: `(len + 1 + k) % 64 == 56`, with the 8-byte trailer completing
/// the final block.
pub proof fn lemma_zero_pad_len(len: nat)
    ensures
        (len + 1 + spec_zero_pad_len(len)) % 64 == 56,
        spec_zero_pad_len(len) < 64,
{
    let d = len % 64;
    lemma_fundamental_div_mod(len as int, 64);
    if d < 56 {
        lemma_mod_sub_multiples_vanish(119 - d, 64);
        assert(spec_zero_pad_len(len) == 55 - d);
    } else {
        assert(spec_zero_pad_len(len) == 119 - d);
    }
    lemma_mod_multiples_vanish((len as int) / 64 + if d < 56 {
        0int
    } else {
        1int
    }, 56, 64);
}

/// Shape of the padded buffer: its length is a multiple of 64 and exceeds the
/// message by at least 9 bytes; it starts with the message itself, followed by
/// exactly one `0x80` marker, then only zero bytes up to the 8-byte trailer.
pub proof fn lemma_padded_properties(msg: Seq<u8>)
    ensures
        spec_padded(msg).len() == msg.len() + 9 + spec_zero_pad_len(msg.len()),
        spec_padded(msg).len() % 64 == 0,
        spec_padded(msg).len() >= msg.len() + 9,
        spec_padded(msg).subrange(0, msg.len() as int) == msg,
        spec_padded(msg)[msg.len() as int] == 0x80,
        forall|i: int|
            msg.len() + 1 <= i < spec_padded(msg).len() - 8 ==> spec_padded(msg)[i] == 0,
{
    let len = msg.len();
    let total = len + 9 + spec_zero_pad_len(len);
    lemma_zero_pad_len(len);
    lemma_fundamental_div_mod(len as int + 1 + spec_zero_pad_len(len), 64);
    lemma_mod_multiples_vanish(((len + 1 + spec_zero_pad_len(len)) as int) / 64 + 1, 0, 64);
    assert(total % 64 == 0);
    assert(spec_padded(msg).subrange(0, msg.len() as int) =~= msg);
}

/// Pads the message: appends one `0x80` byte, then zero bytes up to 8 short
/// of a 64-byte boundary, then the message bit length, little-endian.
pub fn pad_message(message: &[u8]) -> (m: Vec<u8>)
    ensures
        m@ == spec_padded(message@),
{
    let mut m = slice_to_vec(message);
    m.push(0x80);
    let rem = message.len() % 64;
    let zeros: usize = if rem < 56 {
        55 - rem
    } else {
        119 - rem
    };
    proof {
        lemma_fundamental_div_mod(message@.len() as int, 64);
        if rem < 56 {
            lemma_mod_sub_multiples_vanish(119 - rem, 64);
        }
        assert(zeros == spec_zero_pad_len(message@.len()));
        assert(m@ =~= message@ + seq![0x80u8] + Seq::new(0, |i: int| 0u8));
    }
    let mut z: usize = 0;
    while z < zeros
        invariant
            z <= zeros,
            m@ == message@ + seq![0x80u8] + Seq::new(z as nat, |i: int| 0u8),
        decreases zeros - z,
    {
        m.push(0x00);
        z += 1;
        proof {
            assert(m@ =~= message@ + seq![0x80u8] + Seq::new(z as nat, |i: int| 0u8));
        }
    }
    let bits: u64 = (message.len() as u64).wrapping_mul(8);
    proof {
        assert(bits == spec_bit_len(message@.len()));
    }
    let bytes = u64_to_u8_array(bits);
    m.push(bytes[7]);
    m.push(bytes[6]);
    m.push(bytes[5]);
    m.push(bytes[4]);
    m.push(bytes[3]);
    m.push(bytes[2]);
    m.push(bytes[1]);
    m.push(bytes[0]);
    proof {
        assert(spec_le_bytes(bits) =~= seq![
            spec_be_bytes(bits)[7],
            spec_be_bytes(bits)[6],
            spec_be_bytes(bits)[5],
            spec_be_bytes(bits)[4],
            spec_be_bytes(bits)[3],
            spec_be_bytes(bits)[2],
            spec_be_bytes(bits)[1],
            spec_be_bytes(bits)[0],
        ]);
        assert(m@ =~= spec_padded(message@));
    }
    m
}

} // verus!
