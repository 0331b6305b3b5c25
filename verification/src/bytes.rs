//! Conversions between bytes and words: the big-endian byte decomposition of
//! a 64-bit length, and the little-endian assembly of a 64-byte block into
//! sixteen 32-bit words.

use vstd::prelude::*;

verus! {

/// The eight bytes of `x`, most significant first.
pub open spec fn spec_be_bytes(x: u64) -> Seq<u8> {
    seq![
        ((x >> 56) & 0xff) as u8,
        ((x >> 48) & 0xff) as u8,
        ((x >> 40) & 0xff) as u8,
        ((x >> 32) & 0xff) as u8,
        ((x >> 24) & 0xff) as u8,
        ((x >> 16) & 0xff) as u8,
        ((x >> 8) & 0xff) as u8,
        (x & 0xff) as u8,
    ]
}

/// The eight bytes of `x`, least significant first.
pub open spec fn spec_le_bytes(x: u64) -> Seq<u8> {
    spec_be_bytes(x).reverse()
}

/// The 32-bit word starting at byte `4 * j` of `bytes`, assembled with the
/// first byte least significant.
pub open spec fn spec_word(bytes: Seq<u8>, j: int) -> u32 {
    (bytes[4 * j] as u32) | ((bytes[4 * j + 1] as u32) << 8) | ((bytes[4 * j + 2] as u32) << 16)
        | ((bytes[4 * j + 3] as u32) << 24)
}

/// The eight bytes of `x`, most significant first.
pub fn u64_to_u8_array(x: u64) -> (r: [u8; 8])
    ensures
        r@ == spec_be_bytes(x),
{
    let b1 = ((x >> 56) & 0xff) as u8;
    let b2 = ((x >> 48) & 0xff) as u8;
    let b3 = ((x >> 40) & 0xff) as u8;
    let b4 = ((x >> 32) & 0xff) as u8;
    let b5 = ((x >> 24) & 0xff) as u8;
    let b6 = ((x >> 16) & 0xff) as u8;
    let b7 = ((x >> 8) & 0xff) as u8;
    let b8 = (x & 0xff) as u8;
    let r = [b1, b2, b3, b4, b5, b6, b7, b8];
    proof {
        assert(r@ =~= spec_be_bytes(x));
    }
    r
}

/// Reinterprets a 64-byte block as sixteen little-endian 32-bit words.
pub fn u8_block_to_u32_block(block: &[u8]) -> (r: [u32; 16])
    requires
        block@.len() == 64,
    ensures
        forall|j: int| 0 <= j < 16 ==> #[trigger] r@[j] == spec_word(block@, j),
{
    let mut ret = [0u32; 16];
    let mut j: usize = 0;
    while j < 16
        invariant
            block@.len() == 64,
            j <= 16,
            forall|t: int| 0 <= t < j ==> #[trigger] ret@[t] == spec_word(block@, t),
        decreases 16 - j,
    {
        let b0 = block[4 * j] as u32;
        let b1 = block[4 * j + 1] as u32;
        let b2 = block[4 * j + 2] as u32;
        let b3 = block[4 * j + 3] as u32;
        ret[j] = b0 | (b1 << 8u32) | (b2 << 16u32) | (b3 << 24u32);
        j += 1;
    }
    ret
}

} // verus!
