//! The four boolean mixing functions of three 32-bit words, and the dispatch
//! that selects one of them by round index.

use vstd::prelude::*;

verus! {

pub open spec fn spec_f(b: u32, c: u32, d: u32) -> u32 {
    (b & c) | (!b & d)
}

pub open spec fn spec_g(b: u32, c: u32, d: u32) -> u32 {
    (b & d) | (c & !d)
}

pub open spec fn spec_h(b: u32, c: u32, d: u32) -> u32 {
    b ^ c ^ d
}

pub open spec fn spec_i(b: u32, c: u32, d: u32) -> u32 {
    c ^ (b | !d)
}

/// The mixing function used in round `i`: F on rounds 0..16, G on 16..32,
/// H on 32..48, and I on 48..64.
pub open spec fn spec_mix(i: int, b: u32, c: u32, d: u32) -> u32 {
    if i < 16 {
        spec_f(b, c, d)
    } else if i < 32 {
        spec_g(b, c, d)
    } else if i < 48 {
        spec_h(b, c, d)
    } else {
        spec_i(b, c, d)
    }
}

#[allow(non_snake_case)]
pub fn F(B: u32, C: u32, D: u32) -> (r: u32)
    ensures
        r == spec_f(B, C, D),
{
    (B & C) | (!B & D)
}

#[allow(non_snake_case)]
pub fn G(B: u32, C: u32, D: u32) -> (r: u32)
    ensures
        r == spec_g(B, C, D),
{
    (B & D) | (C & !D)
}

#[allow(non_snake_case)]
pub fn H(B: u32, C: u32, D: u32) -> (r: u32)
    ensures
        r == spec_h(B, C, D),
{
    B ^ C ^ D
}

#[allow(non_snake_case)]
pub fn I(B: u32, C: u32, D: u32) -> (r: u32)
    ensures
        r == spec_i(B, C, D),
{
    C ^ (B | !D)
}

} // verus!
