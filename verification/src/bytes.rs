use vstd::arithmetic::div_mod::{lemma_fundamental_div_mod, lemma_mod_breakdown};
use vstd::prelude::*;

verus! {

/// The value of a 16-bit field stored big-endian as the bytes `b0 b1`.
pub open spec fn be16(b0: u8, b1: u8) -> int {
    b0 * 0x100 + b1
}

/// The value of a 32-bit field stored big-endian as the bytes `b0 b1 b2 b3`.
pub open spec fn be32(b0: u8, b1: u8, b2: u8, b3: u8) -> int {
    b0 * 0x1000000 + b1 * 0x10000 + b2 * 0x100 + b3
}

/// High byte of the big-endian encoding of `v`.
pub open spec fn be16_b0(v: u16) -> u8 {
    (v / 0x100) as u8
}

/// Low byte of the big-endian encoding of `v`.
pub open spec fn be16_b1(v: u16) -> u8 {
    (v % 0x100) as u8
}

pub open spec fn be32_b0(v: u32) -> u8 {
    (v / 0x1000000) as u8
}

pub open spec fn be32_b1(v: u32) -> u8 {
    ((v / 0x10000) % 0x100) as u8
}

pub open spec fn be32_b2(v: u32) -> u8 {
    ((v / 0x100) % 0x100) as u8
}

pub open spec fn be32_b3(v: u32) -> u8 {
    (v % 0x100) as u8
}

/// Big-endian byte-order conversion is its own inverse: decoding the two
/// bytes of the encoding of `v` yields `v` again.
pub proof fn lemma_be16_roundtrip(v: u16)
    ensures
        be16(be16_b0(v), be16_b1(v)) == v,
{
    lemma_fundamental_div_mod(v as int, 0x100);
}

/// Big-endian byte-order conversion is its own inverse: decoding the four
/// bytes of the encoding of `v` yields `v` again.
pub proof fn lemma_be32_roundtrip(v: u32)
    ensures
        be32(be32_b0(v), be32_b1(v), be32_b2(v), be32_b3(v)) == v,
{
    lemma_fundamental_div_mod(v as int, 0x1000000);
    lemma_mod_breakdown(v as int, 0x10000, 0x100);
    lemma_mod_breakdown(v as int, 0x100, 0x100);
}

} // verus!
