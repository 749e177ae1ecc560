//! Little-endian encoding of the integers that make up the hardware tables.

use vstd::prelude::*;

verus! {

/// The bytes of `x`, least significant first.
pub open spec fn u16_le(x: u16) -> Seq<u8> {
    seq![(x % 256) as u8, (x / 256) as u8]
}

/// The bytes of `x`, least significant first.
pub open spec fn u32_le(x: u32) -> Seq<u8> {
    seq![
        (x % 256) as u8,
        (x / 0x100 % 256) as u8,
        (x / 0x1_0000 % 256) as u8,
        (x / 0x100_0000) as u8,
    ]
}

/// The bytes of `x`, least significant first.
pub open spec fn u64_le(x: u64) -> Seq<u8> {
    seq![
        (x % 256) as u8,
        (x / 0x100 % 256) as u8,
        (x / 0x1_0000 % 256) as u8,
        (x / 0x100_0000 % 256) as u8,
        (x / 0x1_0000_0000 % 256) as u8,
        (x / 0x100_0000_0000 % 256) as u8,
        (x / 0x1_0000_0000_0000 % 256) as u8,
        (x / 0x100_0000_0000_0000) as u8,
    ]
}

/// Encodes `x` in two bytes, least significant first.
pub fn u16_to_le(x: u16) -> (b: [u8; 2])
    ensures
        b@ == u16_le(x),
{
    assert(x & 0xff == x % 256 && x >> 8 == x / 256) by (bit_vector);
    let b: [u8; 2] = [(x & 0xff) as u8, (x >> 8) as u8];
    assert(b@ =~= u16_le(x));
    b
}

/// Encodes `x` in four bytes, least significant first.
pub fn u32_to_le(x: u32) -> (b: [u8; 4])
    ensures
        b@ == u32_le(x),
{
    assert(x & 0xff == x % 256 && (x >> 8) & 0xff == x / 0x100 % 256 && (x >> 16) & 0xff == x
        / 0x1_0000 % 256 && x >> 24 == x / 0x100_0000) by (bit_vector);
    let b: [u8; 4] = [
        (x & 0xff) as u8,
        ((x >> 8) & 0xff) as u8,
        ((x >> 16) & 0xff) as u8,
        (x >> 24) as u8,
    ];
    assert(b@ =~= u32_le(x));
    b
}

/// Encodes `x` in eight bytes, least significant first.
pub fn u64_to_le(x: u64) -> (b: [u8; 8])
    ensures
        b@ == u64_le(x),
{
    assert(x & 0xff == x % 256 && (x >> 8) & 0xff == x / 0x100 % 256 && (x >> 16) & 0xff == x
        / 0x1_0000 % 256 && (x >> 24) & 0xff == x / 0x100_0000 % 256 && (x >> 32) & 0xff == x
        / 0x1_0000_0000 % 256 && (x >> 40) & 0xff == x / 0x100_0000_0000 % 256 && (x >> 48) & 0xff
        == x / 0x1_0000_0000_0000 % 256 && x >> 56 == x / 0x100_0000_0000_0000) by (bit_vector);
    let b: [u8; 8] = [
        (x & 0xff) as u8,
        ((x >> 8) & 0xff) as u8,
        ((x >> 16) & 0xff) as u8,
        ((x >> 24) & 0xff) as u8,
        ((x >> 32) & 0xff) as u8,
        ((x >> 40) & 0xff) as u8,
        ((x >> 48) & 0xff) as u8,
        (x >> 56) as u8,
    ];
    assert(b@ =~= u64_le(x));
    b
}

} // verus!
