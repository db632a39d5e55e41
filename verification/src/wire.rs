//! Wire encodings of the multi-byte integers that appear in 802.11 frames.
//!
//! Every multi-byte integer of the covered structures is little-endian,
//! except the protocol identifier of the LLC/SNAP header, the ethertype of an
//! Ethernet II frame and the length of an A-MSDU subframe header, which are
//! big-endian.

use vstd::prelude::*;

verus! {

/// The value carried by two little-endian bytes.
pub open spec fn u16_from_le(b0: u8, b1: u8) -> u16 {
    (b0 as u16) | ((b1 as u16) << 8)
}

/// The value carried by two big-endian bytes.
pub open spec fn u16_from_be(b0: u8, b1: u8) -> u16 {
    ((b0 as u16) << 8) | (b1 as u16)
}

/// The value carried by four little-endian bytes.
pub open spec fn u32_from_le(b0: u8, b1: u8, b2: u8, b3: u8) -> u32 {
    (b0 as u32) | ((b1 as u32) << 8) | ((b2 as u32) << 16) | ((b3 as u32) << 24)
}

/// The little-endian encoding of a 16-bit value.
pub open spec fn u16_le_bytes(x: u16) -> Seq<u8> {
    seq![(x & 0xff) as u8, ((x >> 8) & 0xff) as u8]
}

/// The big-endian encoding of a 16-bit value.
pub open spec fn u16_be_bytes(x: u16) -> Seq<u8> {
    seq![((x >> 8) & 0xff) as u8, (x & 0xff) as u8]
}

/// The little-endian encoding of a 32-bit value.
pub open spec fn u32_le_bytes(x: u32) -> Seq<u8> {
    seq![
        (x & 0xff) as u8,
        ((x >> 8) & 0xff) as u8,
        ((x >> 16) & 0xff) as u8,
        ((x >> 24) & 0xff) as u8,
    ]
}

/// The little-endian encoding of a 64-bit value.
pub open spec fn u64_le_bytes(x: u64) -> Seq<u8> {
    seq![
        (x & 0xff) as u8,
        ((x >> 8) & 0xff) as u8,
        ((x >> 16) & 0xff) as u8,
        ((x >> 24) & 0xff) as u8,
        ((x >> 32) & 0xff) as u8,
        ((x >> 40) & 0xff) as u8,
        ((x >> 48) & 0xff) as u8,
        ((x >> 56) & 0xff) as u8,
    ]
}

/// The value carried by eight little-endian bytes.
pub open spec fn u64_from_le(b: Seq<u8>) -> u64 {
    (b[0] as u64) | ((b[1] as u64) << 8) | ((b[2] as u64) << 16) | ((b[3] as u64) << 24)
        | ((b[4] as u64) << 32) | ((b[5] as u64) << 40) | ((b[6] as u64) << 48)
        | ((b[7] as u64) << 56)
}

/// Byte `i` of the little-endian encoding of a 128-bit value.
pub open spec fn u128_byte(x: u128, i: int) -> u8 {
    ((x >> (8 * i) as u128) & 0xff) as u8
}

/// The little-endian encoding of a 128-bit value, 16 bytes long.
pub open spec fn u128_le_bytes(x: u128) -> Seq<u8> {
    Seq::new(16, |i: int| u128_byte(x, i))
}

/// The value carried by sixteen little-endian bytes.
pub open spec fn u128_from_le(b: Seq<u8>) -> u128 {
    (b[0] as u128) | ((b[1] as u128) << 8) | ((b[2] as u128) << 16) | ((b[3] as u128) << 24)
        | ((b[4] as u128) << 32) | ((b[5] as u128) << 40) | ((b[6] as u128) << 48)
        | ((b[7] as u128) << 56) | ((b[8] as u128) << 64) | ((b[9] as u128) << 72)
        | ((b[10] as u128) << 80) | ((b[11] as u128) << 88) | ((b[12] as u128) << 96)
        | ((b[13] as u128) << 104) | ((b[14] as u128) << 112) | ((b[15] as u128) << 120)
}

/// Decoding the little-endian encoding of a 16-bit value restores it.
pub proof fn lemma_u16_le_roundtrip(x: u16)
    ensures
        u16_from_le(u16_le_bytes(x)[0], u16_le_bytes(x)[1]) == x,
{
    assert(((x & 0xff) as u8 as u16) | (((x >> 8) & 0xff) as u8 as u16) << 8 == x)
        by (bit_vector);
}

/// Decoding the big-endian encoding of a 16-bit value restores it.
pub proof fn lemma_u16_be_roundtrip(x: u16)
    ensures
        u16_from_be(u16_be_bytes(x)[0], u16_be_bytes(x)[1]) == x,
{
    assert(((((x >> 8) & 0xff) as u8 as u16) << 8) | ((x & 0xff) as u8 as u16) == x)
        by (bit_vector);
}

/// Decoding the little-endian encoding of a 32-bit value restores it.
pub proof fn lemma_u32_le_roundtrip(x: u32)
    ensures
        u32_from_le(
            u32_le_bytes(x)[0],
            u32_le_bytes(x)[1],
            u32_le_bytes(x)[2],
            u32_le_bytes(x)[3],
        ) == x,
{
    assert(((x & 0xff) as u8 as u32) | (((x >> 8) & 0xff) as u8 as u32) << 8
        | (((x >> 16) & 0xff) as u8 as u32) << 16 | (((x >> 24) & 0xff) as u8 as u32) << 24
        == x) by (bit_vector);
}

/// Decoding the little-endian encoding of a 64-bit value restores it.
pub proof fn lemma_u64_le_roundtrip(x: u64)
    ensures
        u64_from_le(u64_le_bytes(x)) == x,
{
    assert((x & 0xff) as u8 as u64 | (((x >> 8) & 0xff) as u8 as u64) << 8
        | (((x >> 16) & 0xff) as u8 as u64) << 16 | (((x >> 24) & 0xff) as u8 as u64) << 24
        | (((x >> 32) & 0xff) as u8 as u64) << 32 | (((x >> 40) & 0xff) as u8 as u64) << 40
        | (((x >> 48) & 0xff) as u8 as u64) << 48 | (((x >> 56) & 0xff) as u8 as u64) << 56
        == x) by (bit_vector);
}

/// Decoding the little-endian encoding of a 128-bit value restores it.
pub proof fn lemma_u128_le_roundtrip(x: u128)
    ensures
        u128_from_le(u128_le_bytes(x)) == x,
{
    assert(((x >> 0) & 0xff) as u8 as u128 | (((x >> 8) & 0xff) as u8 as u128) << 8
        | (((x >> 16) & 0xff) as u8 as u128) << 16 | (((x >> 24) & 0xff) as u8 as u128) << 24
        | (((x >> 32) & 0xff) as u8 as u128) << 32 | (((x >> 40) & 0xff) as u8 as u128) << 40
        | (((x >> 48) & 0xff) as u8 as u128) << 48 | (((x >> 56) & 0xff) as u8 as u128) << 56
        | (((x >> 64) & 0xff) as u8 as u128) << 64 | (((x >> 72) & 0xff) as u8 as u128) << 72
        | (((x >> 80) & 0xff) as u8 as u128) << 80 | (((x >> 88) & 0xff) as u8 as u128) << 88
        | (((x >> 96) & 0xff) as u8 as u128) << 96 | (((x >> 104) & 0xff) as u8 as u128) << 104
        | (((x >> 112) & 0xff) as u8 as u128) << 112 | (((x >> 120) & 0xff) as u8 as u128) << 120
        == x) by (bit_vector);
}

} // verus!
