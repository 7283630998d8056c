//! Little-endian byte layout of the integers found in instruction bytecode.

use vstd::prelude::*;

verus! {

/// The four little-endian bytes of `x`.
pub open spec fn le_bytes_u32(x: u32) -> Seq<u8> {
    seq![(x & 0xff) as u8, ((x >> 8) & 0xff) as u8, ((x >> 16) & 0xff) as u8, ((x >> 24) & 0xff) as u8]
}

/// The two little-endian bytes of `x`.
pub open spec fn le_bytes_u16(x: u16) -> Seq<u8> {
    seq![(x & 0xff) as u8, ((x >> 8) & 0xff) as u8]
}

/// The number whose little-endian bytes are `b0`, `b1`, `b2`, `b3`.
pub open spec fn u32_from_le(b0: u8, b1: u8, b2: u8, b3: u8) -> u32 {
    (b0 as u32) | ((b1 as u32) << 8) | ((b2 as u32) << 16) | ((b3 as u32) << 24)
}

/// The number whose little-endian bytes are `b0`, `b1`.
pub open spec fn u16_from_le(b0: u8, b1: u8) -> u16 {
    (b0 as u16) | ((b1 as u16) << 8)
}

/// The four little-endian bytes of `x`.
pub fn u32_to_le(x: u32) -> (r: [u8; 4])
    ensures
        r@ == le_bytes_u32(x),
{
    [(x & 0xff) as u8, ((x >> 8) & 0xff) as u8, ((x >> 16) & 0xff) as u8, ((x >> 24) & 0xff) as u8]
}

/// The two little-endian bytes of `x`.
pub fn u16_to_le(x: u16) -> (r: [u8; 2])
    ensures
        r@ == le_bytes_u16(x),
{
    [(x & 0xff) as u8, ((x >> 8) & 0xff) as u8]
}

/// The number whose little-endian bytes are given.
pub fn u32_of_le(b0: u8, b1: u8, b2: u8, b3: u8) -> (r: u32)
    ensures
        r == u32_from_le(b0, b1, b2, b3),
{
    (b0 as u32) | ((b1 as u32) << 8) | ((b2 as u32) << 16) | ((b3 as u32) << 24)
}

/// The number whose little-endian bytes are given.
pub fn u16_of_le(b0: u8, b1: u8) -> (r: u16)
    ensures
        r == u16_from_le(b0, b1),
{
    (b0 as u16) | ((b1 as u16) << 8)
}

/// Reading back the four bytes of `x` gives `x`.
pub proof fn lemma_u32_le_roundtrip(x: u32)
    ensures
        u32_from_le(le_bytes_u32(x)[0], le_bytes_u32(x)[1], le_bytes_u32(x)[2], le_bytes_u32(x)[3]) == x,
{
    assert((((x & 0xff) as u8) as u32) | (((((x >> 8u32) & 0xff) as u8) as u32) << 8u32)
        | (((((x >> 16u32) & 0xff) as u8) as u32) << 16u32) | (((((x >> 24u32) & 0xff) as u8) as u32)
        << 24u32) == x) by (bit_vector);
}

/// Reading back the low three bytes of `x`, with a zero high byte, gives `x`
/// when `x` fits in 24 bits.
pub proof fn lemma_u24_le_roundtrip(x: u32)
    requires
        x < 0x100_0000,
    ensures
        u32_from_le(le_bytes_u32(x)[0], le_bytes_u32(x)[1], le_bytes_u32(x)[2], 0) == x,
{
    assert(x < 0x100_0000 ==> (((x & 0xff) as u8) as u32) | (((((x >> 8u32) & 0xff) as u8)
        as u32) << 8u32) | (((((x >> 16u32) & 0xff) as u8) as u32) << 16u32) | ((0u8 as u32)
        << 24u32) == x) by (bit_vector);
}

/// Reading back the two bytes of `x` gives `x`.
pub proof fn lemma_u16_le_roundtrip(x: u16)
    ensures
        u16_from_le(le_bytes_u16(x)[0], le_bytes_u16(x)[1]) == x,
{
    assert(((x & 0xff) as u8 as u16) | (((((x >> 8u16) & 0xff) as u8) as u16) << 8u16) == x)
        by (bit_vector);
}

/// A signed number survives the trip through its unsigned bit pattern.
pub proof fn lemma_i32_bits_roundtrip(v: i32)
    ensures
        (v as u32) as i32 == v,
{
    assert((v as u32) as i32 == v) by (bit_vector);
}


/// The two bytes of `x`, least significant first, are `x % 256` and `x / 256`.
pub proof fn lemma_le_bytes_u16_value(x: u16)
    ensures
        le_bytes_u16(x) == seq![(x % 256) as u8, (x / 256) as u8],
{
    assert((x & 0xff) as u8 == (x % 256) as u8 && ((x >> 8u16) & 0xff) as u8 == (x / 256) as u8) by (bit_vector);
    assert(le_bytes_u16(x) =~= seq![(x % 256) as u8, (x / 256) as u8]);
}

/// The four bytes of `x`, least significant first, are its base-256 digits.
pub proof fn lemma_le_bytes_u32_value(x: u32)
    ensures
        le_bytes_u32(x) == seq![
            (x % 256) as u8,
            ((x / 256) % 256) as u8,
            ((x / 65536) % 256) as u8,
            (x / 16777216) as u8,
        ],
{
    assert((x & 0xff) as u8 == (x % 256) as u8 && ((x >> 8u32) & 0xff) as u8 == ((x / 256) % 256) as u8 && ((x
        >> 16u32) & 0xff) as u8 == ((x / 65536) % 256) as u8 && ((x >> 24u32) & 0xff) as u8 == (x / 16777216)
        as u8) by (bit_vector);
    assert(le_bytes_u32(x) =~= seq![
        (x % 256) as u8,
        ((x / 256) % 256) as u8,
        ((x / 65536) % 256) as u8,
        (x / 16777216) as u8,
    ]);
}

/// The number whose little-endian bytes are `b0`, `b1` is `b0 + 256 * b1`.
pub proof fn lemma_u16_from_le_value(b0: u8, b1: u8)
    ensures
        u16_from_le(b0, b1) == b0 + 256 * b1,
{
    assert(((b0 as u16) | ((b1 as u16) << 8u16)) as int == b0 as int + 256 * (b1 as int)) by (bit_vector);
}

/// The number whose little-endian bytes are `b0` to `b3` is
/// `b0 + 256 * b1 + 65536 * b2 + 16777216 * b3`.
pub proof fn lemma_u32_from_le_value(b0: u8, b1: u8, b2: u8, b3: u8)
    ensures
        u32_from_le(b0, b1, b2, b3) == b0 + 256 * b1 + 65536 * b2 + 16777216 * b3,
{
    assert(((b0 as u32) | ((b1 as u32) << 8u32) | ((b2 as u32) << 16u32) | ((b3 as u32) << 24u32)) as int
        == b0 as int + 256 * (b1 as int) + 65536 * (b2 as int) + 16777216 * (b3 as int)) by (bit_vector);
}

} // verus!
