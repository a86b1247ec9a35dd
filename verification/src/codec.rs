//! Little-endian byte images of 32-bit values.
//!
//! The engine never interprets bytes, so interpretation lives here: these
//! functions map 32-bit values to the byte image a reinterpretation sees,
//! and back. A signed value is laid down as its two's-complement bits,
//! which is what makes the effect of a type change on a number statable:
//! the same four bytes read back as unsigned give the two's-complement
//! value, not the signed one.

use vstd::prelude::*;

verus! {

/// The value held by four little-endian bytes, read as unsigned.
pub open spec fn u32_of_le_bytes(s: Seq<u8>) -> int
    recommends
        s.len() == 4,
{
    s[0] + 256 * s[1] + 65536 * s[2] + 16777216 * s[3]
}

/// The four little-endian bytes of a 32-bit value.
pub open spec fn le_bytes_32(n: int) -> Seq<u8>
    recommends
        0 <= n < 0x1_0000_0000,
{
    seq![
        (n % 256) as u8,
        ((n / 256) % 256) as u8,
        ((n / 65536) % 256) as u8,
        ((n / 16777216) % 256) as u8,
    ]
}

/// The two's-complement bit value of a signed 32-bit number: the number
/// itself when it is non-negative, and the number plus 2^32 otherwise.
pub open spec fn unsigned_bits_of_i32(v: i32) -> int {
    if v >= 0 {
        v as int
    } else {
        v as int + 0x1_0000_0000
    }
}

/// Writes an unsigned 32-bit value as its four little-endian bytes.
pub fn encode_u32(n: u32) -> (r: Vec<u8>)
    ensures
        r@ == le_bytes_32(n as int),
{
    let mut v: Vec<u8> = Vec::new();
    v.push((n % 256) as u8);
    v.push(((n / 256) % 256) as u8);
    v.push(((n / 65536) % 256) as u8);
    v.push(((n / 16777216) % 256) as u8);
    proof {
        assert(v@ =~= le_bytes_32(n as int));
    }
    v
}

/// Writes a signed 32-bit value as the four little-endian bytes of its
/// two's-complement bits.
pub fn encode_i32(v: i32) -> (r: Vec<u8>)
    ensures
        r@ == le_bytes_32(unsigned_bits_of_i32(v)),
{
    let bits: u32 = if v >= 0 {
        v as u32
    } else {
        ((v as i64) + 0x1_0000_0000i64) as u32
    };
    proof {
        assert(bits as int == unsigned_bits_of_i32(v));
    }
    encode_u32(bits)
}

/// Reads four little-endian bytes back as an unsigned 32-bit value.
pub fn decode_u32(b: &[u8]) -> (r: u32)
    requires
        b@.len() == 4,
    ensures
        r as int == u32_of_le_bytes(b@),
{
    let b0 = b[0] as u32;
    let b1 = b[1] as u32;
    let b2 = b[2] as u32;
    let b3 = b[3] as u32;
    b0 + b1 * 256 + b2 * 65536 + b3 * 16777216
}

/// Law: writing a 32-bit value as little-endian bytes and reading the bytes
/// back as unsigned yields the value again.
pub proof fn lemma_le_bytes_32_roundtrip(n: int)
    requires
        0 <= n < 0x1_0000_0000,
    ensures
        u32_of_le_bytes(le_bytes_32(n)) == n,
{
    let m: u32 = n as u32;
    assert((m % 256) + 256 * ((m / 256) % 256) + 65536 * ((m / 65536) % 256) + 16777216 * ((m
        / 16777216) % 256) == m) by (bit_vector);
}

/// Law: bit-level numeric reinterpretation. The little-endian byte image of
/// a signed 32-bit value, read back as unsigned, gives its two's-complement
/// value: the value itself when non-negative, the value plus 2^32 when
/// negative. A container type change preserves exactly this byte image, so
/// it preserves the bit pattern, not the numeric value.
pub proof fn lemma_i32_reinterpreted_as_u32(v: i32)
    ensures
        u32_of_le_bytes(le_bytes_32(unsigned_bits_of_i32(v))) == unsigned_bits_of_i32(v),
        v >= 0 ==> u32_of_le_bytes(le_bytes_32(unsigned_bits_of_i32(v))) == v,
        v < 0 ==> u32_of_le_bytes(le_bytes_32(unsigned_bits_of_i32(v))) == v + 0x1_0000_0000,
{
    lemma_le_bytes_32_roundtrip(unsigned_bits_of_i32(v));
}

} // verus!
