//! Facts about bit fields of machine words: fields read by shifting and
//! masking are the digits of the value in base 2^8 or 2^16, and words
//! packed from smaller fields are their weighted sums.
use vstd::prelude::*;

verus! {

/// Bytes, half-words and single bits of a 32-bit word.
pub proof fn lemma_u32_fields(x: u32)
    by (bit_vector)
    ensures
        x & 0xFF == x % 0x100,
        (x >> 8u32) & 0xFF == (x / 0x100) % 0x100,
        (x >> 16u32) & 0xFF == (x / 0x1_0000) % 0x100,
        (x >> 24u32) & 0xFF == x / 0x100_0000,
        x >> 24u32 == x / 0x100_0000,
        (x >> 16u32) & 0xFFFF == x / 0x1_0000,
        (x >> 8u32) & 0x7FF == (x / 0x100) % 0x800,
        x & 0xFFFFFF == x % 0x100_0000,
        x & 0x1FFFF == x % 0x2_0000,
        (x & 0x01 != 0) == (x % 2 == 1),
        (x & 0x04 != 0) == ((x / 4) % 2 == 1),
        (x & 0x400 != 0) == ((x / 0x400) % 2 == 1),
        x | 0u32 == x,
{
}

/// A 32-bit word is the sum of its bytes.
pub proof fn lemma_u32_digits(x: u32)
    by (bit_vector)
    ensures
        (x / 0x100_0000) * 0x100_0000 + ((x / 0x1_0000) % 0x100) * 0x1_0000 + ((x / 0x100) % 0x100) * 0x100 + x % 0x100 == x,
{
}

/// Bytes and single bits of a 16-bit word.
pub proof fn lemma_u16_fields(x: u16)
    by (bit_vector)
    ensures
        x & 0xFF == x % 0x100,
        x >> 8u16 == x / 0x100,
        (x >> 8u16) & 0xFF == x / 0x100,
        (x & 2u16 != 0) == ((x / 2) % 2 == 1),
        (x & (1u16 << 10u16) != 0) == ((x / 0x400) % 2 == 1),
        (x / 0x100) * 0x100 + x % 0x100 == x,
{
}

/// Fields of a byte: low nibble, top bit, low two bits, and the parts of a
/// configuration-space offset.
pub proof fn lemma_u8_fields(x: u8)
    by (bit_vector)
    ensures
        x & 0x0F == x % 16,
        (x & 0x80 != 0) == (x >= 0x80),
        x & 0x03 == x % 4,
        (x & 0xFC) / 4 == x / 4,
        ((x & 0x03) as u32) * 8 == ((x % 4) * 8) as u32,
        ((x & 0x02) as u32) * 8 == (((x % 4) / 2) * 16) as u32,
{
}

/// Two half-words packed into a word.
pub proof fn lemma_pack_halves(lo: u32, hi: u32)
    by (bit_vector)
    requires
        lo < 0x1_0000,
        hi < 0x1_0000,
    ensures
        lo | (hi << 16u32) == lo + hi * 0x1_0000,
{
}

/// Bytes packed into a word, little- and big-endian, and two bytes into a
/// half-word.
pub proof fn lemma_pack_bytes(b0: u32, b1: u32, b2: u32, b3: u32)
    by (bit_vector)
    requires
        b0 < 0x100,
        b1 < 0x100,
        b2 < 0x100,
        b3 < 0x100,
    ensures
        b0 | (b1 << 8u32) | (b2 << 16u32) | (b3 << 24u32) == b0 + b1 * 0x100 + b2 * 0x1_0000 + b3 * 0x100_0000,
        (b0 << 24u32) | (b1 << 16u32) | (b2 << 8u32) | b3 == b0 * 0x100_0000 + b1 * 0x1_0000 + b2 * 0x100 + b3,
        b0 | (b1 << 8u32) == b0 + b1 * 0x100,
{
}

/// Two bytes packed into a half-word, high byte first.
pub proof fn lemma_pack_u16(hi: u16, lo: u16)
    by (bit_vector)
    requires
        hi < 0x100,
        lo < 0x100,
    ensures
        (hi << 8u16) | lo == hi * 0x100 + lo,
{
}

/// The halves of a 64-bit word, and a word rebuilt from its halves.
pub proof fn lemma_u64_halves(x: u64, lo: u64, hi: u64)
    by (bit_vector)
    requires
        lo < 0x1_0000_0000,
        hi < 0x1_0000_0000,
    ensures
        x as u32 == x % 0x1_0000_0000,
        (x >> 32u64) as u32 == x / 0x1_0000_0000,
        lo | (hi << 32u64) == lo + hi * 0x1_0000_0000,
        (hi << 32u64) | lo == hi * 0x1_0000_0000 + lo,
{
}

/// Half-words packed into a 64-bit word.
pub proof fn lemma_pack_u64_halfwords(a: u64, b: u64, c: u64, d: u64)
    by (bit_vector)
    requires
        a < 0x1_0000,
        b < 0x1_0000,
        c < 0x1_0000,
        d < 0x1_0000,
    ensures
        a | (b << 16u64) | (c << 32u64) | (d << 48u64) == a + b * 0x1_0000 + c * 0x1_0000_0000 + d * 0x1_0000_0000_0000,
        a | (b << 16u64) == a + b * 0x1_0000,
        (a << 16u64) | b == a * 0x1_0000 + b,
{
}

/// Shifts of bus, device and function numbers into an ECAM offset.
pub proof fn lemma_ecam_shifts(b: u64, d: u64, f: u64)
    by (bit_vector)
    requires
        b < 0x100,
        d < 0x100,
        f < 0x100,
    ensures
        b << 20u64 == b * 0x10_0000,
        d << 15u64 == d * 0x8000,
        f << 12u64 == f * 0x1000,
{
}

/// The complement of a non-zero mask is not all ones.
pub proof fn lemma_complement_below_max(m: u32)
    by (bit_vector)
    requires
        m != 0,
    ensures
        !m < 0xFFFF_FFFFu32,
{
}

} // verus!
