//! Facts that tie the shifts, masks and truncating casts of the executable
//! code to the division and remainder used in specifications.
use vstd::prelude::*;

verus! {

/// Shifting a 32-bit word right by eight bits divides it by 256, and its low
/// byte is its remainder modulo 256.
pub proof fn lemma_u32_fields(x: u32)
    by (bit_vector)
    ensures
        x >> 8 == x / 256,
        x & 0xFF == x % 256,
        (x as u8) == x % 256,
{
}

/// Packing a 24-bit value above an 8-bit one is multiplication by 256 plus
/// the low byte; bits shifted out at the top are lost.
pub proof fn lemma_u32_pack(hi: u32, lo: u8)
    by (bit_vector)
    ensures
        (hi << 8) | (lo as u32) == (hi % 0x100_0000) * 256 + lo,
        hi << 8 == (hi % 0x100_0000) * 256,
{
}

/// The fields of a 64-bit descriptor word, read as digits in base 256.
pub proof fn lemma_u64_fields(v: u64)
    by (bit_vector)
    ensures
        (v as u8) == v % 0x100,
        ((v >> 8) as u8) == v / 0x100 % 0x100,
        ((v >> 16) as u16) == v / 0x1_0000 % 0x1_0000,
        ((v >> 8) as u32) == v / 0x100 % 0x1_0000_0000,
        ((v as u32) & !0xFFu32) == v % 0x1_0000_0000 / 0x100 * 0x100,
        ((v >> 32) as u32) == v / 0x1_0000_0000,
        (((v as u16) as u32) << 8) == v % 0x1_0000 * 0x100,
        (((v >> 8) as u32) >> 8) == v / 0x1_0000 % 0x100_0000,
        ((v >> 40) as u32) == v / 0x100_0000_0000,
{
}

/// How large the value assembled from the data bits of a UTF-8 sequence of
/// one, two or three bytes can be.
pub proof fn lemma_utf8_data_bits(b1: u8, b2: u8, b3: u8)
    by (bit_vector)
    ensures
        ((b1 & 0x7F) as u32) <= 0x7F,
        ((((b1 & 0x1F) as u32) << 6) | ((b2 & 0x3F) as u32)) <= 0x7FF,
        ((((b1 & 0x0F) as u32) << 12) | (((b2 & 0x3F) as u32) << 6) | ((b3 & 0x3F) as u32))
            <= 0xFFFF,
        (b1 == 0xC0 || b1 == 0xC1) ==> ((((b1 & 0x1F) as u32) << 6) | ((b2 & 0x3F) as u32)) < 0x80,
        b1 < 0x80 ==> ((b1 & 0x7F) as u32) == b1,
{
}

/// A scalar value splits into a page and an offset of seven bits, and a
/// block number and an offset join into a position.
pub proof fn lemma_page_fields(code: u32, block: u32)
    by (bit_vector)
    ensures
        code >> 7 == code / 128,
        code & 0x7F == code % 128,
        block < 256 ==> (block << 7) | (code & 0x7F) == block * 128 + code % 128,
{
}

/// The three fields of the header of a packed segment.
pub proof fn lemma_segment_fields(h: u64)
    by (bit_vector)
    ensures
        h & 0xFFFF == h % 0x1_0000,
        (h >> 16) & 0xFFFF == h / 0x1_0000 % 0x1_0000,
        h >> 32 == h / 0x1_0000_0000,
{
}

/// The two fields of a packed run.
pub proof fn lemma_run_fields(t: u32)
    by (bit_vector)
    ensures
        t & 0xFFFF == t % 0x1_0000,
        ((t >> 16) as u8) == t / 0x1_0000 % 0x100,
{
}

/// The UTF-8 bytes of the leading consonant number `l`, whose scalar
/// value is `code`.
pub proof fn lemma_leading_jamo_bytes(code: u32, l: u8)
    by (bit_vector)
    requires
        l <= 18,
        code == 0x1100 + l,
    ensures
        0xE0u8 | (((code >> 12) & 0x0F) as u8) == 0xE1u8,
        0x80u8 | (((code >> 6) & 0x3F) as u8) == 0x84u8,
        0x80u8 | ((code & 0x3F) as u8) == 0x80 + l,
{
}

/// The UTF-8 bytes of the vowel number `v`, whose scalar value is `code`.
pub proof fn lemma_vowel_jamo_bytes(code: u32, v: u8)
    by (bit_vector)
    requires
        v <= 20,
        code == 0x1161 + v,
    ensures
        0xE0u8 | (((code >> 12) & 0x0F) as u8) == 0xE1u8,
        0x80u8 | (((code >> 6) & 0x3F) as u8) == 0x85u8,
        0x80u8 | ((code & 0x3F) as u8) == 0xA1 + v,
{
}

/// The UTF-8 bytes of the trailing consonant number `t`, whose scalar
/// value is `code`; `high` and `low` are `t` plus 0x07 and plus 0xA7.
pub proof fn lemma_trailing_jamo_bytes(code: u32, t: u8, high: u8, low: u8)
    by (bit_vector)
    requires
        1 <= t <= 27,
        code == 0x11A7 + t,
        high == 0x07 + t,
        low == 0xA7 + t,
    ensures
        0xE0u8 | (((code >> 12) & 0x0F) as u8) == 0xE1u8,
        0x80u8 | (((code >> 6) & 0x3F) as u8) == 0x86u8 | (high >> 5),
        0x80u8 | ((code & 0x3F) as u8) == 0x80u8 | (low & 0x3F),
{
}

} // verus!
