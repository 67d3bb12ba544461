//! Decomposition descriptors and their encoding in 64-bit table words.
//!
//! A packed codepoint holds a combining class in its low byte and a scalar
//! value above it. The low byte of a word is its marker:
//!
//! | word | descriptor | layout above the marker |
//! |---|---|---|
//! | zero | starter without decomposition | none |
//! | marker 1 | nonstarter | combining class in bits 8 to 15 |
//! | marker 2 | pair | scalar value of the first in bits 8 to 31, the second packed in bits 32 to 63 |
//! | marker 3 | singleton | packed codepoint in bits 8 to 39 |
//! | marker 4 | expansion | count in bits 8 to 15, index in bits 16 to 31 |
//! | marker 5 | Hangul syllable | none |
//! | any other | triple | see below |
//!
//! A triple has no marker of its own. Its first codepoint is a starter
//! whose scalar value, of at most sixteen bits, fills bits 0 to 15; the
//! second and the third are packed with scalar values of sixteen bits, in
//! bits 16 to 39 and 40 to 63. A decomposition into three that does not fit
//! this layout, or whose first scalar value would read as one of the
//! markers, is stored as an expansion.
use vstd::prelude::*;
use crate::bits::lemma_u64_fields;
use crate::codepoint::Codepoint;

verus! {

/// Marker of a nonstarter without decomposition.
pub const MARKER_NONSTARTER: u8 = 1;

/// Marker of a decomposition into two scalars.
pub const MARKER_PAIR: u8 = 2;

/// Marker of a decomposition into one other starter.
pub const MARKER_SINGLETON: u8 = 3;

/// Marker of a decomposition stored out of line.
pub const MARKER_EXPANSION: u8 = 4;

/// Marker of a precomposed Hangul syllable.
pub const MARKER_HANGUL: u8 = 5;

/// What the tables say about one scalar value.
pub enum DecompositionValue {
    /// A starter without decomposition: the zero word.
    Starter,
    /// A nonstarter without decomposition, with its combining class.
    Nonstarter(u8),
    /// A decomposition into a single other codepoint.
    Singleton(Codepoint),
    /// A decomposition into two codepoints, the first a starter.
    Pair(Codepoint, Codepoint),
    /// A decomposition into three codepoints, the first a starter.
    Triple(Codepoint, Codepoint, Codepoint),
    /// A decomposition of `count` codepoints that starts at `index` in the
    /// table of expansions.
    Expansion(u16, u8),
    /// A precomposed Hangul syllable, decomposed by arithmetic.
    Hangul,
}

/// The descriptor that a table word stands for.
pub open spec fn spec_parse_data_value(value: u64) -> DecompositionValue {
    let marker = value % 0x100;
    if value == 0 {
        DecompositionValue::Starter
    } else if marker == MARKER_NONSTARTER {
        DecompositionValue::Nonstarter((value / 0x100 % 0x100) as u8)
    } else if marker == MARKER_PAIR {
        DecompositionValue::Pair(
            Codepoint((value % 0x1_0000_0000 / 0x100 * 0x100) as u32),
            Codepoint((value / 0x1_0000_0000) as u32),
        )
    } else if marker == MARKER_SINGLETON {
        DecompositionValue::Singleton(Codepoint((value / 0x100 % 0x1_0000_0000) as u32))
    } else if marker == MARKER_EXPANSION {
        DecompositionValue::Expansion(
            (value / 0x1_0000 % 0x1_0000) as u16,
            (value / 0x100 % 0x100) as u8,
        )
    } else if marker == MARKER_HANGUL {
        DecompositionValue::Hangul
    } else {
        DecompositionValue::Triple(
            Codepoint((value % 0x1_0000 * 0x100) as u32),
            Codepoint((value / 0x1_0000 % 0x100_0000) as u32),
            Codepoint((value / 0x100_0000_0000) as u32),
        )
    }
}

/// The first codepoint of a pair or a triple is a starter by construction.
pub proof fn lemma_first_is_starter(value: u64)
    ensures
        match spec_parse_data_value(value) {
            DecompositionValue::Pair(c1, _) => c1.spec_is_starter(),
            DecompositionValue::Triple(c1, _, _) => c1.spec_is_starter(),
            _ => true,
        },
{
}

/// A nonstarter: its combining class stands above the marker.
fn parse_nonstarter(value: u64) -> (r: DecompositionValue)
    ensures
        r == DecompositionValue::Nonstarter((value / 0x100 % 0x100) as u8),
{
    proof {
        lemma_u64_fields(value);
    }
    DecompositionValue::Nonstarter(#[verifier::truncate] ((value >> 8) as u8))
}

/// A singleton: a packed codepoint stands above the marker.
fn parse_singleton(value: u64) -> (r: DecompositionValue)
    ensures
        r == DecompositionValue::Singleton(Codepoint((value / 0x100 % 0x1_0000_0000) as u32)),
{
    proof {
        lemma_u64_fields(value);
    }
    DecompositionValue::Singleton(
        Codepoint::from_baked(#[verifier::truncate] ((value >> 8) as u32)),
    )
}

/// A pair: the scalar value of a starter in the low half, a packed
/// codepoint in the high half.
fn parse_pair(value: u64) -> (r: DecompositionValue)
    ensures
        r == DecompositionValue::Pair(
            Codepoint((value % 0x1_0000_0000 / 0x100 * 0x100) as u32),
            Codepoint((value / 0x1_0000_0000) as u32),
        ),
{
    proof {
        lemma_u64_fields(value);
    }
    let low: u32 = #[verifier::truncate] (value as u32);
    DecompositionValue::Pair(
        Codepoint::from_baked(low & !0xFFu32),
        Codepoint::from_baked(#[verifier::truncate] ((value >> 32) as u32)),
    )
}

/// A triple of scalar values of sixteen bits: a starter, then two packed
/// codepoints.
fn parse_triple_16bit(value: u64) -> (r: DecompositionValue)
    ensures
        r == DecompositionValue::Triple(
            Codepoint((value % 0x1_0000 * 0x100) as u32),
            Codepoint((value / 0x1_0000 % 0x100_0000) as u32),
            Codepoint((value / 0x100_0000_0000) as u32),
        ),
{
    proof {
        lemma_u64_fields(value);
    }
    let first: u16 = #[verifier::truncate] (value as u16);
    let rest: u32 = #[verifier::truncate] ((value >> 8) as u32);
    DecompositionValue::Triple(
        Codepoint::from_baked((first as u32) << 8),
        Codepoint::from_baked(rest >> 8),
        Codepoint::from_baked(#[verifier::truncate] ((value >> 40) as u32)),
    )
}

/// An expansion: count and index stand above the marker.
fn parse_expansion(value: u64) -> (r: DecompositionValue)
    ensures
        r == DecompositionValue::Expansion(
            (value / 0x1_0000 % 0x1_0000) as u16,
            (value / 0x100 % 0x100) as u8,
        ),
{
    proof {
        lemma_u64_fields(value);
    }
    DecompositionValue::Expansion(
        #[verifier::truncate] ((value >> 16) as u16),
        #[verifier::truncate] ((value >> 8) as u8),
    )
}

/// Reads a table word.
pub fn parse_data_value(value: u64) -> (r: DecompositionValue)
    ensures
        r == spec_parse_data_value(value),
{
    proof {
        lemma_u64_fields(value);
    }
    if value == 0 {
        return DecompositionValue::Starter;
    }
    let marker: u8 = #[verifier::truncate] (value as u8);
    if marker == MARKER_PAIR {
        parse_pair(value)
    } else if marker == MARKER_NONSTARTER {
        parse_nonstarter(value)
    } else if marker == MARKER_SINGLETON {
        parse_singleton(value)
    } else if marker == MARKER_EXPANSION {
        parse_expansion(value)
    } else if marker == MARKER_HANGUL {
        DecompositionValue::Hangul
    } else {
        parse_triple_16bit(value)
    }
}

} // verus!
