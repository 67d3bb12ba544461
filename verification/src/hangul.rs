//! Arithmetic decomposition of precomposed Hangul syllables into jamo.
use vstd::prelude::*;
use vstd::utf8::*;
use crate::bits::lemma_leading_jamo_bytes;
use crate::bits::lemma_trailing_jamo_bytes;
use crate::bits::lemma_vowel_jamo_bytes;
use crate::codepoint::Codepoint;
use crate::text::scalars;
use crate::text::write_char;
use crate::text::write_utf8;

verus! {

/// First precomposed syllable.
pub const HANGUL_S_BASE: u32 = 0xAC00;

/// First leading consonant.
pub const HANGUL_L_BASE: u32 = 0x1100;

/// First vowel.
pub const HANGUL_V_BASE: u32 = 0x1161;

/// One below the first trailing consonant.
pub const HANGUL_T_BASE: u32 = 0x11A7;

/// Number of trailing consonants.
pub const HANGUL_T_COUNT: u32 = 27;

/// Number of syllables that share a leading consonant and a vowel.
pub const HANGUL_T_BLOCK_SIZE: u32 = HANGUL_T_COUNT + 1;

/// Number of syllables that share a leading consonant.
pub const HANGUL_N_COUNT: u32 = 588;

/// Number of precomposed syllables.
pub const HANGUL_S_COUNT: u32 = 11172;

/// The precomposed syllables are U+AC00 to U+D7A3.
pub open spec fn is_hangul_syllable(code: u32) -> bool {
    HANGUL_S_BASE <= code < HANGUL_S_BASE + HANGUL_S_COUNT
}

/// The syllable's leading consonant.
pub open spec fn hangul_l(code: u32) -> u32 {
    (HANGUL_L_BASE + (code - HANGUL_S_BASE) / (HANGUL_N_COUNT as int)) as u32
}

/// The syllable's vowel.
pub open spec fn hangul_v(code: u32) -> u32 {
    (HANGUL_V_BASE + (code - HANGUL_S_BASE) % (HANGUL_N_COUNT as int) / (
    HANGUL_T_BLOCK_SIZE as int)) as u32
}

/// The syllable's trailing consonant; `HANGUL_T_BASE` itself where it has none.
pub open spec fn hangul_t(code: u32) -> u32 {
    (HANGUL_T_BASE + (code - HANGUL_S_BASE) % (HANGUL_T_BLOCK_SIZE as int)) as u32
}

/// The jamo of a syllable: leading consonant and vowel, then the trailing
/// consonant if there is one. All of them are starters.
pub open spec fn hangul_decomposition(code: u32) -> Seq<Codepoint> {
    if hangul_t(code) == HANGUL_T_BASE {
        seq![Codepoint::starter(hangul_l(code)), Codepoint::starter(hangul_v(code))]
    } else {
        seq![
            Codepoint::starter(hangul_l(code)),
            Codepoint::starter(hangul_v(code)),
            Codepoint::starter(hangul_t(code)),
        ]
    }
}

/// The leading consonants, the vowels and the trailing consonants that
/// syllables decompose into.
pub open spec fn is_jamo(code: u32) -> bool {
    ||| 0x1100 <= code <= 0x1112
    ||| 0x1161 <= code <= 0x1175
    ||| 0x11A8 <= code <= 0x11C2
}

/// Every syllable decomposes into two or three jamo, each in its own block.
pub proof fn lemma_hangul_decomposition(code: u32)
    requires
        is_hangul_syllable(code),
    ensures
        2 <= hangul_decomposition(code).len() <= 3,
        0x1100 <= hangul_l(code) <= 0x1112,
        0x1161 <= hangul_v(code) <= 0x1175,
        hangul_decomposition(code).len() == 3 ==> 0x11A8 <= hangul_t(code) <= 0x11C2,
        hangul_decomposition(code).len() == 2 <==> (code - HANGUL_S_BASE) % 28 == 0,
        forall|i: int|
            0 <= i < hangul_decomposition(code).len() ==> {
                let c = #[trigger] hangul_decomposition(code)[i];
                &&& c.spec_is_starter()
                &&& is_jamo(c.spec_code())
                &&& is_scalar(c.spec_code())
            },
{
}

/// Appends the jamo of a syllable to a string.
pub fn decompose_hangul(result: &mut String, code: u32)
    requires
        is_hangul_syllable(code),
    ensures
        final(result)@ == old(result)@ + scalars(hangul_decomposition(code)),
{
    let lvt: u32 = code - HANGUL_S_BASE;
    let l: u32 = lvt / HANGUL_N_COUNT;
    let v: u32 = (lvt % HANGUL_N_COUNT) / HANGUL_T_BLOCK_SIZE;
    let t: u32 = lvt % HANGUL_T_BLOCK_SIZE;
    let c0: u32 = HANGUL_L_BASE + l;
    let c1: u32 = HANGUL_V_BASE + v;
    proof {
        lemma_hangul_decomposition(code);
    }
    write_char(result, c0);
    write_char(result, c1);
    if t != 0 {
        write_char(result, HANGUL_T_BASE + t);
    }
    proof {
        assert(final(result)@ =~= old(result)@ + scalars(hangul_decomposition(code)));
    }
}

/// The UTF-8 bytes of a jamo.
pub open spec fn jamo_bytes(code: u32) -> Seq<u8> {
    seq![
        leading_byte_width_3(code),
        second_last_continuation_byte(code),
        last_continuation_byte(code),
    ]
}

/// The bytes of two or three jamo are the UTF-8 encoding of the jamo.
pub proof fn lemma_jamo_encoding(code: u32)
    requires
        is_hangul_syllable(code),
    ensures
        hangul_decomposition(code).len() == 2 ==> encode_utf8(scalars(hangul_decomposition(code)))
            == jamo_bytes(hangul_l(code)) + jamo_bytes(hangul_v(code)),
        hangul_decomposition(code).len() == 3 ==> encode_utf8(scalars(hangul_decomposition(code)))
            == jamo_bytes(hangul_l(code)) + jamo_bytes(hangul_v(code)) + jamo_bytes(hangul_t(code)),
{
    lemma_hangul_decomposition(code);
    let chars = scalars(hangul_decomposition(code));
    let none = Seq::<u8>::empty();
    reveal_with_fuel(encode_utf8, 4);
    assert(chars[0] as u32 == hangul_l(code));
    assert(chars[1] as u32 == hangul_v(code));
    assert(chars.drop_first()[0] == chars[1]);
    if chars.len() == 2 {
        assert(chars.drop_first().drop_first() =~= Seq::<char>::empty());
        assert(jamo_bytes(hangul_l(code)) + (jamo_bytes(hangul_v(code)) + none) =~= jamo_bytes(
            hangul_l(code),
        ) + jamo_bytes(hangul_v(code)));
    } else {
        assert(chars[2] as u32 == hangul_t(code));
        assert(chars.drop_first().drop_first()[0] == chars[2]);
        assert(chars.drop_first().drop_first().drop_first() =~= Seq::<char>::empty());
        assert(jamo_bytes(hangul_l(code)) + (jamo_bytes(hangul_v(code)) + (jamo_bytes(
            hangul_t(code),
        ) + none)) =~= jamo_bytes(hangul_l(code)) + jamo_bytes(hangul_v(code)) + jamo_bytes(
            hangul_t(code),
        ));
    }
}

/// Appends the jamo of a syllable to a string, as UTF-8 bytes put together
/// from the three numbers of the syllable.
#[inline(never)]
pub fn decompose_hangul_syllable(result: &mut String, code: u32)
    requires
        is_hangul_syllable(code),
    ensures
        final(result)@ == old(result)@ + scalars(hangul_decomposition(code)),
{
    let lvt: u32 = code - HANGUL_S_BASE;
    let l: u8 = (lvt / HANGUL_N_COUNT) as u8;
    let v: u8 = ((lvt % HANGUL_N_COUNT) / HANGUL_T_BLOCK_SIZE) as u8;
    let t: u8 = (lvt % HANGUL_T_BLOCK_SIZE) as u8;
    let c0: u8 = 0x80 + l;
    let c1: u8 = 0xA1 + v;
    proof {
        lemma_jamo_encoding(code);
        lemma_leading_jamo_bytes(hangul_l(code), l);
        lemma_vowel_jamo_bytes(hangul_v(code), v);
        encode_utf8_valid_utf8(scalars(hangul_decomposition(code)));
        encode_utf8_decode_utf8(scalars(hangul_decomposition(code)));
    }
    if t == 0 {
        let bytes: [u8; 6] = [0xE1, 0x84, c0, 0xE1, 0x85, c1];
        proof {
            assert(bytes@ =~= jamo_bytes(hangul_l(code)) + jamo_bytes(hangul_v(code)));
        }
        write_utf8(result, &bytes);
    } else {
        let high: u8 = 0x07 + t;
        let low: u8 = 0xA7 + t;
        let c2: u8 = 0x86 | (high >> 5);
        let c3: u8 = 0x80 | (low & 0x3F);
        proof {
            lemma_trailing_jamo_bytes(hangul_t(code), t, high, low);
        }
        let bytes: [u8; 9] = [0xE1, 0x84, c0, 0xE1, 0x85, c1, 0xE1, c2, c3];
        proof {
            assert(bytes@ =~= jamo_bytes(hangul_l(code)) + jamo_bytes(hangul_v(code)) + jamo_bytes(
                hangul_t(code),
            ));
        }
        write_utf8(result, &bytes);
    }
}

/// Appends the jamo of a syllable to a sequence of codepoints.
pub fn decompose_hangul_syllable_u32(result: &mut Vec<Codepoint>, code: u32)
    requires
        is_hangul_syllable(code),
    ensures
        final(result)@ == old(result)@ + hangul_decomposition(code),
{
    let lvt: u32 = code - HANGUL_S_BASE;
    let l: u32 = lvt / HANGUL_N_COUNT;
    let v: u32 = (lvt % HANGUL_N_COUNT) / HANGUL_T_BLOCK_SIZE;
    let t: u32 = lvt % HANGUL_T_BLOCK_SIZE;
    let c0: u32 = HANGUL_L_BASE + l;
    let c1: u32 = HANGUL_V_BASE + v;
    result.push(Codepoint::from_code(c0));
    result.push(Codepoint::from_code(c1));
    if t != 0 {
        let c2: u32 = HANGUL_T_BASE + t;
        result.push(Codepoint::from_code(c2));
    }
    proof {
        assert(final(result)@ =~= old(result)@ + hangul_decomposition(code));
    }
}

} // verus!
