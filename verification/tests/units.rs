use unicode_decomposing::data::expand_into;
use unicode_decomposing::data::extend_from;
use unicode_decomposing::data::unfold_runs_into;
use unicode_decomposing::decompose_hangul;
use unicode_decomposing::decompose_hangul_syllable;
use unicode_decomposing::decompose_hangul_syllable_u32;
use unicode_decomposing::parse_data_value;
use unicode_decomposing::reader::get_utf8_sequence_width;
use unicode_decomposing::text::write_char;
use unicode_decomposing::text::write_str;
use unicode_decomposing::text::write_utf8;
use unicode_decomposing::CharsIter;
use unicode_decomposing::Codepoint;
use unicode_decomposing::DecompositionValue;

#[test]
fn codepoint_fields() {
    let c = Codepoint::from_code_and_ccc(0x0301, 230);
    assert_eq!(c.0, 0x0301E6);
    assert_eq!(c.code(), 0x0301);
    assert_eq!(c.ccc(), 230);
    assert!(c.is_nonstarter());
    assert!(!c.is_starter());
    let c = Codepoint::compose(0x10FFFF, 1);
    assert_eq!(c.0, 0x10FFFF01);
    assert_eq!((c.code(), c.ccc()), (0x10FFFF, 1));
    let c = Codepoint::from_code(0x41);
    assert_eq!(c.0, 0x4100);
    assert_eq!((c.code(), c.ccc()), (0x41, 0));
    assert!(c.is_starter());
    assert!(!c.is_nonstarter());
    let c = Codepoint::from_baked(0x0323DC);
    assert_eq!((c.code(), c.ccc()), (0x0323, 220));
}

#[test]
fn codepoint_keeps_twenty_four_bits_of_the_scalar_value() {
    let c = Codepoint::from_code_and_ccc(0x0100_0041, 7);
    assert_eq!(c.0, 0x4107);
    assert_eq!(Codepoint::from_code(0xFF00_0000).0, 0);
}

#[test]
fn descriptor_of_the_zero_word() {
    assert!(matches!(parse_data_value(0), DecompositionValue::Starter));
}

#[test]
fn descriptor_nonstarter() {
    match parse_data_value(1 | (230 << 8) | (0x0301 << 16)) {
        DecompositionValue::Nonstarter(ccc) => assert_eq!(ccc, 230),
        _ => panic!("nonstarter"),
    }
}

#[test]
fn descriptor_pair() {
    match parse_data_value(2 | (0x65 << 8) | (230 << 32) | (0x0301 << 40)) {
        DecompositionValue::Pair(c1, c2) => {
            assert_eq!((c1.code(), c1.ccc()), (0x65, 0));
            assert_eq!((c2.code(), c2.ccc()), (0x0301, 230));
        },
        _ => panic!("pair"),
    }
}

#[test]
fn descriptor_singleton() {
    match parse_data_value(3 | (0x03A9 << 16)) {
        DecompositionValue::Singleton(c1) => assert_eq!((c1.code(), c1.ccc()), (0x03A9, 0)),
        _ => panic!("singleton"),
    }
}

#[test]
fn descriptor_expansion() {
    match parse_data_value(4 | (18 << 8) | (0x0123 << 16)) {
        DecompositionValue::Expansion(index, count) => assert_eq!((index, count), (0x0123, 18)),
        _ => panic!("expansion"),
    }
}

#[test]
fn descriptor_hangul() {
    assert!(matches!(parse_data_value(5), DecompositionValue::Hangul));
}

#[test]
fn descriptor_triple() {
    // U+1EBF: 0065 0302 0301
    let word = 0x65 | (230 << 16) | (0x0302 << 24) | (230 << 40) | (0x0301 << 48);
    match parse_data_value(word) {
        DecompositionValue::Triple(c1, c2, c3) => {
            assert_eq!((c1.code(), c1.ccc()), (0x65, 0));
            assert_eq!((c2.code(), c2.ccc()), (0x0302, 230));
            assert_eq!((c3.code(), c3.ccc()), (0x0301, 230));
        },
        _ => panic!("triple"),
    }
    // a word whose low byte is zero and which is not zero is a triple too
    assert!(matches!(parse_data_value(0x0100), DecompositionValue::Triple(_, _, _)));
    assert!(matches!(parse_data_value(6), DecompositionValue::Triple(_, _, _)));
}

#[test]
fn hangul_by_scalar_values() {
    let mut s = String::from("x");
    decompose_hangul(&mut s, 0xAC00);
    assert_eq!(s, "x\u{1100}\u{1161}");
    let mut s = String::new();
    decompose_hangul(&mut s, 0xD4DB);
    assert_eq!(s, "\u{1111}\u{1171}\u{11B6}");
    let mut s = String::new();
    decompose_hangul(&mut s, 0xD7A3);
    assert_eq!(s, "\u{1112}\u{1175}\u{11C2}");
}

#[test]
fn hangul_by_bytes() {
    let mut s = String::from("x");
    decompose_hangul_syllable(&mut s, 0xAC00);
    assert_eq!(s, "x\u{1100}\u{1161}");
    let mut s = String::new();
    decompose_hangul_syllable(&mut s, 0xAC01);
    assert_eq!(s, "\u{1100}\u{1161}\u{11A8}");
    let mut s = String::new();
    decompose_hangul_syllable(&mut s, 0xD4DB);
    assert_eq!(s.as_bytes(), &[0xE1, 0x84, 0x91, 0xE1, 0x85, 0xB1, 0xE1, 0x86, 0xB6]);
}

#[test]
fn hangul_as_codepoints() {
    let mut v = vec![Codepoint::from_code(0x78)];
    decompose_hangul_syllable_u32(&mut v, 0xD4DB);
    let codes: Vec<u32> = v.iter().map(|c| c.0).collect();
    assert_eq!(codes, vec![0x7800, 0x111100, 0x117100, 0x11B600]);
    let mut v = Vec::new();
    decompose_hangul_syllable_u32(&mut v, 0xAC00);
    let codes: Vec<u32> = v.iter().map(|c| c.0).collect();
    assert_eq!(codes, vec![0x110000, 0x116100]);
}

#[test]
fn every_syllable_follows_the_formula() {
    for code in 0xAC00..=0xD7A3u32 {
        let index = code - 0xAC00;
        let l = 0x1100 + index / 588;
        let v = 0x1161 + (index % 588) / 28;
        let t = 0x11A7 + index % 28;
        let mut expected = String::new();
        expected.push(char::from_u32(l).unwrap());
        expected.push(char::from_u32(v).unwrap());
        if index % 28 != 0 {
            expected.push(char::from_u32(t).unwrap());
        }
        let mut by_values = String::new();
        decompose_hangul(&mut by_values, code);
        assert_eq!(by_values, expected, "U+{:04X}", code);
        let mut by_bytes = String::new();
        decompose_hangul_syllable(&mut by_bytes, code);
        assert_eq!(by_bytes, expected, "U+{:04X}", code);
        let mut codepoints = Vec::new();
        decompose_hangul_syllable_u32(&mut codepoints, code);
        let n = codepoints.len();
        assert!(n == 2 || n == 3);
        assert_eq!(n, expected.chars().count());
        assert!(codepoints.iter().all(|c| c.is_starter()));
    }
}

#[test]
fn sequence_widths() {
    assert_eq!(get_utf8_sequence_width(0x00), 1);
    assert_eq!(get_utf8_sequence_width(0x7F), 1);
    assert_eq!(get_utf8_sequence_width(0xC2), 2);
    assert_eq!(get_utf8_sequence_width(0xDF), 2);
    assert_eq!(get_utf8_sequence_width(0xE0), 3);
    assert_eq!(get_utf8_sequence_width(0xEF), 3);
    assert_eq!(get_utf8_sequence_width(0xF0), 4);
    assert_eq!(get_utf8_sequence_width(0xF4), 4);
}

#[test]
fn reader_decodes_every_width() {
    let text = "a\u{00E9}\u{20AC}\u{1F600}";
    let mut iter = CharsIter::new(text);
    assert!(!iter.is_empty());
    assert_eq!(iter.first_byte(), b'a');
    iter.skip_ascii();
    let first = iter.first_byte();
    assert_eq!(first, 0xC3);
    assert_eq!(iter.read_scalar(first), 0xE9);
    let first = iter.first_byte();
    assert_eq!(first, 0xE2);
    assert_eq!(iter.read_scalar(first), 0x20AC);
    let first = iter.first_byte();
    assert_eq!(first, 0xF0);
    assert_eq!(iter.read_scalar(first), 0x1F600);
    assert!(iter.is_empty());
}

#[test]
fn reader_decodes_the_ends_of_every_width() {
    for code in [0x80u32, 0x7FF, 0x800, 0xD7FF, 0xE000, 0xFFFF, 0x10000, 0x10FFFF] {
        let text = char::from_u32(code).unwrap().to_string();
        let mut iter = CharsIter::new(&text);
        let first = iter.first_byte();
        assert_eq!(iter.read_scalar(first), code);
        assert!(iter.is_empty());
    }
}

#[test]
fn reader_slices() {
    let text = "ab\u{00E9}cd\u{20AC}";
    let mut iter = CharsIter::new(text);
    iter.skip_ascii();
    iter.skip_ascii();
    let first = iter.first_byte();
    assert_eq!(iter.read_scalar(first), 0xE9);
    assert!(!iter.at_breakpoint(2));
    assert_eq!(iter.block_slice(2), "ab");
    assert_eq!(iter.block_slice(0), "ab\u{00E9}");
    assert_eq!(iter.ending_slice(), text);
    iter.set_breakpoint();
    assert!(iter.at_breakpoint(0));
    assert_eq!(iter.block_slice(0), "");
    assert_eq!(iter.ending_slice(), "cd\u{20AC}");
    iter.skip_ascii();
    iter.skip_ascii();
    let first = iter.first_byte();
    assert_eq!(iter.read_scalar(first), 0x20AC);
    assert_eq!(iter.block_slice(3), "cd");
    iter.set_breakpoint();
    let first_after = iter.is_empty();
    assert!(first_after);
    assert_eq!(iter.ending_slice(), "");
}

#[test]
fn reader_at_breakpoint_after_one_character() {
    let mut iter = CharsIter::new("\u{00E9}x");
    let first = iter.first_byte();
    iter.read_scalar(first);
    assert!(iter.at_breakpoint(2));
    assert_eq!(iter.block_slice(2), "");
}

#[test]
fn writing() {
    let mut s = String::from("a");
    write_char(&mut s, 0x1F600);
    unicode_decomposing::text::write(&mut s, Codepoint::from_code_and_ccc(0x0301, 230));
    write_str(&mut s, "xyz");
    write_utf8(&mut s, &[0xE2, 0x82, 0xAC]);
    write_utf8(&mut s, &[]);
    assert_eq!(s, "a\u{1F600}\u{0301}xyz\u{20AC}");
}

#[test]
fn packed_streams() {
    let mut v: Vec<u64> = vec![9];
    // three zeros and two words; no fill and one word; four fives
    let stream = [(3 << 16) | 2, 0xAAAA, 0xBBBB, 1, 0xCCCC, (5 << 32) | (4 << 16)];
    expand_into(&mut v, &stream);
    assert_eq!(v, vec![9, 0, 0, 0, 0xAAAA, 0xBBBB, 0xCCCC, 5, 5, 5, 5]);
    let mut v: Vec<u64> = Vec::new();
    expand_into(&mut v, &[]);
    assert!(v.is_empty());
}

#[test]
fn packed_stream_that_is_cut_short_ends_there() {
    let mut v: Vec<u64> = Vec::new();
    expand_into(&mut v, &[1, 7, (2 << 16) | 3, 8, 9]);
    assert_eq!(v, vec![7]);
}

#[test]
fn packed_runs() {
    let mut v: Vec<u8> = vec![1];
    unfold_runs_into(&mut v, &[(7 << 16) | 3, 0 << 16 | 2, (255 << 16) | 1, (9 << 16)]);
    assert_eq!(v, vec![1, 7, 7, 7, 0, 0, 255]);
}

#[test]
fn extending() {
    let mut v: Vec<u32> = vec![1, 2];
    extend_from(&mut v, &[3, 4, 5]);
    extend_from(&mut v, &[]);
    assert_eq!(v, vec![1, 2, 3, 4, 5]);
}

#[test]
fn groups_of_codepoints_as_text() {
    let names = vec!["pairs".to_string(), "singletons".to_string(), "none".to_string()];
    let members = vec![
        vec!["U+00E9\n".to_string(), "U+00C5\n".to_string()],
        vec!["U+2126\n".to_string()],
        Vec::new(),
    ];
    assert_eq!(
        unicode_decomposing::format_codepoint_groups(&names, &members),
        "pairs\n\nU+00E9\nU+00C5\n \nsingletons\n\nU+2126\n \nnone\n\n \n"
    );
    assert_eq!(unicode_decomposing::format_codepoint_groups(&Vec::new(), &Vec::new()), "");
}

#[test]
fn codepoint_conversions() {
    let c = Codepoint::from(0x0301E6u32);
    assert_eq!((c.code(), c.ccc()), (0x0301, 230));
    assert_eq!(u32::from(c), 0x0301E6);
    assert_eq!(c.to_char(), '\u{0301}');
    assert_eq!(Codepoint::from_code(0x1F600).to_char(), '\u{1F600}');
}
