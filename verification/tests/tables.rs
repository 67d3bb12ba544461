use unicode_decomposing::Codepoint;
use unicode_decomposing::DecomposingNormalizer;
use unicode_decomposing::DecompositionData;
use unicode_decomposing::DecompositionValue;

const HANGUL_FIRST_PAGE: usize = 0xAC00 >> 7;
const HANGUL_LAST_PAGE: usize = 0xD7A3 >> 7;
const PAGES: usize = (0x2FA1D >> 7) + 1;

/// Small tables: the first page is direct, the second page holds a few
/// entries of the Latin-1 block, one more block holds U+0300 to U+037F, and
/// two blocks mark the Hangul syllables.
fn small_tables() -> DecompositionData {
    let mut data = vec![0u64; 5 * 128];
    let mut index = vec![0u8; PAGES];
    // page 1: U+0080 to U+00FF
    index[1] = 1;
    // U+00E9 = 0065 0301
    data[128 + 0x69] = 2 | (0x65 << 8) | (230 << 32) | (0x0301 << 40);
    // U+00C5 = 0041 030A
    data[128 + 0x45] = 2 | (0x41 << 8) | (230 << 32) | (0x030A << 40);
    // U+00A0 = 0020
    data[128 + 0x20] = 3 | (0x20 << 16);
    // U+00BC = 0031 2044 0034, out of line
    data[128 + 0x3C] = 4 | (3 << 8) | (1 << 16);
    // page 6: U+0300 to U+037F
    index[6] = 2;
    for (code, ccc) in [(0x0300u64, 230u64), (0x0301, 230), (0x030A, 230), (0x0323, 220), (0x0331, 220)] {
        data[2 * 128 + (code as usize & 0x7F)] = 1 | (ccc << 8) | (code << 16);
    }
    // U+0344 = 0308 0301, both nonstarters, out of line
    data[2 * 128 + 0x44] = 4 | (2 << 8) | (4 << 16);
    data[2 * 128 + 0x08] = 1 | (230 << 8) | (0x0308 << 16);
    // Hangul
    for page in HANGUL_FIRST_PAGE..HANGUL_LAST_PAGE {
        index[page] = 3;
    }
    index[HANGUL_LAST_PAGE] = 4;
    for offset in 0..128 {
        data[3 * 128 + offset] = 5;
        if (HANGUL_LAST_PAGE << 7) + offset <= 0xD7A3 {
            data[4 * 128 + offset] = 5;
        }
    }
    let expansions = vec![
        0,
        0x31 << 8,
        0x2044 << 8,
        0x34 << 8,
        (0x0308 << 8) | 230,
        (0x0301 << 8) | 230,
    ];
    DecompositionData { index, data, expansions, continuous_block_end: 0x7F }
}

#[test]
fn small_tables_are_accepted() {
    assert!(small_tables().is_well_formed());
    assert!(DecomposingNormalizer::try_from_baked(small_tables()).is_some());
}

#[test]
fn small_tables_normalize() {
    let n = DecomposingNormalizer::from_baked(small_tables());
    assert_eq!(n.normalize("\u{00E9}"), "e\u{0301}");
    assert_eq!(unicode_decomposing::from_baked(small_tables()).normalize("\u{00E9}"), "e\u{0301}");
    assert_eq!(n.normalize("x\u{00C5}\u{0323}y"), "xA\u{0323}\u{030A}y");
    assert_eq!(n.normalize("\u{00A0}\u{00BC}"), " 1\u{2044}4");
    assert_eq!(n.normalize("a\u{0301}\u{0344}\u{0323}b"), "a\u{0323}\u{0301}\u{0308}\u{0301}b");
    assert_eq!(n.normalize("\u{D4DB}\u{AC00}"), "\u{1111}\u{1171}\u{11B6}\u{1100}\u{1161}");
    // not in these tables
    assert_eq!(n.normalize("\u{1E0B}\u{FB01}"), "\u{1E0B}\u{FB01}");
    let codepoints = n.normalize_u32("\u{00BC}\u{0344}");
    let words: Vec<u32> = codepoints.iter().map(|c| c.0).collect();
    assert_eq!(words, vec![0x3100, 0x204400, 0x3400, 0x0308E6, 0x0301E6]);
}

#[test]
fn words_of_small_tables() {
    let t = small_tables();
    assert_eq!(t.word(0x41), Some(0));
    assert_eq!(t.word(0xE9), Some(2 | (0x65 << 8) | (230 << 32) | (0x0301 << 40)));
    assert_eq!(t.word(0x0323), Some(1 | (220 << 8) | (0x0323 << 16)));
    assert_eq!(t.word(0xAC00), Some(5));
    assert_eq!(t.word(0xD7A3), Some(5));
    assert_eq!(t.word(0xD7A4), Some(0));
    assert_eq!(t.word(0x2FA1D), Some(0));
    assert_eq!(t.word(0x2FA1E), Some(0));
    assert_eq!(t.word(0x10FFFF), Some(0));
}

#[test]
fn tables_that_are_too_short_are_refused() {
    let mut t = small_tables();
    t.index.truncate(PAGES - 1);
    assert_eq!(t.word(0x2FA1D), None);
    assert!(!t.is_well_formed());
    assert!(DecomposingNormalizer::try_from_baked(t).is_none());
    let mut t = small_tables();
    t.data.truncate(4 * 128 + 10);
    assert_eq!(t.word(0xD7A3), None);
    assert!(!t.is_well_formed());
    let mut t = small_tables();
    t.continuous_block_end = 5 * 128;
    assert!(!t.is_well_formed());
    let empty = DecompositionData {
        index: Vec::new(),
        data: Vec::new(),
        expansions: Vec::new(),
        continuous_block_end: 0,
    };
    assert!(!empty.is_well_formed());
}

#[test]
fn ascii_with_a_word_is_refused() {
    let mut t = small_tables();
    t.data[0x41] = 3 | (0x42 << 16);
    assert!(!t.is_well_formed());
}

#[test]
fn nonstarter_of_class_zero_is_refused() {
    let mut t = small_tables();
    t.data[2 * 128 + 0x10] = 1 | (0x0310 << 16);
    assert!(!t.is_well_formed());
}

#[test]
fn hangul_marks_must_cover_the_syllables_exactly() {
    let mut t = small_tables();
    t.data[4 * 128 + 0x24] = 5;
    assert!(!t.is_well_formed());
    let mut t = small_tables();
    t.data[4 * 128 + 0x23] = 0;
    assert!(!t.is_well_formed());
    let mut t = small_tables();
    t.data[128 + 0x21] = 5;
    assert!(!t.is_well_formed());
}

#[test]
fn jamo_with_a_word_is_refused() {
    let mut t = small_tables();
    t.data.extend_from_slice(&[0u64; 128]);
    t.index[0x1100 >> 7] = 5;
    assert!(t.is_well_formed());
    t.data[5 * 128 + (0x1161 & 0x7F)] = 3 | (0x20 << 16);
    assert!(!t.is_well_formed());
}

#[test]
fn decomposition_that_decomposes_further_is_refused() {
    let mut t = small_tables();
    // U+00C9 = 00E9, which decomposes itself
    t.data[128 + 0x49] = 3 | (0xE9 << 16);
    assert!(!t.is_well_formed());
    let mut t = small_tables();
    // the mark of this pair has another class in the tables
    t.data[128 + 0x69] = 2 | (0x65 << 8) | (220 << 32) | (0x0301 << 40);
    assert!(!t.is_well_formed());
    let mut t = small_tables();
    // the second of this pair is given as a starter but is a nonstarter
    t.data[128 + 0x69] = 2 | (0x65 << 8) | (0x0301 << 40);
    assert!(!t.is_well_formed());
}

#[test]
fn singleton_to_a_nonstarter_is_refused() {
    let mut t = small_tables();
    t.data[2 * 128 + 0x40] = 3 | (230 << 8) | (0x0300 << 16);
    assert!(!t.is_well_formed());
}

#[test]
fn surrogate_in_a_decomposition_is_refused() {
    let mut t = small_tables();
    t.data[128 + 0x49] = 3 | (0xD800 << 16);
    assert!(!t.is_well_formed());
    let mut t = small_tables();
    t.data[128 + 0x49] = 3 | (0x110000 << 16);
    assert!(!t.is_well_formed());
}

#[test]
fn expansion_out_of_the_table_is_refused() {
    let mut t = small_tables();
    t.data[128 + 0x3C] = 4 | (3 << 8) | (4 << 16);
    assert!(!t.is_well_formed());
    let mut t = small_tables();
    t.data[128 + 0x3C] = 4 | (1 << 16);
    assert!(!t.is_well_formed());
    let mut t = small_tables();
    t.expansions = vec![0x31 << 8; 40];
    t.data[2 * 128 + 0x44] = 0;
    t.data[128 + 0x3C] = 4 | (19 << 8) | (1 << 16);
    assert!(!t.is_well_formed());
    t.data[128 + 0x3C] = 4 | (18 << 8) | (1 << 16);
    assert!(t.is_well_formed());
}

#[test]
fn expansion_with_an_unknown_element_is_refused() {
    let mut t = small_tables();
    t.expansions[2] = (0x2044 << 8) | 9;
    assert!(!t.is_well_formed());
}

#[test]
fn descriptors_of_small_tables() {
    let n = DecomposingNormalizer::from_baked(small_tables());
    assert!(matches!(n.decompose(0x41), DecompositionValue::Starter));
    assert!(matches!(n.decompose(0x10FFFF), DecompositionValue::Starter));
    assert!(matches!(n.decompose(0x0323), DecompositionValue::Nonstarter(220)));
    assert!(matches!(n.decompose(0xD7A3), DecompositionValue::Hangul));
    assert!(matches!(n.decompose(0xD7A4), DecompositionValue::Starter));
    assert!(matches!(n.decompose(0xBC), DecompositionValue::Expansion(1, 3)));
    match n.decompose(0xE9) {
        DecompositionValue::Pair(c1, c2) => {
            assert_eq!((c1.code(), c1.ccc()), (0x65, 0));
            assert_eq!((c2.code(), c2.ccc()), (0x0301, 230));
        },
        _ => panic!("pair"),
    }
    match n.decompose(0xA0) {
        DecompositionValue::Singleton(c1) => assert_eq!((c1.code(), c1.ccc()), (0x20, 0)),
        _ => panic!("singleton"),
    }
}

#[test]
fn descriptors_of_the_baked_tables() {
    let nfd = DecomposingNormalizer::new_nfd();
    let nfkd = DecomposingNormalizer::new_nfkd();
    // U+1EBF = 0065 0302 0301
    match nfd.decompose(0x1EBF) {
        DecompositionValue::Triple(c1, c2, c3) => {
            assert_eq!((c1.code(), c2.code(), c3.code()), (0x65, 0x0302, 0x0301));
            assert_eq!((c1.ccc(), c2.ccc(), c3.ccc()), (0, 230, 230));
        },
        _ => panic!("triple"),
    }
    // U+0340 = 0300, a nonstarter: stored out of line
    assert!(matches!(nfd.decompose(0x0340), DecompositionValue::Expansion(_, 1)));
    // U+2126 = 03A9
    assert!(matches!(nfd.decompose(0x2126), DecompositionValue::Singleton(_)));
    assert!(matches!(nfd.decompose(0xFB01), DecompositionValue::Starter));
    assert!(matches!(nfkd.decompose(0xFB01), DecompositionValue::Pair(_, _)));
    assert!(matches!(nfkd.decompose(0xFDFA), DecompositionValue::Expansion(_, 18)));
    assert!(matches!(nfd.decompose(0xAC00), DecompositionValue::Hangul));
    assert!(matches!(nfd.decompose(0x0301), DecompositionValue::Nonstarter(230)));
}

#[test]
fn dispatch_of_single_words() {
    let n = DecomposingNormalizer::new_nfd();
    let mut result = String::from("x");
    let mut buffer = vec![Codepoint::from_code_and_ccc(0x0301, 230)];
    // U+1E0B = 0064 0307: the starter flushes the buffer, the mark waits
    let word = n.get_decomposition_value(0x1E0B);
    assert_eq!(word, 2 | (0x64 << 8) | (230 << 32) | (0x0307 << 40));
    n.handle_decomposition_value(word, 0x1E0B, &mut result, &mut buffer);
    assert_eq!(result, "x\u{0301}d");
    assert_eq!(buffer.iter().map(|c| c.0).collect::<Vec<u32>>(), vec![0x0307E6]);
    // a nonstarter waits behind it
    let word = n.get_decomposition_value(0x0323);
    n.handle_decomposition_value(word, 0x0323, &mut result, &mut buffer);
    assert_eq!(result, "x\u{0301}d");
    assert_eq!(buffer.iter().map(|c| c.0).collect::<Vec<u32>>(), vec![0x0307E6, 0x0323DC]);
    // a character with the zero word flushes the buffer and is written
    assert_eq!(n.get_decomposition_value(0x7A), 0);
    n.handle_decomposition_value(0, 0x7A, &mut result, &mut buffer);
    assert_eq!(result, "x\u{0301}d\u{0323}\u{0307}z");
    assert!(buffer.is_empty());
    assert_eq!(n.get_decomposition_value(0x110000 - 1), 0);
}

#[test]
fn dispatch_of_single_words_to_codepoints() {
    let n = DecomposingNormalizer::new_nfkd();
    let mut result = vec![Codepoint::from_code(0x78)];
    let mut buffer = vec![Codepoint::from_code_and_ccc(0x0301, 230)];
    let word = n.get_decomposition_value(0xFB01);
    n.handle_decomposition_value_u32(word, 0xFB01, &mut result, &mut buffer);
    assert_eq!(result.iter().map(|c| c.0).collect::<Vec<u32>>(), vec![0x7800, 0x0301E6, 0x6600, 0x6900]);
    assert!(buffer.is_empty());
    let word = n.get_decomposition_value(0xFDFA);
    n.handle_decomposition_value_u32(word, 0xFDFA, &mut result, &mut buffer);
    assert_eq!(result.len(), 4 + 18);
    assert!(buffer.is_empty());
}

#[test]
fn fast_forward_stops_at_the_first_changing_character() {
    let n = DecomposingNormalizer::new_nfd();
    let text = "ab\u{4E2D}\u{00E9}cd";
    let mut iter = unicode_decomposing::CharsIter::new(text);
    let mut result = String::from(">");
    let entry = n.fast_forward(&mut iter, &mut result);
    assert_eq!(entry, Some((n.get_decomposition_value(0xE9), 0xE9)));
    assert_eq!(result, ">ab\u{4E2D}");
    iter.set_breakpoint();
    let entry = n.fast_forward(&mut iter, &mut result);
    assert_eq!(entry, None);
    assert_eq!(result, ">ab\u{4E2D}cd");
    assert!(iter.is_empty());
    // a changing character at the breakpoint: nothing is copied
    let mut iter = unicode_decomposing::CharsIter::new("\u{0301}x");
    let mut result = String::new();
    let entry = n.fast_forward(&mut iter, &mut result);
    assert_eq!(entry, Some((n.get_decomposition_value(0x0301), 0x0301)));
    assert_eq!(result, "");
}

#[test]
fn forward_hands_out_or_flushes() {
    let n = DecomposingNormalizer::new_nfd();
    let marks = || vec![Codepoint::from_code_and_ccc(0x0301, 230), Codepoint::from_code_and_ccc(0x0323, 220)];
    // the next character has a word: it is handed out, nothing else changes
    let mut iter = unicode_decomposing::CharsIter::new("\u{0307}x");
    let mut result = String::from("a");
    let mut buffer = marks();
    let entry = n.forward(&mut iter, &mut result, &mut buffer);
    assert_eq!(entry, Some((n.get_decomposition_value(0x0307), 0x0307)));
    assert_eq!(result, "a");
    assert_eq!(buffer.len(), 2);
    // the next character has the zero word: the buffer is flushed, the
    // character is left to the fast-forward phase
    let entry = n.forward(&mut iter, &mut result, &mut buffer);
    assert_eq!(entry, None);
    assert_eq!(result, "a\u{0323}\u{0301}");
    assert!(buffer.is_empty());
    assert!(iter.is_empty());
    assert_eq!(iter.ending_slice(), "x");
    assert_eq!(n.fast_forward(&mut iter, &mut result), None);
    assert_eq!(result, "a\u{0323}\u{0301}x");
    // at the end of the text the buffer is flushed
    let mut buffer = marks();
    let mut result = String::new();
    assert_eq!(n.forward(&mut iter, &mut result, &mut buffer), None);
    assert_eq!(result, "\u{0323}\u{0301}");
    assert!(buffer.is_empty());
}

#[test]
fn forward_and_fast_forward_to_codepoints() {
    let n = DecomposingNormalizer::new_nfd();
    let mut iter = unicode_decomposing::CharsIter::new("ab\u{00E9}c");
    let mut result = Vec::new();
    let entry = n.fast_forward_u32(&mut iter, &mut result);
    assert_eq!(entry, Some((n.get_decomposition_value(0xE9), 0xE9)));
    assert_eq!(result.iter().map(|c| c.0).collect::<Vec<u32>>(), vec![0x6100, 0x6200]);
    let mut buffer = vec![Codepoint::from_code_and_ccc(0x0301, 230), Codepoint::from_code_and_ccc(0x0323, 220)];
    let entry = n.forward_u32(&mut iter, &mut result, &mut buffer);
    assert_eq!(entry, None);
    assert_eq!(
        result.iter().map(|c| c.0).collect::<Vec<u32>>(),
        vec![0x6100, 0x6200, 0x0323DC, 0x0301E6, 0x6300]
    );
    assert!(buffer.is_empty());
    assert_eq!(n.fast_forward_u32(&mut iter, &mut result), None);
    assert_eq!(result.len(), 5);
    let mut buffer = vec![Codepoint::from_code_and_ccc(0x0301, 230)];
    assert_eq!(n.forward_u32(&mut iter, &mut result, &mut buffer), None);
    assert_eq!(result.len(), 6);
    let mut iter = unicode_decomposing::CharsIter::new("\u{0307}");
    let entry = n.forward_u32(&mut iter, &mut result, &mut buffer);
    assert_eq!(entry, Some((n.get_decomposition_value(0x0307), 0x0307)));
    assert_eq!(result.len(), 6);
}
