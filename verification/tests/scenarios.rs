use unicode_decomposing::DecomposingNormalizer;

#[test]
fn baked_tables_are_well_formed() {
    assert!(unicode_decomposing::nfd().is_well_formed());
    assert!(unicode_decomposing::nfkd().is_well_formed());
    assert!(unicode_decomposing::try_new_nfd().is_some());
    assert!(unicode_decomposing::try_new_nfkd().is_some());
    assert_eq!(unicode_decomposing::nfd_normalizer().normalize("\u{00E9}"), "e\u{0301}");
    assert_eq!(unicode_decomposing::nfkd_normalizer().normalize("\u{FB01}"), "fi");
}

#[test]
fn baked_tables_have_the_expected_shape() {
    let nfd = unicode_decomposing::nfd();
    assert_eq!(nfd.continuous_block_end, 0xFFF);
    assert_eq!(nfd.index.len(), 0x5F5);
    assert_eq!(nfd.data.len() % 128, 0);
    assert_eq!(nfd.data.len(), 126 * 128);
    assert_eq!(nfd.data[0xE9], 2 | (0x65 << 8) | (230 << 32) | (0x0301 << 40));
    assert_eq!(nfd.data[0x301], 1 | (230 << 8) | (0x0301 << 16));
    let nfkd = unicode_decomposing::nfkd();
    assert_eq!(nfkd.continuous_block_end, 0xFFF);
    assert_eq!(nfkd.index.len(), 0x5F5);
    assert_eq!(nfkd.data.len(), 166 * 128);
    assert_eq!(nfkd.data[0xA0], 3 | (0x20 << 16));
}

#[test]
fn nfd_e_acute() {
    let nfd = DecomposingNormalizer::new_nfd();
    assert_eq!(nfd.normalize("\u{00E9}"), "\u{0065}\u{0301}");
}

#[test]
fn nfd_reorders_marks() {
    let nfd = DecomposingNormalizer::new_nfd();
    assert_eq!(nfd.normalize("\u{1E0B}\u{0323}"), "\u{0064}\u{0323}\u{0307}");
}

#[test]
fn nfd_keeps_ligature() {
    let nfd = DecomposingNormalizer::new_nfd();
    assert_eq!(nfd.normalize("\u{FB01}"), "\u{FB01}");
}

#[test]
fn nfkd_splits_ligature() {
    let nfkd = DecomposingNormalizer::new_nfkd();
    assert_eq!(nfkd.normalize("\u{FB01}"), "\u{0066}\u{0069}");
}

#[test]
fn nfd_hangul_two_jamo() {
    let nfd = DecomposingNormalizer::new_nfd();
    assert_eq!(nfd.normalize("\u{AC00}"), "\u{1100}\u{1161}");
}

#[test]
fn nfd_hangul_three_jamo() {
    let nfd = DecomposingNormalizer::new_nfd();
    assert_eq!(nfd.normalize("\u{D4DB}"), "\u{1111}\u{1171}\u{11B6}");
}

#[test]
fn nfd_e_circumflex_acute() {
    let nfd = DecomposingNormalizer::new_nfd();
    assert_eq!(nfd.normalize("\u{1EBF}"), "\u{0065}\u{0302}\u{0301}");
}

#[test]
fn empty_text() {
    let nfd = DecomposingNormalizer::new_nfd();
    assert_eq!(nfd.normalize(""), "");
    assert!(nfd.normalize_u32("").is_empty());
}

#[test]
fn ascii_is_left_alone() {
    let nfd = DecomposingNormalizer::new_nfd();
    let nfkd = DecomposingNormalizer::new_nfkd();
    let mut text = String::new();
    for code in 0..0x80u8 {
        text.push(code as char);
    }
    assert_eq!(nfd.normalize(&text), text);
    assert_eq!(nfkd.normalize(&text), text);
    assert_eq!(nfd.normalize("plain text, no marks"), "plain text, no marks");
}

#[test]
fn text_around_a_changed_character_is_copied() {
    let nfd = DecomposingNormalizer::new_nfd();
    assert_eq!(nfd.normalize("abc\u{00E9}def"), "abce\u{0301}def");
    assert_eq!(nfd.normalize("\u{00E9}def"), "e\u{0301}def");
    assert_eq!(nfd.normalize("abc\u{00E9}"), "abce\u{0301}");
    assert_eq!(nfd.normalize("\u{4E2D}\u{00E9}\u{6587}\u{1F600}"), "\u{4E2D}e\u{0301}\u{6587}\u{1F600}");
}

#[test]
fn marks_wait_for_the_next_starter() {
    let nfd = DecomposingNormalizer::new_nfd();
    // 230, 220 before a starter that needs no change
    assert_eq!(nfd.normalize("a\u{0301}\u{0323}b"), "a\u{0323}\u{0301}b");
    // the buffer is flushed at the end of the text
    assert_eq!(nfd.normalize("a\u{0301}\u{0323}"), "a\u{0323}\u{0301}");
    // marks from the text join marks from a decomposition
    assert_eq!(nfd.normalize("\u{00E9}\u{0323}"), "e\u{0323}\u{0301}");
    // a starter that changes flushes the buffer too
    assert_eq!(nfd.normalize("a\u{0301}\u{0323}\u{00E9}"), "a\u{0323}\u{0301}e\u{0301}");
    // marks at the very start
    assert_eq!(nfd.normalize("\u{0301}\u{0323}"), "\u{0323}\u{0301}");
}

#[test]
fn marks_of_equal_class_keep_their_order() {
    let nfd = DecomposingNormalizer::new_nfd();
    // 0301 and 0300 are both of class 230, 0323 and 0331 both of class 220
    assert_eq!(
        nfd.normalize("a\u{0301}\u{0323}\u{0300}\u{0331}b"),
        "a\u{0323}\u{0331}\u{0301}\u{0300}b"
    );
    assert_eq!(
        nfd.normalize("a\u{0300}\u{0331}\u{0301}\u{0323}b"),
        "a\u{0331}\u{0323}\u{0300}\u{0301}b"
    );
}

#[test]
fn output_is_canonically_ordered() {
    let nfkd = DecomposingNormalizer::new_nfkd();
    let text = "q\u{0307}\u{0323}\u{0301}\u{0328}\u{05AE}\u{0315}\u{1E0B}\u{0323}\u{FDFA}\u{0650}\u{0651}\u{064E}";
    let codepoints = nfkd.normalize_u32(text);
    for pair in codepoints.windows(2) {
        if pair[0].is_nonstarter() && pair[1].is_nonstarter() {
            assert!(pair[0].ccc() <= pair[1].ccc());
        }
    }
}

#[test]
fn normal_form_is_a_fixed_point() {
    let nfd = DecomposingNormalizer::new_nfd();
    let nfkd = DecomposingNormalizer::new_nfkd();
    let texts = [
        "Ti\u{1EBF}ng Vi\u{1EC7}t",
        "a\u{0315}\u{0300}\u{05AE}\u{0327}b",
        "\u{D55C}\u{AD6D}\u{C5B4}",
        "\u{FDFA}\u{FB01}\u{2460}",
        "\u{0344}\u{0F73}\u{0958}",
    ];
    for text in texts {
        let once = nfd.normalize(text);
        assert_eq!(nfd.normalize(&once), once);
        let once = nfkd.normalize(text);
        assert_eq!(nfkd.normalize(&once), once);
    }
}

#[test]
fn no_decomposition_is_longer_than_eighteen() {
    let nfkd = DecomposingNormalizer::new_nfkd();
    let nfd = DecomposingNormalizer::new_nfd();
    let mut longest = 0;
    let mut text = String::new();
    for code in 0..=0x30000u32 {
        if let Some(c) = char::from_u32(code) {
            text.clear();
            text.push(c);
            let n = nfkd.normalize_u32(&text).len();
            assert!(1 <= n && n <= 18, "U+{:04X}", code);
            longest = longest.max(n);
            let n = nfd.normalize_u32(&text).len();
            assert!(1 <= n && n <= 4, "U+{:04X}", code);
        }
    }
    assert_eq!(longest, 18);
    assert_eq!(nfkd.normalize("\u{FDFA}").chars().count(), 18);
}

#[test]
fn codepoints_carry_their_classes() {
    let nfd = DecomposingNormalizer::new_nfd();
    let codepoints = nfd.normalize_u32("\u{1E0B}\u{0323}x");
    let pairs: Vec<(u32, u8)> = codepoints.iter().map(|c| (c.code(), c.ccc())).collect();
    assert_eq!(pairs, vec![(0x64, 0), (0x323, 220), (0x307, 230), (0x78, 0)]);
}

#[test]
fn nothing_above_the_last_decomposing_scalar_value_changes() {
    let nfkd = DecomposingNormalizer::new_nfkd();
    assert_eq!(nfkd.normalize("\u{2FA1D}"), "\u{2A600}");
    assert_eq!(nfkd.normalize("\u{2FA1E}\u{30000}\u{E0100}\u{10FFFF}"), "\u{2FA1E}\u{30000}\u{E0100}\u{10FFFF}");
}
