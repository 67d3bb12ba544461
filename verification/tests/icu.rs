use icu_normalizer::DecomposingNormalizer as icu;
use unicode_decomposing::Codepoint;
use unicode_decomposing::DecomposingNormalizer as my;

/// Texts in several scripts, composed and decomposed, with marks in and out
/// of canonical order.
fn texts() -> Vec<(&'static str, String)> {
    let mut texts: Vec<(&'static str, String)> = vec![
        ("empty", String::new()),
        ("ascii", "The quick brown fox jumps over the lazy dog. 0123456789 !?".to_string()),
        (
            "french",
            "Voix ambigu\u{00EB} d'un c\u{0153}ur qui au z\u{00E9}phyr pr\u{00E9}f\u{00E8}re les jattes de kiwis. \u{00C0} \u{00C7}a no\u{00EB}l!"
                .to_string(),
        ),
        (
            "german",
            "Falsches \u{00DC}ben von Xylophonmusik qu\u{00E4}lt jeden gr\u{00F6}\u{00DF}eren Zwerg".to_string(),
        ),
        (
            "vietnamese",
            "Ti\u{1EBF}ng Vi\u{1EC7}t l\u{00E0} ng\u{00F4}n ng\u{1EEF} c\u{1EE7}a ng\u{01B0}\u{1EDD}i Vi\u{1EC7}t, \u{0111}\u{01B0}\u{1EE3}c vi\u{1EBF}t b\u{1EB1}ng ch\u{1EEF} Qu\u{1ED1}c ng\u{1EEF}"
                .to_string(),
        ),
        (
            "vietnamese decomposed",
            "Tie\u{0302}\u{0301}ng Vie\u{0323}\u{0302}t la\u{0300} ngo\u{0302}n ngu\u{031B}\u{0303}".to_string(),
        ),
        (
            "greek",
            "\u{0386}\u{03BD}\u{03B8}\u{03C1}\u{03C9}\u{03C0}\u{03BF}\u{03C2} \u{1F04}\u{03BD}\u{03B8}\u{03C1}\u{03C9}\u{03C0}\u{03BF}\u{03C2} \u{1FB7} \u{1F82} \u{03D3} \u{0390}"
                .to_string(),
        ),
        (
            "russian",
            "\u{0421}\u{044A}\u{0435}\u{0448}\u{044C} \u{0436}\u{0435} \u{0435}\u{0449}\u{0451} \u{044D}\u{0442}\u{0438}\u{0445} \u{043C}\u{044F}\u{0433}\u{043A}\u{0438}\u{0445} \u{0444}\u{0440}\u{0430}\u{043D}\u{0446}\u{0443}\u{0437}\u{0441}\u{043A}\u{0438}\u{0445} \u{0431}\u{0443}\u{043B}\u{043E}\u{043A}, \u{0439}\u{043E}\u{0434}"
                .to_string(),
        ),
        (
            "korean",
            "\u{D55C}\u{AD6D}\u{C5B4}\u{B294} \u{B300}\u{D55C}\u{BBFC}\u{AD6D}\u{ACFC} \u{C870}\u{C120}\u{BBFC}\u{C8FC}\u{C8FC}\u{C758}\u{C778}\u{BBFC}\u{ACF5}\u{D654}\u{AD6D}\u{C758} \u{ACF5}\u{C6A9}\u{C5B4}\u{C774}\u{B2E4} \u{AC00}\u{D7A3}"
                .to_string(),
        ),
        (
            "japanese",
            "\u{30D1}\u{30F3}\u{30C0}\u{306F}\u{3050}\u{3063}\u{3059}\u{308A}\u{7720}\u{308B}\u{3002}\u{30AC}\u{30AE}\u{30B0}\u{30B2}\u{30B4} \u{FF76}\u{FF9E} \u{3300} \u{32FF}"
                .to_string(),
        ),
        (
            "chinese",
            "\u{4E2D}\u{6587}\u{662F}\u{4E00}\u{79CD}\u{8BED}\u{8A00} \u{F900} \u{FA0E} \u{2F800} \u{2FA1D}".to_string(),
        ),
        (
            "arabic",
            "\u{0627}\u{0644}\u{0652}\u{0639}\u{064E}\u{0631}\u{064E}\u{0628}\u{0650}\u{064A}\u{0651}\u{064E}\u{0629}\u{064F} \u{0622} \u{0623} \u{FDFA} \u{FB50} \u{0650}\u{0651}\u{064E}"
                .to_string(),
        ),
        (
            "hebrew",
            "\u{05D1}\u{05BC}\u{05B0}\u{05E8}\u{05B5}\u{05D0}\u{05E9}\u{05C1}\u{05B4}\u{05D9}\u{05EA} \u{FB2C} \u{FB4B} \u{05E9}\u{05C1}\u{05BC}\u{05B8}".to_string(),
        ),
        (
            "indic",
            "\u{0958}\u{0929}\u{09CB}\u{0B94}\u{0DDD}\u{0F73}\u{0F75}\u{0F81} \u{0915}\u{093C}\u{094D} \u{1026}".to_string(),
        ),
        (
            "marks out of order",
            "a\u{0315}\u{0300}\u{05AE}\u{0327}b q\u{0307}\u{0323}\u{0301}\u{0328} \u{1E0B}\u{0323} \u{0344}\u{0345}\u{0340}\u{0341}\u{0343}".to_string(),
        ),
        (
            "marks of equal class",
            "e\u{0301}\u{0300}\u{0302}\u{0308} e\u{0308}\u{0302}\u{0300}\u{0301} x\u{0323}\u{0331}\u{0324}\u{0301}\u{0325}".to_string(),
        ),
        (
            "leading marks",
            "\u{0301}\u{0323}a \u{0323}\u{0301}\u{00E9}".to_string(),
        ),
        (
            "symbols",
            "\u{00BD} \u{2460} \u{210C} \u{2126} \u{212B} \u{FB01} \u{1D15E} \u{1D1BB} \u{2000} \u{00A0} \u{FF21} \u{1F100} \u{1D400}".to_string(),
        ),
        ("four bytes", "\u{10330}\u{1F600}\u{10FFFF}\u{E0001}\u{1D160}\u{1109A}\u{1112E}".to_string()),
    ];
    let mut long = String::new();
    for i in 0..2000u32 {
        long.push_str("abc ");
        long.push(char::from_u32(0x00C0 + (i % 0x150)).unwrap());
        if i % 7 == 0 {
            long.push('\u{0323}');
            long.push('\u{0301}');
        }
    }
    texts.push(("long", long));
    let mut zalgo = String::from("z");
    for i in 0..500u32 {
        zalgo.push(char::from_u32(0x0300 + (i * 37) % 0x70).unwrap());
    }
    zalgo.push('!');
    texts.push(("many marks", zalgo));
    texts
}

fn as_string(codepoints: Vec<Codepoint>) -> String {
    codepoints.iter().map(|c| char::from_u32(c.code()).unwrap()).collect()
}

/// Scalar values that got a compatibility decomposition after Unicode 14.0.
fn decomposes_later(code: u32) -> bool {
    (0x1E030..=0x1E06D).contains(&code)
}

#[test]
fn icu() {
    let icu_nfd = icu::new_nfd();
    let icu_nfkd = icu::new_nfkd();
    let nfd = my::new_nfd();
    let nfkd = my::new_nfkd();
    for data in texts() {
        assert_eq!(
            nfd.normalize(data.1.as_str()),
            icu_nfd.normalize(data.1.as_str()),
            "nfd,  {} - {}",
            "my",
            data.0
        );
        assert_eq!(
            nfkd.normalize(data.1.as_str()),
            icu_nfkd.normalize(data.1.as_str()),
            "nfkd, {} - {}",
            "my",
            data.0
        );
    }
}

#[test]
fn icu_icu() {
    let icu_nfd = icu::new_nfd();
    let icu_nfkd = icu::new_nfkd();
    let nfd = my::new_nfd();
    let nfkd = my::new_nfkd();
    for data in texts() {
        let result = as_string(nfd.normalize_u32(data.1.as_str()));
        assert_eq!(result, icu_nfd.normalize(data.1.as_str()), "nfd u32 - {}", data.0);
        let result = as_string(nfkd.normalize_u32(data.1.as_str()));
        assert_eq!(result, icu_nfkd.normalize(data.1.as_str()), "nfkd u32 - {}", data.0);
    }
}

#[test]
fn every_scalar_value_as_icu_nfd() {
    let icu_nfd = icu::new_nfd();
    let nfd = my::new_nfd();
    let mut text = String::new();
    for code in 0..=0x30000u32 {
        if let Some(c) = char::from_u32(code) {
            text.clear();
            text.push(c);
            assert_eq!(nfd.normalize(&text), icu_nfd.normalize(&text), "U+{:04X}", code);
        }
    }
}

#[test]
fn every_scalar_value_as_icu_nfkd() {
    let icu_nfkd = icu::new_nfkd();
    let nfkd = my::new_nfkd();
    let mut text = String::new();
    for code in 0..=0x30000u32 {
        if decomposes_later(code) {
            continue;
        }
        if let Some(c) = char::from_u32(code) {
            text.clear();
            text.push(c);
            assert_eq!(nfkd.normalize(&text), icu_nfkd.normalize(&text), "U+{:04X}", code);
        }
    }
}

#[test]
fn every_changing_scalar_value_between_marks_as_icu() {
    let icu_nfd = icu::new_nfd();
    let icu_nfkd = icu::new_nfkd();
    let nfd = my::new_nfd();
    let nfkd = my::new_nfkd();
    let mut text = String::new();
    let mut seen = 0;
    for code in 0..=0x30000u32 {
        if decomposes_later(code) {
            continue;
        }
        if let Some(c) = char::from_u32(code) {
            text.clear();
            text.push(c);
            let alone = nfkd.normalize_u32(&text);
            if alone.len() == 1 && alone[0].code() == code && alone[0].is_starter() {
                continue;
            }
            seen += 1;
            text.clear();
            text.push_str("a\u{0315}\u{0300}");
            text.push(c);
            text.push_str("\u{05AE}\u{0323}z");
            assert_eq!(nfd.normalize(&text), icu_nfd.normalize(&text), "nfd U+{:04X}", code);
            assert_eq!(nfkd.normalize(&text), icu_nfkd.normalize(&text), "nfkd U+{:04X}", code);
        }
    }
    assert!(seen > 16000);
}
