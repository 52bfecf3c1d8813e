use ada_idna::normalize;
use ada_idna::unicode_tables::{HANGUL_NCOUNT, HANGUL_SCOUNT};

#[test]
fn test_normalize() {
    let input = "cafÃ©";
    let result = normalize(input);
    assert!(!result.is_empty());
}

#[test]
fn test_hangul_constants() {
    assert_eq!(HANGUL_NCOUNT, 588);
    assert_eq!(HANGUL_SCOUNT, 11172);
}

#[test]
fn test_normalize_composes() {
    // e followed by a combining acute accent composes to a single char
    assert_eq!(normalize("cafe\u{0301}"), "café");
    // a precomposed character stays as it is
    assert_eq!(normalize("café"), "café");
}

#[test]
fn test_normalize_reorders_marks() {
    // dot below (ccc 220) sorts before diaeresis (ccc 230)
    assert_eq!(normalize("a\u{0308}\u{0323}"), normalize("a\u{0323}\u{0308}"));
}

#[test]
fn test_normalize_hangul() {
    // jamo sequence composes to a precomposed syllable
    assert_eq!(normalize("\u{1112}\u{1161}\u{11AB}"), "\u{D55C}");
}
