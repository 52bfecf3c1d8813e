use std::borrow::Cow;
use ada_idna::{IdnaError, to_ascii, to_unicode};

#[test]
fn test_to_ascii_borrowed_fast_path() {
    // an already-canonical ASCII domain comes back unchanged and borrowed
    let domain = "example.com";
    match to_ascii(domain) {
        Ok(Cow::Borrowed(s)) => assert_eq!(s, domain),
        _ => panic!("expected a borrowed result"),
    }
}

#[test]
fn test_to_ascii_sharp_s() {
    assert_eq!(to_ascii("straße.de").unwrap(), "xn--strae-oqa.de");
}

#[test]
fn test_to_ascii_cafe() {
    assert_eq!(to_ascii("café.example").unwrap(), "xn--caf-dma.example");
}

#[test]
fn test_to_ascii_katakana() {
    assert_eq!(
        to_ascii("ドメイン名例.jp").unwrap(),
        "xn--eckwd4c7cu47r2wf.jp"
    );
    assert_eq!(
        to_ascii("ドメイン.jp").unwrap(),
        "xn--eckwd4c7c.jp"
    );
}

#[test]
fn test_to_unicode_muenchen() {
    assert_eq!(to_unicode("xn--mnchen-3ya.de").unwrap(), "münchen.de");
}

#[test]
fn test_to_ascii_soft_hyphen_removed() {
    assert_eq!(to_ascii("ex\u{00AD}ample.com").unwrap(), "example.com");
}

#[test]
fn test_to_ascii_forbidden_character() {
    assert!(matches!(
        to_ascii("test\u{0000}.com"),
        Err(IdnaError::InvalidCharacter)
    ));
}

#[test]
fn test_to_ascii_label_lengths() {
    let max_label = "a".repeat(63);
    assert_eq!(to_ascii(&max_label).unwrap(), max_label);
    assert!(matches!(
        to_ascii(&"a".repeat(64)),
        Err(IdnaError::LabelTooLong)
    ));
}

#[test]
fn test_to_unicode_undelimited_body() {
    // "invalid" happens to be a canonical Punycode body, so the label
    // decodes, survives the round-trip gate, and comes back as its
    // five ideographs
    assert_eq!(
        to_unicode("xn--invalid").unwrap(),
        "\u{66CC}\u{66D3}\u{66D0}\u{66D2}\u{66CC}"
    );
    // a body that decodes to a forbidden control code point fails
    assert!(matches!(to_unicode("xn--a"), Err(IdnaError::InvalidCharacter)));
    // a body with an impossible digit fails to decode at all
    assert!(matches!(to_unicode("xn--!"), Err(IdnaError::PunycodeError)));
}

#[test]
fn test_round_trip_to_unicode_of_to_ascii() {
    // a valid Unicode domain maps to its lowercased, normalized form
    for (input, expected) in [
        ("MÜNCHEN.de", "münchen.de"),
        ("café.example", "café.example"),
        ("ドメイン名例.jp", "ドメイン名例.jp"),
    ] {
        let ascii = to_ascii(input).unwrap().into_owned();
        assert_eq!(to_unicode(&ascii).unwrap(), expected);
    }
}

#[test]
fn test_round_trip_to_ascii_of_to_unicode() {
    // a valid lower-case A-label survives the round trip unchanged
    for a in ["xn--strae-oqa.de", "xn--caf-dma.com", "xn--mnchen-3ya.de"] {
        let unicode = to_unicode(a).unwrap();
        assert_eq!(to_ascii(&unicode).unwrap(), a);
    }
}

#[test]
fn test_error_variants() {
    assert!(matches!(to_ascii(""), Err(IdnaError::EmptyLabel)));
    assert!(matches!(to_ascii("."), Err(IdnaError::EmptyLabel)));
    assert!(matches!(to_ascii("a..b"), Err(IdnaError::EmptyLabel)));
    assert!(matches!(to_ascii("-a.com"), Err(IdnaError::ValidationError)));
    assert!(matches!(to_ascii("a-.com"), Err(IdnaError::ValidationError)));
    assert!(matches!(to_unicode(""), Err(IdnaError::EmptyLabel)));
}

#[test]
fn test_to_ascii_uppercase_ascii() {
    assert_eq!(to_ascii("EXAMPLE.COM").unwrap(), "example.com");
}
