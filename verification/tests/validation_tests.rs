use ada_idna::{contains_forbidden_domain_code_point, is_ascii, is_label_valid, valid_name_code_point};

#[test]
fn test_valid_name_code_point() {
    assert!(valid_name_code_point(b'a' as u32));
    assert!(valid_name_code_point(b'0' as u32));
    assert!(valid_name_code_point(b'-' as u32));
    assert!(!valid_name_code_point(b' ' as u32));
}

#[test]
fn test_is_ascii() {
    assert!(is_ascii("hello"));
    assert!(!is_ascii("café"));
}

#[test]
fn test_is_label_valid() {
    assert!(is_label_valid("hello"));
    assert!(is_label_valid("test-domain"));
    assert!(!is_label_valid("-invalid"));
    assert!(!is_label_valid("invalid-"));
    assert!(!is_label_valid(""));
}

#[test]
fn test_contains_forbidden_domain_code_point() {
    assert!(!contains_forbidden_domain_code_point("example.com"));
    assert!(contains_forbidden_domain_code_point("exam ple.com"));
    assert!(contains_forbidden_domain_code_point("example.com/path"));
}

#[test]
fn test_forbidden_set_boundaries() {
    // code point by code point over the documented set
    for cp in 0x00u32..=0x1F {
        let c = char::from_u32(cp).unwrap();
        assert!(contains_forbidden_domain_code_point(&c.to_string()));
    }
    for c in ['\u{20}', '"', '#', '%', '/', ':', '<', '>', '?', '@', '[', '\\', ']', '^', '|', '\u{7F}', '\u{9F}'] {
        assert!(contains_forbidden_domain_code_point(&c.to_string()));
    }
    for c in ['!', '$', '&', '=', '_', 'a', '~', '\u{A0}', 'ß'] {
        assert!(!contains_forbidden_domain_code_point(&c.to_string()));
    }
}

#[test]
fn test_is_label_valid_xn() {
    assert!(is_label_valid("xn--4ca"));
    assert!(!is_label_valid("xn--a"));
    assert!(!is_label_valid(&"a".repeat(64)));
}
