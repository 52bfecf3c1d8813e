use ada_idna::{to_ascii, to_unicode};

#[test]
fn test_to_ascii_simple() {
    let result = to_ascii("example.com");
    assert!(result.is_ok());
    assert_eq!(result.unwrap(), "example.com");
}

#[test]
fn test_to_ascii_unicode() {
    let result = to_ascii("café.example");
    assert!(result.is_ok());
    assert!(result.unwrap().starts_with("xn--"));
}

#[test]
fn test_to_unicode() {
    let result = to_unicode("xn--4ca.example");
    if result.is_ok() {
        let unicode_domain = result.unwrap();
        assert!(unicode_domain.contains("ä"));
    }
}

#[test]
fn test_empty_domain() {
    assert!(to_ascii("").is_err());
    assert!(to_unicode("").is_err());
}

#[test]
fn test_label_too_long() {
    let long_label = "a".repeat(64);
    let result = to_ascii(&long_label);
    assert!(result.is_err());
}
