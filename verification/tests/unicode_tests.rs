use ada_idna::{utf8_length_from_utf32, utf8_to_utf32, utf8_to_utf32_length, utf32_length_from_utf8, utf32_to_utf8};

#[test]
fn test_utf8_to_utf32_ascii() {
    let input = b"hello";
    let result = utf8_to_utf32(input);
    assert_eq!(result, vec![104, 101, 108, 108, 111]);
}

#[test]
fn test_utf8_to_utf32_unicode() {
    let input = "café".as_bytes();
    let result = utf8_to_utf32(input);
    assert_eq!(result, vec![99, 97, 102, 233]);
}

#[test]
fn test_utf32_to_utf8() {
    let input = vec![99, 97, 102, 233];
    let result = utf32_to_utf8(&input);
    let expected = "café".as_bytes();
    assert_eq!(result, expected);
}

#[test]
fn test_utf8_length_from_utf32() {
    let input = vec![99, 97, 102, 233];
    let result = utf8_length_from_utf32(&input);
    assert_eq!(result, 5);
}

#[test]
fn test_utf32_length_from_utf8() {
    let input = "café".as_bytes();
    let result = utf32_length_from_utf8(input);
    assert_eq!(result, 4);
}

#[test]
fn test_utf8_round_trip() {
    let cases = ["", "hello", "café", "ドメイン名例", "a\u{10FFFF}b"];
    for case in cases {
        let bytes = case.as_bytes();
        let cps = utf8_to_utf32(bytes);
        assert_eq!(utf32_to_utf8(&cps), bytes);
        assert_eq!(utf8_length_from_utf32(&cps), bytes.len());
        assert_eq!(utf32_length_from_utf8(bytes), cps.len());
        assert_eq!(utf8_to_utf32_length(bytes), cps.len());
    }
}

#[test]
fn test_utf8_rejects_malformed() {
    assert!(utf8_to_utf32(&[0x80]).is_empty());
    assert!(utf8_to_utf32(&[0xC0, 0x80]).is_empty());
    assert!(utf8_to_utf32(&[0xED, 0xA0, 0x80]).is_empty());
    assert!(utf8_to_utf32(&[0xF4, 0x90, 0x80, 0x80]).is_empty());
    assert!(utf8_to_utf32(&[0xC3]).is_empty());
    assert!(utf32_to_utf8(&[0xD800]).is_empty());
    assert!(utf32_to_utf8(&[0x110000]).is_empty());
}
