use ada_idna::{punycode_to_utf32, utf32_to_punycode, verify_punycode};

#[test]
fn test_punycode_encoding() {
    let input = vec![0x00E4];
    let result = utf32_to_punycode(&input);
    assert!(result.is_some());
    let encoded = result.unwrap();
    assert_eq!(encoded, "4ca");
}

#[test]
fn test_punycode_decoding() {
    let input = vec![0x00E4];
    let encoded = utf32_to_punycode(&input).unwrap();
    let decoded = punycode_to_utf32(&encoded);
    assert_eq!(decoded, Some(vec![0x00E4]));
}

#[test]
fn test_verify_punycode() {
    assert!(verify_punycode("4ca"));
    assert!(verify_punycode(""));
}

#[test]
fn test_xn_prefix_rejection() {
    assert_eq!(punycode_to_utf32("xn--test"), None);
    assert!(!verify_punycode("xn--test"));
}

#[test]
fn test_punycode_greek() {
    // αβγ
    let input = vec![0x03B1, 0x03B2, 0x03B3];
    assert_eq!(utf32_to_punycode(&input).unwrap(), "mxacd");
}

#[test]
fn test_punycode_round_trip_mixed() {
    let cases: Vec<Vec<u32>> = vec![
        vec![0x62, 0x00FC, 0x63, 0x68, 0x65, 0x72],
        vec![0x30C9, 0x30E1, 0x30A4, 0x30F3],
        vec![0x61, 0x62, 0x63],
        vec![],
        vec![0x10000, 0x10FFFF, 0x61],
    ];
    for input in cases {
        let encoded = utf32_to_punycode(&input).unwrap();
        assert!(verify_punycode(&encoded));
        assert_eq!(punycode_to_utf32(&encoded), Some(input));
    }
}

#[test]
fn test_punycode_rejects_surrogates() {
    assert_eq!(utf32_to_punycode(&[0xD800]), None);
    assert_eq!(utf32_to_punycode(&[0x110000]), None);
}

#[test]
fn test_punycode_rejects_bad_digit() {
    assert_eq!(punycode_to_utf32("a-!"), None);
    assert!(!verify_punycode("a-!"));
}
