use ada_idna::ascii_map;
use ada_idna::mapping;

#[test]
fn test_ascii_map() {
    assert_eq!(ascii_map("HELLO"), "hello");
    assert_eq!(ascii_map("Hello"), "hello");
    assert_eq!(ascii_map("hello"), "hello");
}

#[test]
fn test_map_with_special_chars() {
    assert_eq!(mapping::map("ß"), "ß");
    assert_eq!(mapping::map("İ"), "i̇");
}

#[test]
fn test_mapping_minimal() {
    assert_eq!(mapping::map("asciitwontchange"), "asciitwontchange");
    assert_eq!(mapping::map("hasomit\u{00ad}ted"), "hasomitted");
    assert_eq!(mapping::map("\u{00a0}lla"), "\u{00a0}lla");
}

#[test]
fn test_map_ligatures() {
    assert_eq!(mapping::map("ﬁle"), "file");
    assert_eq!(mapping::map("oﬃce"), "office");
    assert_eq!(mapping::map("\u{200C}a\u{200D}b"), "ab");
}

#[test]
fn test_map_lowercases_beyond_ascii() {
    assert_eq!(mapping::map("À"), "à");
    assert_eq!(mapping::map("МОСКВА"), "москва");
}
