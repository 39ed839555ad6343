use wisp::text::{parse_u32, parse_unsigned, same_text, split_words, strip_prefix, trim};

#[test]
fn trim_removes_unicode_white_space() {
    assert_eq!(trim("  a b \n"), "a b");
    assert_eq!(trim("\u{a0}x\u{3000}"), "x");
    assert_eq!(trim("   "), "");
}

#[test]
fn split_words_yields_whitespace_separated_words() {
    assert_eq!(split_words(" one  two\tthree\n"), vec!["one", "two", "three"]);
    assert!(split_words("").is_empty());
    assert_eq!(split_words("é ü"), vec!["é", "ü"]);
}

#[test]
fn numbers_parse_like_std() {
    assert_eq!(parse_u32("42"), Some(42));
    assert_eq!(parse_u32("+7"), Some(7));
    assert_eq!(parse_u32("+"), None);
    assert_eq!(parse_u32(""), None);
    assert_eq!(parse_u32("4294967296"), None);
    assert_eq!(parse_unsigned("65535", 65535), Some(65535));
    assert_eq!(parse_unsigned("65536", 65535), None);
    assert_eq!(parse_unsigned("18446744073709551615", u64::MAX), Some(u64::MAX));
    assert_eq!(parse_unsigned("18446744073709551616", u64::MAX), None);
}

#[test]
fn prefixes_and_equality() {
    assert_eq!(strip_prefix("file:///x", "file://"), Some("/x"));
    assert_eq!(strip_prefix("fil", "file://"), None);
    assert!(same_text("abc", "abc"));
    assert!(!same_text("abc", "abd"));
}
