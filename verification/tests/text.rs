use calrs::text::{
    concat3, first_chars_str, parse_u32, str_all_digits, str_lower_eq, str_starts_with,
    trim_end_char_str, trim_start_char_str, trim_str,
};

#[test]
fn parse_u32_reads_decimal_numbers_as_std_does() {
    assert_eq!(parse_u32("0"), Some(0));
    assert_eq!(parse_u32("42"), Some(42));
    assert_eq!(parse_u32("+7"), Some(7));
    assert_eq!(parse_u32("4294967295"), Some(u32::MAX));
    assert_eq!(parse_u32("4294967296"), None);
    assert_eq!(parse_u32(""), None);
    assert_eq!(parse_u32("+"), None);
    assert_eq!(parse_u32("-1"), None);
    assert_eq!(parse_u32(" 1"), None);
    for s in ["0", "12", "+3", "99999", "4294967295", "x", "", "1e3"] {
        assert_eq!(parse_u32(s), s.parse::<u32>().ok(), "{}", s);
    }
}

#[test]
fn trimming_matches_std() {
    for s in ["", "  a b  ", "\t\nx\u{a0}", "none"] {
        assert_eq!(trim_str(s), s.trim());
    }
    assert_eq!(trim_end_char_str("a///", '/'), "a");
    assert_eq!(trim_start_char_str("++1", '+'), "1");
}

#[test]
fn small_string_helpers() {
    assert_eq!(concat3("a", "bc", "d"), "abcd");
    assert_eq!(first_chars_str("héllo", 2), "hé");
    assert_eq!(first_chars_str("ab", 5), "ab");
    assert!(str_starts_with("https://x", "https://"));
    assert!(!str_starts_with("http", "https://"));
    assert!(str_all_digits("0123"));
    assert!(!str_all_digits("01a3"));
    assert!(str_lower_eq("TrUe", "true"));
    assert!(!str_lower_eq("truth", "true"));
}
