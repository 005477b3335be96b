use groupify::text::{
    contains, copied, given_or_empty, is_blank, parse_u64, rfind, same_text, starts_with,
    tail_after_dash, trim,
};

#[test]
fn finds_the_last_occurrence() {
    assert_eq!(rfind("a/v1/b/v1/c", "/v1/"), Some(6));
    assert_eq!(rfind("abc", "/v1/"), None);
    assert_eq!(rfind("", "x"), None);
    assert_eq!(rfind("aaa", "aa"), Some(1));
}

#[test]
fn looks_for_parts() {
    assert!(contains("an ipad here", "ipad"));
    assert!(!contains("an ipa", "ipad"));
    assert!(contains("x", ""));
    assert!(starts_with("http/json", "http"));
    assert!(!starts_with("htt", "http"));
}

#[test]
fn compares_texts() {
    assert!(same_text("abc", "abc"));
    assert!(!same_text("abc", "abC"));
    assert!(!same_text("abc", "ab"));
    assert!(same_text("", ""));
}

#[test]
fn trims_white_space() {
    assert!(is_blank(" \u{3000}\t"));
    assert!(!is_blank(" . "));
    assert_eq!(trim("\u{85} a b \u{2028}"), "a b");
    assert_eq!(trim("  "), "");
}

#[test]
fn splits_at_the_first_hyphen() {
    assert_eq!(tail_after_dash("abc-web"), Some("web".to_string()));
    assert_eq!(tail_after_dash("a-b-c"), Some("b-c".to_string()));
    assert_eq!(tail_after_dash("a-"), Some(String::new()));
    assert_eq!(tail_after_dash("abc"), None);
}

#[test]
fn reads_unsigned_numbers() {
    assert_eq!(parse_u64("0"), Some(0));
    assert_eq!(parse_u64("0042"), Some(42));
    assert_eq!(parse_u64("+7"), Some(7));
    assert_eq!(parse_u64("18446744073709551615"), Some(u64::MAX));
    assert_eq!(parse_u64("18446744073709551616"), None);
    assert_eq!(parse_u64("99999999999999999999999"), None);
    for bad in ["", "+", "-1", " 1", "1 ", "1.0", "++1", "0x1", "١"] {
        assert_eq!(parse_u64(bad), None);
    }
}

#[test]
fn reads_numbers_as_the_standard_library_does() {
    for text in ["12", "+12", "00", "", "+", "a", "18446744073709551615", "18446744073709551616"] {
        assert_eq!(parse_u64(text), text.parse::<u64>().ok());
    }
}

#[test]
fn handles_missing_texts() {
    assert_eq!(copied(&Some("a".to_string())), Some("a".to_string()));
    assert_eq!(copied(&None), None);
    assert_eq!(given_or_empty(Some("a".to_string())), "a");
    assert_eq!(given_or_empty(None), "");
}
