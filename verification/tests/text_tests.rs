use hello_tts::text::decimal_string;
use hello_tts::text::find_dash;
use hello_tts::text::lower_starts_with;
use hello_tts::text::str_eq;
use hello_tts::text::to_lower;

#[test]
fn test_to_lower_is_ascii_only() {
    assert_eq!(to_lower("En-US"), "en-us");
    assert_eq!(to_lower("abc"), "abc");
    assert_eq!(to_lower("A1!Z"), "a1!z");
    assert_eq!(to_lower(""), "");
}

#[test]
fn test_str_eq() {
    assert!(str_eq("", ""));
    assert!(str_eq("google", "google"));
    assert!(!str_eq("google", "Google"));
    assert!(!str_eq("google", "googl"));
}

#[test]
fn test_lower_starts_with() {
    assert!(lower_starts_with("EN-us", "en-US"));
    assert!(lower_starts_with("en-US", "en"));
    assert!(!lower_starts_with("en", "en-US"));
    assert!(lower_starts_with("anything", ""));
}

#[test]
fn test_find_dash_counts_characters() {
    assert_eq!(find_dash("en-US"), 2);
    assert_eq!(find_dash("-x"), 0);
    assert_eq!(find_dash("en"), 2);
    assert_eq!(find_dash(""), 0);
}

#[test]
fn test_decimal_string() {
    assert_eq!(decimal_string(0), "0");
    assert_eq!(decimal_string(7), "7");
    assert_eq!(decimal_string(10), "10");
    assert_eq!(decimal_string(908070), "908070");
    assert_eq!(decimal_string(u64::MAX), "18446744073709551615");
}
