use ncaptura::commands::is_window_protocol_unsupported_error;
use ncaptura::text::{contains_str, i32_to_string, str_eq, str_lex_le, trim, u64_to_padded,
    u64_to_string};

#[test]
fn trim_removes_surrounding_whitespace() {
    assert_eq!(trim("  10,20 300x200\n"), "10,20 300x200");
    assert_eq!(trim("\t\r\n a b \u{b}\u{c}"), "a b");
    assert_eq!(trim("untouched"), "untouched");
}

#[test]
fn trim_removes_unicode_whitespace() {
    assert_eq!(trim("\u{a0}\u{2003}core\u{3000}\u{85}"), "core");
    assert_eq!(trim("\u{2028}\u{2029}"), "");
}

#[test]
fn trim_of_blank_text_is_empty() {
    assert_eq!(trim(""), "");
    assert_eq!(trim("   \n\t  "), "");
}

#[test]
fn decimal_rendering_is_exact() {
    assert_eq!(u64_to_string(0), "0");
    assert_eq!(u64_to_string(7), "7");
    assert_eq!(u64_to_string(1203), "1203");
    assert_eq!(u64_to_string(u64::MAX), "18446744073709551615");
}

#[test]
fn signed_rendering_is_exact() {
    assert_eq!(i32_to_string(0), "0");
    assert_eq!(i32_to_string(-42), "-42");
    assert_eq!(i32_to_string(i32::MIN), "-2147483648");
}

#[test]
fn zero_padding_widens_short_numbers_only() {
    assert_eq!(u64_to_padded(7, 4), "0007");
    assert_eq!(u64_to_padded(2024, 4), "2024");
    assert_eq!(u64_to_padded(12345, 4), "12345");
    assert_eq!(u64_to_padded(0, 2), "00");
}

#[test]
fn str_eq_compares_characters() {
    assert!(str_eq("abc", "abc"));
    assert!(!str_eq("abc", "abd"));
    assert!(str_eq("", ""));
    assert!(!str_eq("a", ""));
}

#[test]
fn lexicographic_order_on_text() {
    assert!(str_lex_le("abc", "abd"));
    assert!(!str_lex_le("abd", "abc"));
    assert!(str_lex_le("ab", "abc"));
    assert!(!str_lex_le("abc", "ab"));
    assert!(str_lex_le("same", "same"));
    assert!(str_lex_le("", "x"));
}

#[test]
fn substring_search_finds_runs() {
    assert!(contains_str("the quick fox", "quick"));
    assert!(contains_str("abc", "abc"));
    assert!(contains_str("abc", ""));
    assert!(!contains_str("abc", "abcd"));
    assert!(!contains_str("the quick fox", "slow"));
}

#[test]
fn window_protocol_error_is_recognised_by_its_text() {
    let message =
        "niri: compositor doesn't support the screen capture protocol, use screenshot-window";
    assert!(is_window_protocol_unsupported_error(message));
    assert!(!is_window_protocol_unsupported_error("grim: permission denied"));
    assert!(!is_window_protocol_unsupported_error(""));
}
