use fmt_errors::colors::cyan;
use fmt_errors::colors::italic_bold;
use fmt_errors::colors::red;
use fmt_errors::colors::yellow;
use fmt_errors::text::i64_to_dec;
use fmt_errors::text::indent_spaces;
use fmt_errors::text::str_contains;
use fmt_errors::text::str_ends_with;
use fmt_errors::text::str_starts_with;
use fmt_errors::text::u64_to_dec;

#[test]
fn test_u64_to_dec() {
    assert_eq!(u64_to_dec(0), "0");
    assert_eq!(u64_to_dec(7), "7");
    assert_eq!(u64_to_dec(1234567890), "1234567890");
    assert_eq!(u64_to_dec(u64::MAX), "18446744073709551615");
}

#[test]
fn test_i64_to_dec() {
    assert_eq!(i64_to_dec(0), "0");
    assert_eq!(i64_to_dec(42), "42");
    assert_eq!(i64_to_dec(-1), "-1");
    assert_eq!(i64_to_dec(i64::MAX), "9223372036854775807");
    assert_eq!(i64_to_dec(i64::MIN), "-9223372036854775808");
}

#[test]
fn test_indent_spaces() {
    assert_eq!(indent_spaces(0), "");
    assert_eq!(indent_spaces(4), "    ");
}

#[test]
fn test_str_starts_with() {
    assert!(str_starts_with("Foo.bar", "Foo"));
    assert!(!str_starts_with("bar", "Foo"));
    assert!(str_starts_with("bar", ""));
    assert!(!str_starts_with("F", "Foo"));
}

#[test]
fn test_str_ends_with() {
    assert!(str_ends_with("Foo.bar", "bar"));
    assert!(!str_ends_with("Foo.bar", "baz"));
    assert!(str_ends_with("bar", ""));
}

#[test]
fn test_str_contains() {
    assert!(str_contains("abcde", "bcd"));
    assert!(str_contains("abcde", ""));
    assert!(!str_contains("abcde", "bd"));
    assert!(!str_contains("ab", "abc"));
}

#[test]
fn test_styles_wrap_in_ansi_escapes() {
    assert_eq!(cyan("x"), "\u{1b}[36mx\u{1b}[0m");
    assert_eq!(red("x"), "\u{1b}[31mx\u{1b}[0m");
    assert_eq!(yellow("x"), "\u{1b}[33mx\u{1b}[0m");
    assert_eq!(italic_bold("x"), "\u{1b}[3m\u{1b}[1mx\u{1b}[0m");
}
