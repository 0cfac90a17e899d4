use mxu_core::text::{
    blank, contains, ends_with, eq_ignore_ascii_case, join, last_field_before_suffix,
    push_decimal, push_hex_upper, push_signed_decimal, same_text, split_whitespace, starts_with,
    to_chars,
};

fn decimal(n: u64) -> String {
    let mut s = String::new();
    push_decimal(&mut s, n);
    s
}

fn signed(n: i64) -> String {
    let mut s = String::new();
    push_signed_decimal(&mut s, n);
    s
}

fn hex(n: u32) -> String {
    let mut s = String::new();
    push_hex_upper(&mut s, n);
    s
}

#[test]
fn to_chars_keeps_every_character() {
    assert_eq!(to_chars("aé退"), vec!['a', 'é', '退']);
    assert_eq!(to_chars(""), Vec::<char>::new());
}

#[test]
fn join_appends() {
    assert_eq!(join("ab", "cd"), "abcd");
    assert_eq!(join("", "x"), "x");
}

#[test]
fn blank_texts() {
    assert!(blank(""));
    assert!(blank(" \t\r\n"));
    assert!(blank("\u{3000}\u{a0}"));
    assert!(!blank(" a "));
}

#[test]
fn split_whitespace_cuts_at_runs_of_whitespace() {
    assert_eq!(split_whitespace("a  b\tc"), vec!["a", "b", "c"]);
    assert_eq!(split_whitespace("  --flag   value \n"), vec!["--flag", "value"]);
    assert_eq!(split_whitespace("one"), vec!["one"]);
    assert_eq!(split_whitespace("x\u{3000}y"), vec!["x", "y"]);
}

#[test]
fn split_whitespace_of_blank_text_is_empty() {
    assert!(split_whitespace("").is_empty());
    assert!(split_whitespace("   \t ").is_empty());
}

#[test]
fn split_whitespace_agrees_with_std() {
    for text in ["", " ", "a", " a", "a ", "a b", "\"a b\" c", "a\u{2003}b  c\n d"] {
        let expected: Vec<String> = text.split_whitespace().map(|w| w.to_string()).collect();
        assert_eq!(split_whitespace(text), expected);
        assert_eq!(blank(text), text.trim().is_empty());
    }
}

#[test]
fn same_text_compares_characters() {
    assert!(same_text("show", "show"));
    assert!(!same_text("show", "shown"));
    assert!(!same_text("show", "shoW"));
    assert!(same_text("", ""));
}

#[test]
fn prefix_suffix_and_occurrence() {
    assert!(starts_with("Microsoft.WebView2.x", "Microsoft.WebView2"));
    assert!(!starts_with("Micro", "Microsoft"));
    assert!(starts_with("abc", ""));
    assert!(ends_with("file.cab", ".cab"));
    assert!(!ends_with("cab", ".cab"));
    assert!(ends_with("abc", ""));
    assert!(contains("icons/../x.png", ".."));
    assert!(contains("..", ".."));
    assert!(!contains("icons/a.b.png", ".."));
    assert!(!contains(".", ".."));
    assert!(contains("abc", ""));
}

#[test]
fn ascii_case_is_ignored_for_ascii_only() {
    assert!(eq_ignore_ascii_case("X64", "x64"));
    assert!(eq_ignore_ascii_case("arm64", "ARM64"));
    assert!(!eq_ignore_ascii_case("x64", "x86"));
    assert!(!eq_ignore_ascii_case("x64", "x64 "));
    assert!(!eq_ignore_ascii_case("É", "é"));
    assert!(!eq_ignore_ascii_case("@", "`"));
    assert!(!eq_ignore_ascii_case("[", "{"));
}

#[test]
fn last_field_before_suffix_reads_the_architecture() {
    assert_eq!(
        last_field_before_suffix(
            "Microsoft.WebView2.FixedVersionRuntime.145.0.3800.65.x64.cab",
            ".cab",
            '.'
        ),
        "x64"
    );
    assert_eq!(last_field_before_suffix("a.b.cab.cab", ".cab", '.'), "b");
    assert_eq!(last_field_before_suffix("plain", ".cab", '.'), "plain");
    assert_eq!(last_field_before_suffix("x.", ".cab", '.'), "");
    assert_eq!(last_field_before_suffix(".cab", ".cab", '.'), "");
    assert_eq!(last_field_before_suffix("a.b", "", '.'), "b");
}

#[test]
fn last_field_before_suffix_agrees_with_std() {
    for name in ["a.cab", "a.b.c.cab", ".cab.cab", "cab", "a..cab", "a.cabx", ""] {
        let expected = name.trim_end_matches(".cab").rsplit('.').next().unwrap_or("");
        assert_eq!(last_field_before_suffix(name, ".cab", '.'), expected);
    }
}

#[test]
fn decimal_digits() {
    assert_eq!(decimal(0), "0");
    assert_eq!(decimal(7), "7");
    assert_eq!(decimal(10), "10");
    assert_eq!(decimal(12345), "12345");
    assert_eq!(decimal(u64::MAX), "18446744073709551615");
}

#[test]
fn signed_decimal_digits() {
    assert_eq!(signed(0), "0");
    assert_eq!(signed(-1), "-1");
    assert_eq!(signed(-2147219416), "-2147219416");
    assert_eq!(signed(i64::MIN), "-9223372036854775808");
    assert_eq!(signed(i64::MAX), "9223372036854775807");
}

#[test]
fn hex_digits_are_capitals() {
    assert_eq!(hex(0), "0");
    assert_eq!(hex(10), "A");
    assert_eq!(hex(255), "FF");
    assert_eq!(hex(0x80073CF8), "80073CF8");
    assert_eq!(hex(u32::MAX), "FFFFFFFF");
}

#[test]
fn numbers_are_appended_to_what_is_there() {
    let mut s = String::from("n=");
    push_decimal(&mut s, 42);
    s.push(' ');
    push_hex_upper(&mut s, 42);
    assert_eq!(s, "n=42 2A");
}
