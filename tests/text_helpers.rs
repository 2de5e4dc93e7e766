use jupyter_shell::codec::decimal_string;
use jupyter_shell::text::{
    ends_with_char, eq_ignore_ascii_case, is_single_char, str_eq, trim_char, trim_end_char,
    trim_start_char, trim_whitespace,
};

#[test]
fn trims_runs_of_one_character() {
    assert_eq!(trim_start_char("//a/b//", '/'), "a/b//");
    assert_eq!(trim_end_char("//a/b//", '/'), "//a/b");
    assert_eq!(trim_char("//a/b//", '/'), "a/b");
    assert_eq!(trim_char("////", '/'), "");
    assert_eq!(trim_char("", '/'), "");
}

#[test]
fn trims_unicode_white_space() {
    assert_eq!(trim_whitespace("  tok\u{3000}\n"), "tok");
    assert_eq!(trim_whitespace("\u{a0}a b\t"), "a b");
    assert_eq!(trim_whitespace(" \t "), "");
    for s in ["x", " x ", "\u{2028}x\u{85}", "\u{200b}x"] {
        assert_eq!(trim_whitespace(s), s.trim());
    }
}

#[test]
fn compares_text() {
    assert!(eq_ignore_ascii_case("SHA256", "sha256"));
    assert!(!eq_ignore_ascii_case("sha-256", "sha256"));
    assert!(!eq_ignore_ascii_case("ß", "SS"));
    assert!(str_eq("a", "a"));
    assert!(!str_eq("a", "A"));
    assert!(is_single_char("/", '/'));
    assert!(!is_single_char("//", '/'));
    assert!(ends_with_char("dir/", '/'));
    assert!(!ends_with_char("", '/'));
}

#[test]
fn writes_decimals() {
    assert_eq!(decimal_string(0), "0");
    assert_eq!(decimal_string(10), "10");
    assert_eq!(decimal_string(u64::MAX), u64::MAX.to_string());
}
