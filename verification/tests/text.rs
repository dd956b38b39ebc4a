//! Tests of the character-level helpers underlying keys and filters.

use fossapi::grouping::branch_of;
use fossapi::strutil::contains_sub;
use fossapi::strutil::eq_ignore_ascii_case;
use fossapi::strutil::find_char;
use fossapi::strutil::parse_u32;
use fossapi::strutil::parse_u64;
use fossapi::strutil::revision_of_project;
use fossapi::strutil::rfind_char;
use fossapi::strutil::str_eq;

#[test]
fn parse_u64_accepts_digits_only() {
    assert_eq!(parse_u64("0"), Some(0));
    assert_eq!(parse_u64("12345"), Some(12345));
    assert_eq!(parse_u64("007"), Some(7));
    assert_eq!(parse_u64("18446744073709551615"), Some(u64::MAX));
    assert_eq!(parse_u64("18446744073709551616"), None);
    assert_eq!(parse_u64(""), None);
    assert_eq!(parse_u64("12a"), None);
    assert_eq!(parse_u64("-1"), None);
    assert_eq!(parse_u64(" 1"), None);
}

#[test]
fn parse_u32_bounds() {
    assert_eq!(parse_u32("4294967295"), Some(u32::MAX));
    assert_eq!(parse_u32("4294967296"), None);
}

#[test]
fn contains_sub_finds_substrings() {
    assert!(contains_sub("hello world", "o w"));
    assert!(contains_sub("hello", ""));
    assert!(contains_sub("abc", "abc"));
    assert!(!contains_sub("abc", "abcd"));
    assert!(!contains_sub("abc", "ac"));
}

#[test]
fn eq_ignore_ascii_case_folds_letters_only() {
    assert!(eq_ignore_ascii_case("Vulnerability", "VULNERABILITY"));
    assert!(eq_ignore_ascii_case("", ""));
    assert!(!eq_ignore_ascii_case("abc", "abd"));
    assert!(!eq_ignore_ascii_case("abc", "ab"));
}

#[test]
fn revision_of_project_needs_separator_after_prefix() {
    assert!(revision_of_project("custom+1/foo$main", "custom+1/foo"));
    assert!(!revision_of_project("custom+1/foobar$main", "custom+1/foo"));
    assert!(!revision_of_project("custom+1/foo", "custom+1/foo"));
    assert!(!revision_of_project("custom+1/fo", "custom+1/foo"));
}

#[test]
fn branch_of_takes_text_after_last_separator() {
    assert_eq!(branch_of("custom+1/app$main"), "main");
    assert_eq!(branch_of("a$b$c"), "c");
    assert_eq!(branch_of("no-separator"), "unknown");
    assert_eq!(branch_of("trailing$"), "");
}

#[test]
fn char_searches() {
    assert_eq!(find_char("a+b+c", '+'), Some(1));
    assert_eq!(rfind_char("a+b+c", '+'), Some(3));
    assert_eq!(find_char("abc", '+'), None);
    assert!(str_eq("same", "same"));
    assert!(!str_eq("same", "sam"));
}
