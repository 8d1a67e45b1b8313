use rusty_ai::strutil::{any_glob_match, contains_sub, ends_with, glob_match, starts_with, str_eq};
use rusty_ai::wrap::{format_reply, join_lines};

#[test]
fn str_eq_cases() {
    assert!(str_eq("", ""));
    assert!(str_eq("abc", "abc"));
    assert!(!str_eq("abc", "abd"));
    assert!(!str_eq("abc", "abcd"));
}

#[test]
fn contains_sub_cases() {
    assert!(contains_sub("proj/.buddy/files/x.rs", ".buddy"));
    assert!(!contains_sub("proj/other/files/x.rs", ".buddy"));
    assert!(contains_sub("abc", ""));
    assert!(contains_sub("abc", "abc"));
    assert!(!contains_sub("ab", "abc"));
}

#[test]
fn ends_with_cases() {
    assert!(ends_with("bundle.rs", ".rs"));
    assert!(!ends_with("bundle.rst", ".rs"));
    assert!(ends_with("x", ""));
    assert!(!ends_with("s", ".rs"));
}

#[test]
fn starts_with_cases() {
    assert!(starts_with("bundle.rs", "bundle"));
    assert!(!starts_with("bundle.rs", "bundles"));
    assert!(starts_with("x", ""));
}

#[test]
fn glob_match_cases() {
    assert!(glob_match("main.rs", "*.rs"));
    assert!(!glob_match("main.rst", "*.rs"));
    assert!(glob_match("a-asst_A-b.rs", "*asst_A*"));
    assert!(!glob_match("a-asst_B-b.rs", "*asst_A*"));
    assert!(glob_match("readme.md", "readme*"));
    assert!(glob_match("notes.txt", "notes.txt"));
    assert!(!glob_match("notes.txt", "other.txt"));
}

#[test]
fn any_glob_match_cases() {
    let pats = vec!["*.rs".to_string(), "*.md".to_string()];
    assert!(any_glob_match("main.rs", &pats));
    assert!(any_glob_match("readme.md", &pats));
    assert!(!any_glob_match("notes.txt", &pats));
}

#[test]
fn join_lines_cases() {
    assert_eq!(join_lines(&Vec::new()), "");
    assert_eq!(join_lines(&vec!["one".to_string()]), "one");
    assert_eq!(join_lines(&vec!["one".to_string(), "two".to_string()]), "one\ntwo");
}

#[test]
fn format_reply_wraps_at_width() {
    // Would fail if the wrapping handed its input back unchanged.
    assert_eq!(format_reply("aaa bbb", 3), "aaa\nbbb");
    assert_eq!(format_reply("Foo   bar baz", 10), "Foo   bar\nbaz");
    assert_eq!(format_reply("short line", 80), "short line");
}
