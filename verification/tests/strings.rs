use mwpack::strutil::{parse_token, section, str_eq, trim};

#[test]
fn unescape_collapses_backslash_pairs() {
    let once = parse_token("\\\\abc".to_string());
    assert_eq!(once, "\\abc");
    let again = parse_token(once.clone());
    assert_eq!(again, once);
}

#[test]
fn unescape_leaves_plain_text_alone() {
    assert_eq!(parse_token("token+value".to_string()), "token+value");
    assert_eq!(parse_token(String::new()), "");
}

#[test]
fn unescape_scans_left_to_right() {
    assert_eq!(parse_token("\\\\\\\\".to_string()), "\\\\");
    assert_eq!(parse_token("\\\\\\".to_string()), "\\\\");
}

#[test]
fn section_joins_with_slash() {
    assert_eq!(section("Story", "Chapter 1"), "Story/Chapter 1");
}

#[test]
fn trim_strips_surrounding_whitespace() {
    assert_eq!(trim("  a b \t"), "a b");
    assert_eq!(trim("   "), "");
    assert_eq!(trim("x"), "x");
}

#[test]
fn str_eq_compares_contents() {
    assert!(str_eq("abc", "abc"));
    assert!(!str_eq("abc", "abd"));
    assert!(!str_eq("abc", "ab"));
}
