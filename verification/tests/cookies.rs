use mwpack::cookies::CookieJar;

#[test]
fn merge_same_header_twice_is_idempotent() {
    let header = "SID=abc123; Path=/; HttpOnly";
    let mut once = CookieJar::new();
    once.merge_set_cookie(header);
    let mut twice = CookieJar::new();
    twice.merge_set_cookie(header);
    twice.merge_set_cookie(header);
    assert_eq!(once.cookie_header(), twice.cookie_header());
}

#[test]
fn last_write_wins_for_same_key() {
    let mut jar = CookieJar::new();
    jar.merge_set_cookie("a=1");
    jar.merge_set_cookie("a=2");
    assert_eq!(jar.lookup("a"), Some("2".to_string()));
    assert_eq!(jar.cookie_header(), "a=2");
}

#[test]
fn attributes_and_sentinel_value() {
    let mut jar = CookieJar::new();
    jar.merge_set_cookie("SID=xyz; HttpOnly; Path=/");
    assert_eq!(jar.lookup("SID"), Some("xyz".to_string()));
    assert_eq!(jar.lookup("HttpOnly"), Some("true".to_string()));
    assert_eq!(jar.lookup("Path"), Some("/".to_string()));
    assert_eq!(jar.lookup("missing"), None);
}

#[test]
fn segments_are_trimmed_and_second_equals_cut() {
    let mut jar = CookieJar::new();
    jar.merge_set_cookie(" k = v=w ");
    assert_eq!(jar.lookup("k"), Some("v".to_string()));
}

#[test]
fn header_joins_in_insertion_order() {
    let mut jar = CookieJar::new();
    jar.upsert("a".to_string(), "1".to_string());
    jar.upsert("b".to_string(), "2".to_string());
    jar.upsert("a".to_string(), "3".to_string());
    assert_eq!(jar.cookie_header(), "a=3; b=2");
}

#[test]
fn merging_many_headers_in_order() {
    let mut jar = CookieJar::new();
    jar.merge_set_cookies(&vec![
        "s=1; Path=/".to_string(),
        "t=2".to_string(),
        "s=9".to_string(),
    ]);
    assert_eq!(jar.lookup("s"), Some("9".to_string()));
    assert_eq!(jar.lookup("t"), Some("2".to_string()));
    assert_eq!(jar.cookie_header(), "s=9; Path=/; t=2");
}

#[test]
fn empty_jar_header_is_empty() {
    let jar = CookieJar::new();
    assert_eq!(jar.cookie_header(), "");
}
