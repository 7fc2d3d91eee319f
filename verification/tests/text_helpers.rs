use azdocli::text::{join_with, parse_i32, str_eq, str_starts_with};

#[test]
fn str_eq_compares_by_characters() {
    assert!(str_eq("", ""));
    assert!(str_eq("alpha", "alpha"));
    assert!(!str_eq("alpha", "alphb"));
    assert!(!str_eq("alpha", "alph"));
    assert!(str_eq("héllo", "héllo"));
}

#[test]
fn str_starts_with_checks_prefixes() {
    assert!(str_starts_with("refs/heads/main", "refs/heads/"));
    assert!(str_starts_with("anything", ""));
    assert!(!str_starts_with("refs/tags/v1", "refs/heads/"));
    assert!(!str_starts_with("re", "refs/"));
}

#[test]
fn join_with_separates_entries() {
    let empty: Vec<String> = Vec::new();
    assert_eq!(join_with(&empty, ", "), "");
    assert_eq!(join_with(&vec!["one".to_string()], ", "), "one");
    assert_eq!(
        join_with(&vec!["one".to_string(), "two".to_string(), "three".to_string()], ", "),
        "one, two, three"
    );
}

#[test]
fn parse_i32_accepts_plain_and_signed_numbers() {
    assert_eq!(parse_i32("0"), Some(0));
    assert_eq!(parse_i32("42"), Some(42));
    assert_eq!(parse_i32("+7"), Some(7));
    assert_eq!(parse_i32("-13"), Some(-13));
    assert_eq!(parse_i32("0012"), Some(12));
    assert_eq!(parse_i32("2147483647"), Some(i32::MAX));
    assert_eq!(parse_i32("-2147483648"), Some(i32::MIN));
}

#[test]
fn parse_i32_rejects_malformed_and_out_of_range_input() {
    assert_eq!(parse_i32(""), None);
    assert_eq!(parse_i32("-"), None);
    assert_eq!(parse_i32("+"), None);
    assert_eq!(parse_i32("12a"), None);
    assert_eq!(parse_i32("a12"), None);
    assert_eq!(parse_i32("1 2"), None);
    assert_eq!(parse_i32("2147483648"), None);
    assert_eq!(parse_i32("-2147483649"), None);
    assert_eq!(parse_i32("99999999999999999999"), None);
}

#[test]
fn parse_i32_agrees_with_the_standard_parser() {
    let cases = ["0", "42", "+7", "-13", "0012", "2147483647", "-2147483648", "", "-", "x", "2147483648"];
    for case in cases {
        assert_eq!(parse_i32(case), case.parse::<i32>().ok(), "case {case:?}");
    }
}
