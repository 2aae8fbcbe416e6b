//! The JSON fragment: escaping, numerals, and the decimal parser.

use timebank::json::{append_dec, append_json_string, parse_u32};

fn encoded(s: &str) -> String {
    let mut out = String::new();
    append_json_string(&mut out, s);
    out
}

#[test]
fn plain_text_is_quoted() {
    assert_eq!(encoded("tutoring"), "\"tutoring\"");
    assert_eq!(encoded(""), "\"\"");
}

#[test]
fn escaping_matches_the_reference_encoder() {
    let samples = [
        "plain",
        "with \"quotes\"",
        "back\\slash",
        "line\nbreak\r\ttab",
        "control \u{1} \u{8} \u{c} \u{1f} chars",
        "unicode \u{e9}\u{4e16}\u{754c} stays",
        "{\"nested\":\"json\"}",
    ];
    for s in samples {
        assert_eq!(encoded(s), serde_json::to_string(s).unwrap());
    }
}

#[test]
fn decimal_numerals_are_exact() {
    let cases: [(u64, &str); 6] = [
        (0, "0"),
        (7, "7"),
        (10, "10"),
        (12345, "12345"),
        (4294967295, "4294967295"),
        (u64::MAX, "18446744073709551615"),
    ];
    for (n, expect) in cases {
        let mut out = String::new();
        append_dec(&mut out, n);
        assert_eq!(out, expect);
    }
}

#[test]
fn decimal_parse_accepts_exactly_the_fitting_numerals() {
    assert_eq!(parse_u32("0"), Some(0));
    assert_eq!(parse_u32("25"), Some(25));
    assert_eq!(parse_u32("007"), Some(7));
    assert_eq!(parse_u32("4294967295"), Some(4294967295));
    assert_eq!(parse_u32("4294967296"), None);
    assert_eq!(parse_u32("99999999999999999999"), None);
    assert_eq!(parse_u32(""), None);
    assert_eq!(parse_u32("12a"), None);
    assert_eq!(parse_u32("-1"), None);
    assert_eq!(parse_u32(" 1"), None);
}

#[test]
fn success_statuses_are_the_two_hundreds() {
    assert!(!timebank::is_success_status(199));
    assert!(timebank::is_success_status(200));
    assert!(timebank::is_success_status(204));
    assert!(timebank::is_success_status(299));
    assert!(!timebank::is_success_status(300));
    assert!(!timebank::is_success_status(404));
}
