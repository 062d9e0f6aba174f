use event_collector::text::{chars_of, contains, eq_ignore_ascii_case, parse_u16, push_i64, strip_prefix};

#[test]
fn contains_finds_substrings() {
    assert!(contains("error: UNIQUE constraint failed: destinations", "UNIQUE constraint failed"));
    assert!(contains("abc", ""));
    assert!(contains("abc", "abc"));
    assert!(contains("abc", "c"));
    assert!(!contains("abc", "abcd"));
    assert!(!contains("NOT NULL constraint", "NOT NULL constraint failed"));
    assert!(!contains("", "a"));
}

#[test]
fn contains_handles_non_ascii() {
    assert!(contains("falha ção UNIQUE", "ção"));
    assert!(!contains("falha ção", "cão"));
}

#[test]
fn strip_prefix_returns_rest() {
    assert_eq!(strip_prefix("--host=0.0.0.0", "--host="), Some("0.0.0.0"));
    assert_eq!(strip_prefix("--host=", "--host="), Some(""));
    assert_eq!(strip_prefix("--hos", "--host="), None);
    assert_eq!(strip_prefix("--port=1", "--host="), None);
}

#[test]
fn eq_ignore_ascii_case_matches_std() {
    for (a, b) in [("localhost", "LocalHost"), ("LOCALHOST", "localhost"), ("localhos", "localhost"), ("ÉA", "éa"), ("a1", "A1")] {
        assert_eq!(eq_ignore_ascii_case(a, b), a.eq_ignore_ascii_case(b), "{} {}", a, b);
    }
}

#[test]
fn decimal_of_i64() {
    for n in [0i64, 7, -7, 42, 1000, -1000, i64::MAX, i64::MIN] {
        let mut s = String::from("ID ");
        push_i64(&mut s, n);
        assert_eq!(s, format!("ID {}", n));
    }
}

#[test]
fn parse_u16_matches_std() {
    for s in ["0", "80", "+80", "65535", "65536", "", "+", "-", "-1", "08080", "12a", " 1", "1 ", "99999999999", "٣"] {
        assert_eq!(parse_u16(s), s.parse::<u16>().ok(), "{:?}", s);
    }
}

#[test]
fn chars_of_keeps_order() {
    assert_eq!(chars_of("aé1"), vec!['a', 'é', '1']);
}
