use motorbot::storage::parse_u64;
use motorbot::text::{contains_text, join, replace_all, split, starts_with, trim, u64_to_text, i64_to_text};

fn cs(s: &str) -> Vec<char> {
    s.chars().collect()
}

fn st(v: &[char]) -> String {
    v.iter().collect()
}

#[test]
fn numbers_are_written_in_decimal() {
    assert_eq!(u64_to_text(0), "0");
    assert_eq!(u64_to_text(1494772872500088913), "1494772872500088913");
    assert_eq!(u64_to_text(u64::MAX), "18446744073709551615");
    assert_eq!(i64_to_text(-7), "-7");
    assert_eq!(i64_to_text(i64::MIN), "-9223372036854775808");
}

#[test]
fn numbers_parse_as_std_parses_them() {
    for s in ["0", "42", "+42", "-1", "", "+", "4 2", "18446744073709551615", "18446744073709551616", "٣"] {
        assert_eq!(parse_u64(&cs(s)), s.parse::<u64>().ok(), "{:?}", s);
    }
}

#[test]
fn trim_removes_unicode_whitespace() {
    for s in ["  a b \t", "\u{3000}x\u{85}", "", "   ", "\u{200B}y"] {
        assert_eq!(st(&trim(&cs(s))), s.trim(), "{:?}", s);
    }
}

#[test]
fn split_and_join() {
    for s in ["a,b", "", ",", "a,,b,", "abc"] {
        let pieces: Vec<String> = split(&cs(s), ',').iter().map(|p| st(p)).collect();
        let expected: Vec<String> = s.split(',').map(|p| p.to_string()).collect();
        assert_eq!(pieces, expected);
    }
    let joined = join(&vec![cs("1"), cs("22"), cs("")], &cs(", "));
    assert_eq!(st(&joined), "1, 22, ");
}

#[test]
fn replace_as_std_replaces() {
    for (s, f, t) in [("aaa", "aa", "b"), ("ab", "", "x"), ("", "", "x"), ("[b]x[/b]", "[b]", "**"), ("abc", "z", "y")] {
        assert_eq!(st(&replace_all(&cs(s), &cs(f), &cs(t))), s.replace(f, t), "{:?}", (s, f, t));
    }
}

#[test]
fn prefixes_and_substrings() {
    assert!(starts_with("https://x", "http"));
    assert!(!starts_with("htt", "http"));
    assert!(starts_with("x", ""));
    assert!(contains_text("abc", ""));
    assert!(contains_text("a kys b", "kys"));
    assert!(!contains_text("ky", "kys"));
}
