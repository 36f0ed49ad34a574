use ilos_proxy::handlers::decimal_text;
use ilos_proxy::text::{
    chars_of, contains, equals, find_chars, parse_u32, replace_first, split_chars, trim,
};

fn chars(s: &str) -> Vec<char> {
    s.chars().collect()
}

#[test]
fn contains_finds_substrings() {
    assert!(contains("hello world", "lo w"));
    assert!(contains("hello world", "hello world"));
    assert!(!contains("hello world", "world!"));
    assert!(!contains("", "a"));
    assert!(contains("abc", ""));
    assert!(contains("접속이 종료 되었습니다. 다시", "종료 되었습니다."));
}

#[test]
fn find_chars_is_leftmost() {
    assert_eq!(find_chars(&chars("abcabc"), &chars("bc")), Some(1));
    assert_eq!(find_chars(&chars("aaa"), &chars("aa")), Some(0));
    assert_eq!(find_chars(&chars("abc"), &chars("d")), None);
    assert_eq!(find_chars(&chars("ab"), &chars("abc")), None);
    assert_eq!(find_chars(&chars("ab"), &chars("")), Some(0));
}

#[test]
fn replace_first_replaces_only_the_leftmost() {
    assert_eq!(replace_first("/x/x/x", "/x", "/y"), "/y/x/x");
    assert_eq!(replace_first("abc", "d", "e"), "abc");
    assert_eq!(replace_first("abc", "", "x"), "xabc");
    assert_eq!(replace_first("abc", "abc", ""), "");
    assert_eq!(replace_first("/http-server/v.mp4", "/http-server", "https://h/c"), "https://h/c/v.mp4");
}

#[test]
fn replace_first_agrees_with_std() {
    for (s, from, to) in [("aXbXc", "X", "--"), ("", "", "z"), ("héllo", "é", "e"), ("xx", "x", "xx")] {
        assert_eq!(replace_first(s, from, to), s.replacen(from, to, 1));
    }
}

#[test]
fn trim_drops_unicode_white_space_at_both_ends() {
    assert_eq!(trim("  a b \n"), "a b");
    assert_eq!(trim("\u{3000}x\u{a0}"), "x");
    assert_eq!(trim(" \t\r\n "), "");
    assert_eq!(trim(""), "");
    assert_eq!(trim("x"), "x");
    assert_eq!(trim("\u{200b}x"), "\u{200b}x");
}

#[test]
fn trim_agrees_with_std() {
    for s in ["\u{85}a\u{2029}", " a\u{1680}", "\u{2000}\u{200a}b c\u{202f}", "\u{205f}", "a\u{b}"] {
        assert_eq!(trim(s), s.trim());
    }
}

#[test]
fn trim_is_idempotent() {
    for s in ["  a  ", "\u{3000}\u{3000}", "b\n", " c d "] {
        let once = trim(s);
        assert_eq!(trim(&once), once);
    }
}

#[test]
fn split_chars_splits_at_every_separator() {
    let parts: Vec<String> = split_chars(&chars("1:02::3"), ':')
        .into_iter()
        .map(|p| p.into_iter().collect())
        .collect();
    assert_eq!(parts, vec!["1", "02", "", "3"]);
    assert_eq!(split_chars(&chars(""), ':').len(), 1);
    assert_eq!(split_chars(&chars(":"), ':').len(), 2);
}

#[test]
fn parse_u32_follows_from_str() {
    assert_eq!(parse_u32(&chars("0")), Some(0));
    assert_eq!(parse_u32(&chars("+12")), Some(12));
    assert_eq!(parse_u32(&chars("007")), Some(7));
    assert_eq!(parse_u32(&chars("4294967295")), Some(u32::MAX));
    assert_eq!(parse_u32(&chars("4294967296")), None);
    assert_eq!(parse_u32(&chars("99999999999999999999")), None);
    assert_eq!(parse_u32(&chars("+")), None);
    assert_eq!(parse_u32(&chars("")), None);
    assert_eq!(parse_u32(&chars("-1")), None);
    assert_eq!(parse_u32(&chars("12a")), None);
    assert_eq!(parse_u32(&chars(" 1")), None);
    for s in ["+0", "18446744073709551616", "٣", "12", "+-1"] {
        assert_eq!(parse_u32(&chars(s)), s.parse::<u32>().ok());
    }
}

#[test]
fn decimal_text_round_trips_through_parse_u32() {
    assert_eq!(decimal_text(0), "0");
    assert_eq!(decimal_text(240), "240");
    assert_eq!(decimal_text(u32::MAX), "4294967295");
    for n in [0u32, 9, 10, 99, 100, 65535, 1_000_000, u32::MAX] {
        assert_eq!(parse_u32(&chars(&decimal_text(n))), Some(n));
    }
}

#[test]
fn equals_and_chars_of() {
    assert!(equals("/login", "/login"));
    assert!(!equals("/login", "/login/"));
    assert!(!equals("", "a"));
    assert_eq!(chars_of("가a"), vec!['가', 'a']);
}
