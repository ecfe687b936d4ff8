use stave::text::{
    char_is_whitespace, chars_of, contains_chars, join, lex_le_chars, push_decimal, push_padded,
    split_lines_chars, string_of, trim, trim_chars,
};

fn chars(s: &str) -> Vec<char> {
    s.chars().collect()
}

#[test]
fn trim_removes_surrounding_whitespace() {
    assert_eq!(trim("  \t hello world \n").as_str(), "hello world");
    assert_eq!(trim("").as_str(), "");
    assert_eq!(trim(" \r\n\t ").as_str(), "");
    assert_eq!(trim("\u{3000}x\u{a0}").as_str(), "x");
    assert_eq!(trim_chars(&chars("  a b  ")), chars("a b"));
}

#[test]
fn whitespace_is_unicode_white_space() {
    for c in [' ', '\t', '\n', '\r', '\u{b}', '\u{c}', '\u{85}', '\u{a0}', '\u{2003}', '\u{3000}'] {
        assert!(char_is_whitespace(c));
        assert!(c.is_whitespace());
    }
    for c in ['a', '_', '\u{200b}', '0'] {
        assert!(!char_is_whitespace(c));
        assert!(!c.is_whitespace());
    }
}

#[test]
fn chars_round_trip() {
    let v = chars_of("héllo");
    assert_eq!(v, vec!['h', 'é', 'l', 'l', 'o']);
    assert_eq!(string_of(&v).as_str(), "héllo");
}

#[test]
fn contains_finds_substrings() {
    assert!(contains_chars(&chars("xterm-256color"), &chars("color")));
    assert!(contains_chars(&chars("abc"), &chars("")));
    assert!(!contains_chars(&chars("ab"), &chars("abc")));
    assert!(!contains_chars(&chars("abc"), &chars("ac")));
    assert!(contains_chars(&chars("abc"), &chars("abc")));
}

#[test]
fn lexicographic_order_matches_str_ord() {
    let words = ["", "a", "ab", "b", "B", "é", "z", "aa"];
    for x in words {
        for y in words {
            assert_eq!(lex_le_chars(&chars(x), &chars(y)), x <= y, "{} {}", x, y);
        }
    }
}

#[test]
fn decimal_digits() {
    let mut s = String::from("n=");
    push_decimal(&mut s, 0);
    assert_eq!(s, "n=0");
    let mut s = String::new();
    push_decimal(&mut s, 1907);
    assert_eq!(s, "1907");
    let mut s = String::new();
    push_decimal(&mut s, usize::MAX);
    assert_eq!(s, usize::MAX.to_string());
}

#[test]
fn padding_matches_format() {
    let mut s = String::new();
    push_padded(&mut s, "abc", 5);
    assert_eq!(s, format!("{:<5}", "abc"));
    let mut s = String::new();
    push_padded(&mut s, "abcdef", 5);
    assert_eq!(s, "abcdef");
    let mut s = String::new();
    push_padded(&mut s, "éé", 4);
    assert_eq!(s, format!("{:<4}", "éé"));
}

#[test]
fn join_puts_separator_between() {
    let parts = vec![String::from("a"), String::from("b"), String::from("c")];
    assert_eq!(join(&parts, ", "), "a, b, c");
    assert_eq!(join(&vec![String::from("x")], "--"), "x");
    assert_eq!(join(&Vec::new(), "--"), "");
}

#[test]
fn lines_split_at_newlines() {
    let l = split_lines_chars(&chars("a\nbc\n"));
    assert_eq!(l, vec![chars("a"), chars("bc"), chars("")]);
    let l = split_lines_chars(&chars(""));
    assert_eq!(l, vec![chars("")]);
}

#[test]
fn whitespace_agrees_with_std_everywhere() {
    for u in 0..=0x10FFFFu32 {
        if let Some(c) = char::from_u32(u) {
            assert_eq!(char_is_whitespace(c), c.is_whitespace(), "{:x}", u);
        }
    }
}

#[test]
fn trim_and_contains_agree_with_std() {
    let samples = ["", " ", "a", " a ", "\u{a0}x y\u{2009}", "ab ab", "\t\r\n", "xyzzy", "a\u{3000}"];
    for x in samples {
        assert_eq!(trim(x).as_str(), x.trim());
        for y in samples {
            assert_eq!(contains_chars(&chars(x), &chars(y)), x.contains(y), "{:?} {:?}", x, y);
        }
    }
}
