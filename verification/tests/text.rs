use nixpr::text::{
    char_is_whitespace, chars_of, contains_chars, equal_ignoring_ascii_case, find_char,
    matches_at, push_decimal, starts_with_chars,
};

fn chars(s: &str) -> Vec<char> {
    s.chars().collect()
}

fn decimal_of(n: u64) -> String {
    let mut out = String::new();
    push_decimal(&mut out, n);
    out
}

#[test]
fn whitespace_is_the_unicode_property() {
    for code in 0..=0x10ffffu32 {
        if let Some(c) = char::from_u32(code) {
            assert_eq!(char_is_whitespace(c), c.is_whitespace(), "U+{:04X}", code);
        }
    }
}

#[test]
fn chars_of_gives_the_characters() {
    assert_eq!(chars_of(""), Vec::<char>::new());
    assert_eq!(chars_of("aé→"), vec!['a', 'é', '→']);
}

#[test]
fn find_char_gives_the_first_position() {
    assert_eq!(find_char(&chars("a:b:c"), ':'), Some(1));
    assert_eq!(find_char(&chars(":"), ':'), Some(0));
    assert_eq!(find_char(&chars("é:"), ':'), Some(1));
    assert_eq!(find_char(&chars("abc"), ':'), None);
    assert_eq!(find_char(&chars(""), ':'), None);
}

#[test]
fn contains_and_starts_with_agree_with_std() {
    let hays = ["", "a", "ab", "abab", "init at", "xinit at", "->", "a->b", "aaa"];
    let needles = ["", "a", "b", "ab", "ba", "init at", "->", "aa", "aaaa"];
    for hay in hays {
        for needle in needles {
            assert_eq!(
                contains_chars(&chars(hay), &chars(needle)),
                hay.contains(needle),
                "{:?} {:?}",
                hay,
                needle
            );
            assert_eq!(
                starts_with_chars(&chars(hay), &chars(needle)),
                hay.starts_with(needle),
                "{:?} {:?}",
                hay,
                needle
            );
        }
    }
}

#[test]
fn matches_at_checks_one_offset() {
    let hay = chars("abcabc");
    assert!(matches_at(&hay, &chars("bc"), 1));
    assert!(matches_at(&hay, &chars("bc"), 4));
    assert!(!matches_at(&hay, &chars("bc"), 0));
    assert!(!matches_at(&hay, &chars("bc"), 5));
    assert!(!matches_at(&hay, &chars("bc"), usize::MAX));
    assert!(matches_at(&hay, &chars(""), 6));
    assert!(!matches_at(&hay, &chars(""), 7));
}

#[test]
fn ascii_case_is_ignored_and_nothing_else() {
    assert!(equal_ignoring_ascii_case("r-ryantm", "R-RyanTM"));
    assert!(equal_ignoring_ascii_case("", ""));
    assert!(equal_ignoring_ascii_case("Z[", "z["));
    assert!(!equal_ignoring_ascii_case("@", "`"));
    assert!(!equal_ignoring_ascii_case("[", "{"));
    assert!(!equal_ignoring_ascii_case("a", "ab"));
    assert!(!equal_ignoring_ascii_case("É", "é"));
    assert!(equal_ignoring_ascii_case("É", "É"));
    for a in ["abc", "ABC", "aBc", "ab", "äbc", "ÄBC", "k", "\u{212a}"] {
        for b in ["abc", "ABC", "aBc", "ab", "äbc", "ÄBC", "k", "\u{212a}"] {
            assert_eq!(equal_ignoring_ascii_case(a, b), a.eq_ignore_ascii_case(b));
        }
    }
}

#[test]
fn decimal_numerals() {
    assert_eq!(decimal_of(0), "0");
    assert_eq!(decimal_of(9), "9");
    assert_eq!(decimal_of(10), "10");
    assert_eq!(decimal_of(1234567890), "1234567890");
    assert_eq!(decimal_of(u64::MAX), "18446744073709551615");
    let mut out = String::from("pr=");
    push_decimal(&mut out, 507);
    assert_eq!(out, "pr=507");
}
