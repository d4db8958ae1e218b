use rustboxd::numeric::{
    decimal_string, parse_i32, parse_scaled, parse_u32, signed_string, two_digit_string,
};
use rustboxd::text::{
    chars_of, chain, contains, find_from, is_whitespace, join, replace_all, same,
    same_ignoring_ascii_case, slice_of, split, split_whitespace, string_of, to_ascii_lower, trim,
    trim_leading, trim_trailing,
};

fn c(s: &str) -> Vec<char> {
    chars_of(s)
}

fn s(v: &[char]) -> String {
    string_of(&v.to_vec())
}

#[test]
fn strings_and_characters_convert_both_ways() {
    assert_eq!(chars_of("h\u{e9}llo"), vec!['h', '\u{e9}', 'l', 'l', 'o']);
    assert_eq!(string_of(&vec!['h', '\u{e9}', 'y']), "h\u{e9}y");
    assert_eq!(string_of(&vec![]), "");
    assert!(chars_of("").is_empty());
    assert_eq!(chain("ab", "cd"), "abcd");
    assert_eq!(chain("", ""), "");
}

#[test]
fn finding_a_pattern() {
    assert_eq!(find_from(&c("abcabc"), &c("bc"), 0), Some(1));
    assert_eq!(find_from(&c("abcabc"), &c("bc"), 2), Some(4));
    assert_eq!(find_from(&c("abcabc"), &c("bc"), 5), None);
    assert_eq!(find_from(&c("abc"), &c(""), 1), Some(1));
    assert_eq!(find_from(&c("abc"), &c(""), 3), Some(3));
    assert_eq!(find_from(&c("abc"), &c(""), 4), None);
    assert_eq!(find_from(&c("ab"), &c("abc"), 0), None);
    assert!(contains(&c("hello"), &c("ell")));
    assert!(!contains(&c("hello"), &c("elo")));
    assert!(contains(&c(""), &c("")));
}

#[test]
fn replacing_goes_from_the_left_without_overlap() {
    assert_eq!(s(&replace_all(&c("aaa"), &c("aa"), &c("b"))), "ba");
    assert_eq!(s(&replace_all(&c("a,b,,c"), &c(","), &c(""))), "abc");
    assert_eq!(s(&replace_all(&c("abc"), &c("x"), &c("y"))), "abc");
    assert_eq!(s(&replace_all(&c("abc"), &c(""), &c("y"))), "abc");
    assert_eq!(s(&replace_all(&c("/film/x/film/"), &c("/film/"), &c("/ajax/film/"))), "/ajax/film/x/ajax/film/");
}

#[test]
fn splitting_gives_one_piece_more_than_there_are_cuts() {
    let parts = |text: &str, pat: &str| -> Vec<String> {
        split(&c(text), &c(pat)).iter().map(|p| string_of(p)).collect()
    };
    assert_eq!(parts("a-b-c", "-"), vec!["a", "b", "c"]);
    assert_eq!(parts("-a--", "-"), vec!["", "a", "", ""]);
    assert_eq!(parts("", "-"), vec![""]);
    assert_eq!(parts("abc", "-"), vec!["abc"]);
    assert_eq!(parts("abc", ""), vec!["abc"]);
    assert_eq!(parts("aaa", "aa"), vec!["", "a"]);
}

#[test]
fn trimming() {
    assert_eq!(s(&trim(&c("  a b \n"))), "a b");
    assert_eq!(s(&trim(&c(" \t "))), "");
    assert_eq!(s(&trim(&c("\u{a0}x\u{3000}"))), "x");
    assert_eq!(s(&trim_leading(&c("//a/"), &c("/"))), "a/");
    assert_eq!(s(&trim_leading(&c("ababa"), &c("ab"))), "a");
    assert_eq!(s(&trim_leading(&c("abc"), &c(""))), "abc");
    assert_eq!(s(&trim_trailing(&c("/a//"), &c("/"))), "/a");
    assert_eq!(s(&trim_trailing(&c("///"), &c("/"))), "");
    assert_eq!(s(&slice_of(&c("hello"), 1, 3)), "el");
}

#[test]
fn white_space() {
    for ch in [' ', '\t', '\n', '\r', '\u{b}', '\u{c}', '\u{85}', '\u{a0}', '\u{2003}', '\u{3000}'] {
        assert!(is_whitespace(ch));
        assert_eq!(is_whitespace(ch), ch.is_whitespace());
    }
    for ch in ['a', '0', '-', '\u{200b}', '\u{feff}'] {
        assert!(!is_whitespace(ch));
        assert_eq!(is_whitespace(ch), ch.is_whitespace());
    }
}

#[test]
fn words_and_joining() {
    let words: Vec<String> =
        split_whitespace(&c("  one two\n\nthree ")).iter().map(|w| string_of(w)).collect();
    assert_eq!(words, vec!["one", "two", "three"]);
    assert!(split_whitespace(&c("   ")).is_empty());
    assert_eq!(s(&join(&vec![c("a"), c("b"), c("c")], &c(", "))), "a, b, c");
    assert_eq!(s(&join(&vec![c("a")], &c(", "))), "a");
    assert_eq!(s(&join(&vec![], &c(", "))), "");
}

#[test]
fn comparing() {
    assert!(same(&c("abc"), &c("abc")));
    assert!(!same(&c("abc"), &c("abd")));
    assert!(!same(&c("abc"), &c("ab")));
    assert!(same_ignoring_ascii_case(&c("JaN"), &c("jAn")));
    assert!(!same_ignoring_ascii_case(&c("Jan"), &c("Jun")));
    assert!(!same_ignoring_ascii_case(&c("\u{c9}"), &c("\u{e9}")));
    assert_eq!(to_ascii_lower('A'), 'a');
    assert_eq!(to_ascii_lower('Z'), 'z');
    assert_eq!(to_ascii_lower('a'), 'a');
    assert_eq!(to_ascii_lower('['), '[');
    assert_eq!(to_ascii_lower('@'), '@');
}

#[test]
fn whole_numbers_from_text() {
    assert_eq!(parse_u32(&c("0")), Some(0));
    assert_eq!(parse_u32(&c("007")), Some(7));
    assert_eq!(parse_u32(&c("+7")), Some(7));
    assert_eq!(parse_u32(&c("4294967295")), Some(u32::MAX));
    assert_eq!(parse_u32(&c("4294967296")), None);
    assert_eq!(parse_u32(&c("-1")), None);
    assert_eq!(parse_u32(&c("")), None);
    assert_eq!(parse_u32(&c("+")), None);
    assert_eq!(parse_u32(&c("1 ")), None);
    assert_eq!(parse_i32(&c("-2147483648")), Some(i32::MIN));
    assert_eq!(parse_i32(&c("2147483647")), Some(i32::MAX));
    assert_eq!(parse_i32(&c("2147483648")), None);
    assert_eq!(parse_i32(&c("-2147483649")), None);
    assert_eq!(parse_i32(&c("-0")), Some(0));
    assert_eq!(parse_i32(&c("+12")), Some(12));
    assert_eq!(parse_i32(&c("-")), None);
    assert_eq!(parse_i32(&c("--1")), None);
}

#[test]
fn decimal_numbers_from_text() {
    assert_eq!(parse_scaled(&c("1.2"), 3), Some(1200));
    assert_eq!(parse_scaled(&c("1.2"), 0), Some(1));
    assert_eq!(parse_scaled(&c("0.999"), 2), Some(99));
    assert_eq!(parse_scaled(&c("12"), 2), Some(1200));
    assert_eq!(parse_scaled(&c("."), 2), None);
    assert_eq!(parse_scaled(&c(""), 2), None);
    assert_eq!(parse_scaled(&c("+"), 2), None);
    assert_eq!(parse_scaled(&c("1e3"), 2), None);
    assert_eq!(parse_scaled(&c("-3.5"), 2), Some(0));
    assert_eq!(parse_scaled(&c("42949672.95"), 2), Some(u32::MAX));
    assert_eq!(parse_scaled(&c("42949672.96"), 2), Some(u32::MAX));
    assert_eq!(parse_scaled(&c("42949672.94"), 2), Some(4294967294));
}

#[test]
fn numbers_as_text() {
    assert_eq!(decimal_string(0), "0");
    assert_eq!(decimal_string(1203), "1203");
    assert_eq!(decimal_string(u64::MAX), "18446744073709551615");
    assert_eq!(two_digit_string(0), "00");
    assert_eq!(two_digit_string(7), "07");
    assert_eq!(two_digit_string(10), "10");
    assert_eq!(two_digit_string(123), "123");
    assert_eq!(signed_string(0), "0");
    assert_eq!(signed_string(-45), "-45");
    assert_eq!(signed_string(i32::MIN), "-2147483648");
    assert_eq!(signed_string(i32::MAX), "2147483647");
}
