use rustboxd::numeric::{decimal_string, parse_i32, parse_u32, signed_string, two_digit_string};
use rustboxd::text::{
    chars_of, contains, is_whitespace, join, replace_all, same_ignoring_ascii_case,
    split, split_whitespace, string_of, to_ascii_lower, trim, trim_leading, trim_trailing,
};
use rustboxd::utils::parser::clean_text;

const SAMPLES: [&str; 24] = [
    "",
    " ",
    "a",
    "abc",
    "  padded  ",
    "\ttabs\tand\nlines\r\n",
    "a-b-c",
    "--a--b--",
    "aaa",
    "aaaa",
    "ababab",
    "/film/the-matrix/",
    "/film//film/x//",
    "https://letterboxd.com/bob/films/page/3/",
    "1,234,567",
    "1.2K",
    "\u{a0}nbsp\u{3000}",
    "h\u{e9}llo w\u{f6}rld",
    "UPPER lower MiXeD",
    "+12",
    "-12",
    "0012",
    "4294967295",
    "2147483648",
];

const PATTERNS: [&str; 8] = ["-", "a", "aa", "ab", "/", "/film/", ",", "--"];

fn c(s: &str) -> Vec<char> {
    chars_of(s)
}

#[test]
fn white_space_agrees_for_every_character() {
    for code in 0..=0x10ffffu32 {
        if let Some(ch) = char::from_u32(code) {
            assert_eq!(is_whitespace(ch), ch.is_whitespace(), "U+{:04X}", code);
        }
    }
}

#[test]
fn ascii_lower_case_agrees_for_every_character() {
    for code in 0..=0x10ffffu32 {
        if let Some(ch) = char::from_u32(code) {
            assert_eq!(to_ascii_lower(ch), ch.to_ascii_lowercase(), "U+{:04X}", code);
        }
    }
}

#[test]
fn searching_and_cutting_agree() {
    for text in SAMPLES {
        for pattern in PATTERNS {
            assert_eq!(contains(&c(text), &c(pattern)), text.contains(pattern));
            assert_eq!(
                string_of(&replace_all(&c(text), &c(pattern), &c("<>"))),
                text.replace(pattern, "<>")
            );
            let pieces: Vec<String> =
                split(&c(text), &c(pattern)).iter().map(|p| string_of(p)).collect();
            let expected: Vec<String> = text.split(pattern).map(String::from).collect();
            assert_eq!(pieces, expected, "{:?} cut at {:?}", text, pattern);
            assert_eq!(
                string_of(&trim_leading(&c(text), &c(pattern))),
                text.trim_start_matches(pattern)
            );
            assert_eq!(
                string_of(&trim_trailing(&c(text), &c(pattern))),
                text.trim_end_matches(pattern)
            );
        }
    }
}

#[test]
fn trimming_and_words_agree() {
    for text in SAMPLES {
        assert_eq!(string_of(&trim(&c(text))), text.trim());
        let words: Vec<String> = split_whitespace(&c(text)).iter().map(|w| string_of(w)).collect();
        let expected: Vec<String> = text.split_whitespace().map(String::from).collect();
        assert_eq!(words, expected);
        assert_eq!(
            string_of(&join(&split_whitespace(&c(text)), &c(" "))),
            expected.join(" ")
        );
        let cleaned = text
            .trim()
            .replace('\n', " ")
            .replace('\t', " ")
            .split_whitespace()
            .collect::<Vec<&str>>()
            .join(" ");
        assert_eq!(clean_text(text), cleaned);
    }
}

#[test]
fn comparing_without_case_agrees() {
    for a in SAMPLES {
        for b in ["ABC", "Upper Lower mixed", "H\u{c9}LLO W\u{d6}RLD", "A", ""] {
            assert_eq!(same_ignoring_ascii_case(&c(a), &c(b)), a.eq_ignore_ascii_case(b));
        }
    }
}

#[test]
fn reading_whole_numbers_agrees() {
    let more = ["+", "-", "+-1", "1+", " 1", "1 ", "00000000000000000001", "-0", "+0", "١٢٣"];
    for text in SAMPLES.iter().chain(more.iter()) {
        assert_eq!(parse_u32(&c(text)), text.parse::<u32>().ok(), "{:?}", text);
        assert_eq!(parse_i32(&c(text)), text.parse::<i32>().ok(), "{:?}", text);
    }
    for n in [0u32, 1, 9, 10, 99, 100, 65535, 65536, u32::MAX - 1, u32::MAX] {
        assert_eq!(parse_u32(&c(&n.to_string())), Some(n));
    }
    for n in [i32::MIN, i32::MIN + 1, -1, 0, 1, i32::MAX - 1, i32::MAX] {
        assert_eq!(parse_i32(&c(&n.to_string())), Some(n));
    }
}

#[test]
fn writing_numbers_agrees() {
    for n in [0u64, 1, 9, 10, 11, 99, 100, 101, 999, 1000, 4294967295, u64::MAX] {
        assert_eq!(decimal_string(n), n.to_string());
    }
    for n in [0u32, 1, 9, 10, 11, 99, 100, 1234, u32::MAX] {
        assert_eq!(two_digit_string(n), format!("{:02}", n));
    }
    for n in [i32::MIN, -1000, -10, -9, -1, 0, 1, 9, 10, 1000, i32::MAX] {
        assert_eq!(signed_string(n), n.to_string());
    }
}
