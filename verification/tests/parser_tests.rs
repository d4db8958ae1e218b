use scraper::Html;
use rustboxd::utils::parser::{
    clean_text, extract_and_convert_shorthand, extract_film_slug, extract_numeric_text,
    extract_user_slug, get_body_content, get_meta_content, month_to_index, parse_iso_date,
    parse_rating, parse_runtime, parse_shorthand_count, parse_written_date, try_parse,
};
use rustboxd::Error;

#[test]
fn shorthand_counts_ignore_commas_and_white_space() {
    assert_eq!(extract_and_convert_shorthand("1,500"), 1500);
    assert_eq!(extract_and_convert_shorthand("  6.3K  "), 6300);
    assert_eq!(extract_and_convert_shorthand("1,234.5K"), 1234500);
    assert_eq!(extract_and_convert_shorthand("0"), 0);
    assert_eq!(extract_and_convert_shorthand(""), 0);
}

#[test]
fn shorthand_counts_cut_off_below_one() {
    assert_eq!(extract_and_convert_shorthand("1.2345K"), 1234);
    assert_eq!(extract_and_convert_shorthand("1.9999K"), 1999);
    assert_eq!(extract_and_convert_shorthand("0.0004K"), 0);
    assert_eq!(extract_and_convert_shorthand("1.2345678M"), 1234567);
    assert_eq!(extract_and_convert_shorthand(".5K"), 500);
    assert_eq!(extract_and_convert_shorthand("5.K"), 5000);
}

#[test]
fn shorthand_counts_stay_in_range() {
    assert_eq!(extract_and_convert_shorthand("5000000K"), u32::MAX);
    assert_eq!(extract_and_convert_shorthand("99999M"), u32::MAX);
    assert_eq!(extract_and_convert_shorthand("4294967295"), u32::MAX);
    assert_eq!(extract_and_convert_shorthand("4294967296"), 0);
    assert_eq!(extract_and_convert_shorthand("-1K"), 0);
    assert_eq!(extract_and_convert_shorthand("+2K"), 2000);
}

#[test]
fn shorthand_counts_of_other_texts_are_zero() {
    assert_eq!(extract_and_convert_shorthand("K"), 0);
    assert_eq!(extract_and_convert_shorthand("1.2.3K"), 0);
    assert_eq!(extract_and_convert_shorthand("1.2 K"), 0);
    assert_eq!(extract_and_convert_shorthand("1.2k"), 0);
    assert_eq!(extract_and_convert_shorthand("12 34"), 0);
    // A K decides before an M does.
    assert_eq!(extract_and_convert_shorthand("1MK"), 0);
}

#[test]
fn numeric_text_keeps_digits_only() {
    assert_eq!(extract_numeric_text("142 mins"), Some(142));
    assert_eq!(extract_numeric_text("1a2b3"), Some(123));
    assert_eq!(extract_numeric_text("abc"), None);
    assert_eq!(extract_numeric_text(""), None);
    assert_eq!(extract_numeric_text("99999999999"), None);
}

#[test]
fn iso_dates() {
    assert_eq!(parse_iso_date("2025-01-31").unwrap(), (2025, 1, 31));
    assert_eq!(parse_iso_date("2025-01-31T12:00:00Z").unwrap(), (2025, 1, 31));
    assert_eq!(parse_iso_date("2025-13-99").unwrap(), (2025, 13, 99));
}

#[test]
fn iso_date_errors_name_the_part() {
    let format = parse_iso_date("2025-01").unwrap_err();
    assert!(matches!(&format, Error::Parse(d) if d == "Invalid ISO date format: 2025-01"));
    assert_eq!(format.message(), "Parsing error: Invalid ISO date format: 2025-01");
    let year = parse_iso_date("x-01-02").unwrap_err();
    assert!(matches!(&year, Error::Parse(d) if d == "Invalid year in date: x-01-02"));
    let month = parse_iso_date("2025-x-02").unwrap_err();
    assert!(matches!(&month, Error::Parse(d) if d == "Invalid month in date: 2025-x-02"));
    let day = parse_iso_date("2025-01-x").unwrap_err();
    assert!(matches!(&day, Error::Parse(d) if d == "Invalid day in date: 2025-01-x"));
    assert!(parse_iso_date("").is_err());
    assert!(parse_iso_date("-2025-01-02").is_err());
}

#[test]
fn written_dates() {
    assert_eq!(parse_written_date("01 Jan 2025").unwrap(), (2025, 1, 1));
    assert_eq!(parse_written_date("  15   mar \t 2024 ").unwrap(), (2024, 3, 15));
    assert_eq!(parse_written_date("31 DEC 1999").unwrap(), (1999, 12, 31));
}

#[test]
fn written_date_errors_name_the_part() {
    let format = parse_written_date("Jan 2025").unwrap_err();
    assert!(matches!(&format, Error::Parse(d) if d == "Invalid written date format: Jan 2025"));
    let day = parse_written_date("xx Jan 2025").unwrap_err();
    assert!(matches!(&day, Error::Parse(d) if d == "Invalid day in date: xx Jan 2025"));
    let month = parse_written_date("01 Foo 2025").unwrap_err();
    assert!(matches!(&month, Error::Parse(d) if d == "Invalid month in date: 01 Foo 2025"));
    let year = parse_written_date("01 Jan year").unwrap_err();
    assert!(matches!(&year, Error::Parse(d) if d == "Invalid year in date: 01 Jan year"));
}

#[test]
fn months_by_abbreviation() {
    assert_eq!(month_to_index("Jan"), Some(1));
    assert_eq!(month_to_index("jun"), Some(6));
    assert_eq!(month_to_index("DEC"), Some(12));
    assert_eq!(month_to_index("January"), None);
    assert_eq!(month_to_index(""), None);
}

#[test]
fn runtimes() {
    assert_eq!(parse_runtime("142 mins"), Some(142));
    assert_eq!(parse_runtime("  95 MIN "), Some(95));
    assert_eq!(parse_runtime("2h 22m"), Some(142));
    assert_eq!(parse_runtime("2H 5M"), Some(125));
    assert_eq!(parse_runtime("2:22"), Some(142));
    assert_eq!(parse_runtime("0:45"), Some(45));
    assert_eq!(parse_runtime("soon"), None);
    assert_eq!(parse_runtime("142"), None);
    assert_eq!(parse_runtime("1:2:3"), None);
    assert_eq!(parse_runtime("h m"), Some(0));
}

#[test]
fn runtimes_beyond_the_range_are_none() {
    assert_eq!(parse_runtime("4294967295:00"), None);
    assert_eq!(parse_runtime("71582788:15"), Some(4294967295));
    assert_eq!(parse_runtime("71582788:16"), None);
}

#[test]
fn clean_text_joins_words_with_one_space() {
    assert_eq!(clean_text("  hello \n\t world  "), "hello world");
    assert_eq!(clean_text("one"), "one");
    assert_eq!(clean_text(" \n "), "");
    assert_eq!(clean_text("a\u{a0}b"), "a b");
}

#[test]
fn film_slugs_in_addresses() {
    assert_eq!(
        extract_film_slug("https://letterboxd.com/film/the-matrix/"),
        Some("the-matrix".to_string())
    );
    assert_eq!(extract_film_slug("/film/heat/reviews/"), Some("heat".to_string()));
    assert_eq!(extract_film_slug("/film/heat"), Some("heat".to_string()));
    assert_eq!(extract_film_slug("https://letterboxd.com/film/"), None);
    assert_eq!(extract_film_slug("https://letterboxd.com/bob/"), None);
}

#[test]
fn user_slugs_in_addresses() {
    assert_eq!(extract_user_slug("https://letterboxd.com/bob/"), Some("bob".to_string()));
    assert_eq!(extract_user_slug("https://letterboxd.com/bob"), Some("bob".to_string()));
    assert_eq!(extract_user_slug("https://letterboxd.com/bob/films/"), Some("bob".to_string()));
    assert_eq!(extract_user_slug("https://example.com/bob/"), None);
    assert_eq!(extract_user_slug("https://letterboxd.com/"), None);
}

#[test]
fn meta_and_body_content() {
    let dom = Html::parse_document(
        "<html><head><meta property='og:title' content='Heat'>\
         <meta name='description' content='A film'></head>\
         <body data-owner='bob'><p>x</p></body></html>",
    );
    assert_eq!(get_meta_content(&dom, Some("og:title"), None), Some("Heat".to_string()));
    assert_eq!(get_meta_content(&dom, None, Some("description")), Some("A film".to_string()));
    assert_eq!(
        get_meta_content(&dom, Some("og:title"), Some("description")),
        Some("Heat".to_string())
    );
    assert_eq!(get_meta_content(&dom, Some("og:image"), None), None);
    assert_eq!(get_meta_content(&dom, None, None), None);
    assert_eq!(get_body_content(&dom, "data-owner"), Some("bob".to_string()));
    assert_eq!(get_body_content(&dom, "data-missing"), None);
}

#[test]
fn try_parse_reads_numbers() {
    assert_eq!(try_parse::<u32>("42"), Some(42));
    assert_eq!(try_parse::<i32>("-7"), Some(-7));
    assert_eq!(try_parse::<u32>("x"), None);
}

#[test]
fn ratings_from_text() {
    assert_eq!(parse_rating("4.2"), Some(420));
    assert_eq!(parse_rating(" 3.5 "), Some(350));
    assert_eq!(parse_rating("5"), Some(500));
    assert_eq!(parse_rating("5.01"), None);
    assert_eq!(parse_rating("4.2/5"), Some(420));
    assert_eq!(parse_rating("8.4/10"), Some(420));
    assert_eq!(parse_rating("1/3"), Some(166));
    assert_eq!(parse_rating("7/5"), Some(700));
    assert_eq!(parse_rating("4/0"), None);
    assert_eq!(parse_rating("4/5/6"), None);
    assert_eq!(parse_rating("x/5"), None);
    assert_eq!(parse_rating("\u{2605}\u{2605}\u{2605}\u{2605}\u{2606}"), None);
    assert_eq!(parse_rating("\u{2605}4.5\u{2606}"), Some(450));
    assert_eq!(parse_rating("good"), None);
    assert_eq!(parse_rating(""), None);
    assert_eq!(parse_rating("-1"), Some(0));
}

#[test]
fn shorthand_counts_under_either_name() {
    assert_eq!(parse_shorthand_count("1.2K"), 1200);
    assert_eq!(parse_shorthand_count("500"), 500);
    assert_eq!(parse_shorthand_count("2.5M"), 2500000);
    assert_eq!(parse_shorthand_count("invalid"), 0);
    for text in ["3.4K", "12", "x", "", "7M", "1,000"] {
        assert_eq!(parse_shorthand_count(text), extract_and_convert_shorthand(text));
    }
}
