use rustboxd::utils::validators::{
    regex_is_match,
    clean_and_validate_text, is_safe_text, is_valid_day, is_valid_email, is_valid_film_slug,
    is_valid_genre, is_valid_letterboxd_url, is_valid_list_slug, is_valid_month,
    is_valid_rating, is_valid_search_filter, is_valid_url, is_valid_username, is_valid_year,
    normalize_rating, sanitize_for_url,
};

/// A rating in stars as the library counts it, in hundredths of a star.
fn stars(rating: f32) -> u32 {
    (rating * 100.0).round() as u32
}

#[test]
fn validators_test_username_validation() {
    assert!(is_valid_username("testuser"));
    assert!(is_valid_username("test_user"));
    assert!(is_valid_username("test123"));
    assert!(!is_valid_username("test-user")); // hyphen not allowed
    assert!(!is_valid_username("test user")); // space not allowed
    assert!(!is_valid_username(""));
}

#[test]
fn validators_test_rating_validation() {
    assert!(is_valid_rating(stars(4.5)));
    assert!(is_valid_rating(stars(5.0)));
    assert!(is_valid_rating(stars(0.5)));
    assert!(!is_valid_rating(stars(4.3))); // not in 0.5 increments
    assert!(!is_valid_rating(stars(5.5))); // too high
}

#[test]
fn ratings_in_hundredths_of_a_star() {
    assert!(!is_valid_rating(0));
    assert!(!is_valid_rating(49));
    assert!(is_valid_rating(50));
    assert!(is_valid_rating(100));
    assert!(!is_valid_rating(125));
    assert!(is_valid_rating(500));
    assert!(!is_valid_rating(550));
    assert!(!is_valid_rating(u32::MAX));
}

#[test]
fn ratings_are_normalized_to_the_nearest_half_star() {
    assert_eq!(normalize_rating(430), Some(450));
    assert_eq!(normalize_rating(420), Some(400));
    assert_eq!(normalize_rating(425), Some(450));
    assert_eq!(normalize_rating(424), Some(400));
    assert_eq!(normalize_rating(500), Some(500));
    assert_eq!(normalize_rating(501), None);
    assert_eq!(normalize_rating(25), Some(50));
    assert_eq!(normalize_rating(24), None);
    assert_eq!(normalize_rating(0), None);
    assert_eq!(normalize_rating(u32::MAX), None);
}

#[test]
fn test_year_validation() {
    assert!(is_valid_year(2023));
    assert!(is_valid_year(1925));
    assert!(!is_valid_year(1800)); // too early
    assert!(!is_valid_year(2050)); // too late
}

#[test]
fn test_sanitize_for_url() {
    assert_eq!(sanitize_for_url("The Matrix"), "the-matrix");
    assert_eq!(sanitize_for_url("Spider-Man: No Way Home"), "spider-man-no-way-home");
    assert_eq!(sanitize_for_url("2001: A Space Odyssey"), "2001-a-space-odyssey");
}

#[test]
fn username_length_limit_counts_bytes() {
    let fifty = "a".repeat(50);
    let fifty_one = "a".repeat(51);
    assert!(is_valid_username(&fifty));
    assert!(!is_valid_username(&fifty_one));
}

#[test]
fn year_range_has_inclusive_ends() {
    assert!(is_valid_year(1888));
    assert!(!is_valid_year(1887));
    assert!(is_valid_year(2030));
    assert!(!is_valid_year(2031));
}

#[test]
fn month_and_day_ranges() {
    assert!(is_valid_month(1));
    assert!(is_valid_month(12));
    assert!(!is_valid_month(0));
    assert!(!is_valid_month(13));
    assert!(is_valid_day(1));
    assert!(is_valid_day(31));
    assert!(!is_valid_day(0));
    assert!(!is_valid_day(32));
}

#[test]
fn film_and_list_slugs() {
    assert!(is_valid_film_slug("the-matrix"));
    assert!(is_valid_film_slug("2001-a-space-odyssey"));
    assert!(!is_valid_film_slug("The-Matrix"));
    assert!(!is_valid_film_slug("the matrix"));
    assert!(!is_valid_film_slug(""));
    assert!(is_valid_film_slug(&"a".repeat(200)));
    assert!(!is_valid_film_slug(&"a".repeat(201)));
    assert!(is_valid_list_slug("best-of-2024"));
    assert!(is_valid_list_slug(&"a".repeat(100)));
    assert!(!is_valid_list_slug(&"a".repeat(101)));
    assert!(!is_valid_list_slug(""));
}

#[test]
fn genres_are_matched_in_any_case() {
    assert!(is_valid_genre("action"));
    assert!(is_valid_genre("Action"));
    assert!(is_valid_genre("SCIENCE-FICTION"));
    assert!(!is_valid_genre("science fiction"));
    assert!(!is_valid_genre(""));
}

#[test]
fn search_filters_are_matched_exactly() {
    assert!(is_valid_search_filter("films"));
    assert!(is_valid_search_filter("full-text"));
    assert!(!is_valid_search_filter("Films"));
    assert!(!is_valid_search_filter("movies"));
}

#[test]
fn site_addresses() {
    assert!(is_valid_letterboxd_url("https://letterboxd.com/film/the-matrix/"));
    assert!(is_valid_letterboxd_url("http://www.letterboxd.com/bob"));
    assert!(!is_valid_letterboxd_url("https://letterboxd.com/"));
    assert!(!is_valid_letterboxd_url("https://example.com/film/the-matrix/"));
}

#[test]
fn email_addresses() {
    assert!(is_valid_email("someone@example.com"));
    assert!(!is_valid_email("someone@example"));
    assert!(!is_valid_email("someone.example.com"));
}

#[test]
fn absolute_urls() {
    assert!(is_valid_url("https://example.com/a?b=c"));
    assert!(!is_valid_url("not a url"));
    assert!(!is_valid_url("/relative/path"));
}

#[test]
fn sanitizing_squeezes_and_trims_dashes() {
    assert_eq!(sanitize_for_url("  --Hello,   World!--  "), "hello-world");
    assert_eq!(sanitize_for_url("!!!"), "");
    assert_eq!(sanitize_for_url(""), "");
    assert_eq!(sanitize_for_url("Am\u{e9}lie"), "am\u{e9}lie");
    assert_eq!(sanitize_for_url("a_b"), "a-b");
}

#[test]
fn cleaning_text_normalises_white_space() {
    assert_eq!(clean_and_validate_text("  a   b \n c ", 20), Some("a b c".to_string()));
    assert_eq!(clean_and_validate_text("   ", 20), None);
    assert_eq!(clean_and_validate_text("", 20), None);
    assert_eq!(clean_and_validate_text("abcdef", 5), None);
    assert_eq!(clean_and_validate_text("abcde", 5), Some("abcde".to_string()));
    // The limit counts bytes: two letters of two bytes each are four bytes.
    assert_eq!(clean_and_validate_text("\u{e9}\u{e9}", 3), None);
    assert_eq!(clean_and_validate_text("\u{e9}\u{e9}", 4), Some("\u{e9}\u{e9}".to_string()));
}

#[test]
fn markup_and_script_are_not_safe() {
    assert!(is_safe_text("a perfectly fine review"));
    assert!(!is_safe_text("<script>alert(1)</script>"));
    assert!(!is_safe_text("<SCRIPT src=x>"));
    assert!(!is_safe_text("click: JavaScript:void(0)"));
    assert!(!is_safe_text("<img onerror=x>"));
    assert!(!is_safe_text("</object>"));
}

#[test]
fn a_text_that_is_no_pattern_matches_nothing() {
    assert_eq!(regex_is_match("^a+$", "aaa"), Some(true));
    assert_eq!(regex_is_match("^a+$", "aab"), Some(false));
    assert_eq!(regex_is_match("(", "("), None);
}
