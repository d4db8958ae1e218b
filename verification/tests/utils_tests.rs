use rustboxd::utils::{
    extract_and_convert_shorthand, is_valid_rating, is_valid_username, sanitize_for_url,
};

/// A rating in stars as the library counts it, in hundredths of a star.
fn stars(rating: f32) -> u32 {
    (rating * 100.0).round() as u32
}

#[test]
fn utils_tests_test_username_validation() {
    assert!(is_valid_username("testuser"));
    assert!(is_valid_username("test_user"));
    assert!(is_valid_username("test123"));
    assert!(!is_valid_username("test-user")); // hyphen not allowed
    assert!(!is_valid_username("test user")); // space not allowed
    assert!(!is_valid_username(""));
}

#[test]
fn utils_tests_test_rating_validation() {
    assert!(is_valid_rating(stars(4.5)));
    assert!(is_valid_rating(stars(5.0)));
    assert!(is_valid_rating(stars(0.5)));
    assert!(!is_valid_rating(stars(4.3))); // not in 0.5 increments
    assert!(!is_valid_rating(stars(5.5))); // too high
}

#[test]
fn test_url_sanitization() {
    assert_eq!(sanitize_for_url("The Matrix"), "the-matrix");
    assert_eq!(sanitize_for_url("Spider-Man: No Way Home"), "spider-man-no-way-home");
    assert_eq!(sanitize_for_url("2001: A Space Odyssey"), "2001-a-space-odyssey");
}

#[test]
fn test_shorthand_conversion() {
    assert_eq!(extract_and_convert_shorthand("1.2K"), 1200);
    assert_eq!(extract_and_convert_shorthand("500"), 500);
    assert_eq!(extract_and_convert_shorthand("2.5M"), 2500000);
    assert_eq!(extract_and_convert_shorthand("invalid"), 0);
}
