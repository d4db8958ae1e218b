use rustboxd::common::constants::SEARCH_FILTERS;

#[test]
fn test_invalid_search_filter() {
    // Test that invalid search filters are rejected at compile time or runtime
    // This test doesn't need to make network requests
    let valid_filters = ["films", "reviews", "lists", "members"];

    for filter in valid_filters {
        // These should be valid
        assert!(SEARCH_FILTERS.contains(&filter));
    }
}
