use rustboxd::utils::transform::{
    add_page_to_url, build_diary_url, build_film_section_url, build_film_url, build_films_url,
    build_letterboxd_url, build_list_url, build_search_url, build_user_section_url, build_user_url,
    extract_page_from_url, get_ajax_url, normalize_letterboxd_url, remove_page_from_url,
};

#[test]
fn ajax_addresses() {
    assert_eq!(
        get_ajax_url("https://letterboxd.com/bob/films/"),
        "https://letterboxd.com/bob/ajax/films/"
    );
    assert_eq!(
        get_ajax_url("https://letterboxd.com/film/heat/"),
        "https://letterboxd.com/ajax/film/heat/"
    );
    assert_eq!(
        get_ajax_url("https://letterboxd.com/bob/lists/"),
        "https://letterboxd.com/bob/ajax/lists/"
    );
    assert_eq!(
        get_ajax_url("https://letterboxd.com/bob/reviews/"),
        "https://letterboxd.com/bob/ajax/reviews/"
    );
    assert_eq!(get_ajax_url("https://letterboxd.com/bob/"), "https://letterboxd.com/bob/ajax");
    assert_eq!(get_ajax_url("https://letterboxd.com/bob"), "https://letterboxd.com/bob/ajax");
}

#[test]
fn plain_addresses() {
    assert_eq!(build_letterboxd_url("/film/heat/"), "https://letterboxd.com/film/heat/");
    assert_eq!(build_letterboxd_url("film/heat/"), "https://letterboxd.com/film/heat/");
    assert_eq!(build_letterboxd_url("///x"), "https://letterboxd.com/x");
    assert_eq!(build_user_url("bob"), "https://letterboxd.com/bob/");
    assert_eq!(build_film_url("heat"), "https://letterboxd.com/film/heat/");
    assert_eq!(build_list_url("bob", "best"), "https://letterboxd.com/bob/list/best/");
    assert_eq!(build_film_section_url("heat", "crew"), "https://letterboxd.com/film/heat/crew/");
    assert_eq!(build_user_section_url("bob", "tags"), "https://letterboxd.com/bob/tags/");
}

#[test]
fn search_addresses_are_percent_encoded() {
    assert_eq!(
        build_search_url("the matrix", Some("films")),
        "https://letterboxd.com/s/search/films/the%20matrix/"
    );
    assert_eq!(build_search_url("heat", None), "https://letterboxd.com/s/search/heat/");
    assert_eq!(
        build_search_url("a/b?c=d&e", None),
        "https://letterboxd.com/s/search/a%2Fb%3Fc%3Dd%26e/"
    );
    assert_eq!(
        build_search_url("Am\u{e9}lie", None),
        "https://letterboxd.com/s/search/Am%C3%A9lie/"
    );
    assert_eq!(build_search_url("a-b_c.d~e", None), "https://letterboxd.com/s/search/a-b_c.d~e/");
}

#[test]
fn diary_addresses() {
    assert_eq!(
        build_diary_url("bob", None, None, None),
        "https://letterboxd.com/bob/films/diary/"
    );
    assert_eq!(
        build_diary_url("bob", Some(2024), None, None),
        "https://letterboxd.com/bob/films/diary/for/2024/"
    );
    assert_eq!(
        build_diary_url("bob", Some(2024), Some(3), None),
        "https://letterboxd.com/bob/films/diary/for/2024/03/"
    );
    assert_eq!(
        build_diary_url("bob", Some(2024), Some(12), Some(5)),
        "https://letterboxd.com/bob/films/diary/for/2024/12/05/"
    );
    // A month counts only with a year, a day only with a month.
    assert_eq!(
        build_diary_url("bob", None, Some(3), Some(5)),
        "https://letterboxd.com/bob/films/diary/"
    );
    assert_eq!(
        build_diary_url("bob", Some(2024), None, Some(5)),
        "https://letterboxd.com/bob/films/diary/for/2024/"
    );
    assert_eq!(
        build_diary_url("bob", Some(-5), Some(123), None),
        "https://letterboxd.com/bob/films/diary/for/-5/123/"
    );
}

#[test]
fn films_addresses() {
    assert_eq!(build_films_url("bob", None), "https://letterboxd.com/bob/films/");
    assert_eq!(
        build_films_url("bob", Some("decade/1990s")),
        "https://letterboxd.com/bob/films/decade/1990s/"
    );
}

#[test]
fn page_numbers_in_addresses() {
    assert_eq!(
        add_page_to_url("https://letterboxd.com/bob/films/", 3),
        "https://letterboxd.com/bob/films/page/3/"
    );
    assert_eq!(
        add_page_to_url("https://letterboxd.com/bob/films", 12),
        "https://letterboxd.com/bob/films/page/12/"
    );
    assert_eq!(add_page_to_url("x///", 0), "x/page/0/");
    assert_eq!(add_page_to_url("x", u32::MAX), "x/page/4294967295/");
    assert_eq!(extract_page_from_url("https://letterboxd.com/bob/films/page/3/"), Some(3));
    assert_eq!(extract_page_from_url("https://letterboxd.com/bob/films/page/12"), Some(12));
    assert_eq!(extract_page_from_url("https://letterboxd.com/bob/films/"), None);
    assert_eq!(extract_page_from_url("https://letterboxd.com/bob/films/page/x/"), None);
    assert_eq!(
        remove_page_from_url("https://letterboxd.com/bob/films/page/3/"),
        "https://letterboxd.com/bob/films"
    );
    assert_eq!(
        remove_page_from_url("https://letterboxd.com/bob/films/"),
        "https://letterboxd.com/bob/films/"
    );
}

#[test]
fn normalized_addresses() {
    assert_eq!(normalize_letterboxd_url(" /film/heat/ "), "https://letterboxd.com/film/heat/");
    assert_eq!(normalize_letterboxd_url("film/heat"), "https://letterboxd.com/film/heat");
    assert_eq!(normalize_letterboxd_url("http://example.com/x"), "http://example.com/x");
    assert_eq!(
        normalize_letterboxd_url("  https://letterboxd.com/bob/\n"),
        "https://letterboxd.com/bob/"
    );
    assert_eq!(normalize_letterboxd_url(""), "https://letterboxd.com/");
}
