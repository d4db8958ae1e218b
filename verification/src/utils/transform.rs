//! Builders for the addresses of the site's pages, and the reading of page
//! numbers from them.

use vstd::prelude::*;
use vstd::utf8::encode_utf8;
use crate::common::constants::DOMAIN;

use crate::numeric::{
    decimal_string, decimal_text, parse_u32, signed_string, signed_text, two_digit_string,
    two_digit_text, u32_of,
};
use crate::text::{
    append, chars_of, chain, contains, matches_at, occurs_in, pieces, replace_all, replaced, split,
    starts_with_at, string_of, trim, trim_leading, trim_trailing, trimmed, without_leading,
    without_trailing,
};

verus! {

/// `url` with the first of the given path segments that occurs in it led
/// through `/ajax`, or with `/ajax` behind it where none occurs.
pub open spec fn ajax_url(url: Seq<char>) -> Seq<char> {
    if occurs_in("/films/"@, url) {
        replaced(url, "/films/"@, "/ajax/films/"@)
    } else if occurs_in("/film/"@, url) {
        replaced(url, "/film/"@, "/ajax/film/"@)
    } else if occurs_in("/lists/"@, url) {
        replaced(url, "/lists/"@, "/ajax/lists/"@)
    } else if occurs_in("/reviews/"@, url) {
        replaced(url, "/reviews/"@, "/ajax/reviews/"@)
    } else {
        without_trailing(url, "/"@) + "/ajax"@
    }
}

/// The address under which the site serves the bare records of the listing
/// at `url`.
pub fn get_ajax_url(url: &str) -> (out: String)
    ensures
        out@ == ajax_url(url@),
{
    let raw = chars_of(url);
    let films = chars_of("/films/");
    let film = chars_of("/film/");
    let lists = chars_of("/lists/");
    let reviews = chars_of("/reviews/");
    if contains(&raw, &films) {
        string_of(&replace_all(&raw, &films, &chars_of("/ajax/films/")))
    } else if contains(&raw, &film) {
        string_of(&replace_all(&raw, &film, &chars_of("/ajax/film/")))
    } else if contains(&raw, &lists) {
        string_of(&replace_all(&raw, &lists, &chars_of("/ajax/lists/")))
    } else if contains(&raw, &reviews) {
        string_of(&replace_all(&raw, &reviews, &chars_of("/ajax/reviews/")))
    } else {
        let bare = string_of(&trim_trailing(&raw, &chars_of("/")));
        chain(bare.as_str(), "/ajax")
    }
}

/// The address of `path` on the site.
pub fn build_letterboxd_url(path: &str) -> (out: String)
    ensures
        out@ == DOMAIN@ + "/"@ + without_leading(path@, "/"@),
{
    let bare = string_of(&trim_leading(&chars_of(path), &chars_of("/")));
    let head = chain(DOMAIN, "/");
    chain(head.as_str(), bare.as_str())
}

/// `parts` under the site's address, each followed by a slash.
pub open spec fn site_path(parts: Seq<Seq<char>>) -> Seq<char>
    decreases parts.len(),
{
    if parts.len() == 0 {
        DOMAIN@ + "/"@
    } else {
        site_path(parts.drop_last()) + parts.last() + "/"@
    }
}

/// `base` with `part` and a slash behind it.
pub fn with_part(base: &str, part: &str) -> (out: String)
    ensures
        out@ == base@ + part@ + "/"@,
{
    let head = chain(base, part);
    chain(head.as_str(), "/")
}

/// The site's address with a slash behind it.
fn site_root() -> (out: String)
    ensures
        out@ == site_path(Seq::empty()),
{
    chain(DOMAIN, "/")
}

/// The address of a user's profile.
pub fn build_user_url(username: &str) -> (out: String)
    ensures
        out@ == site_path(seq![username@]),
{
    proof {
        assert(seq![username@].drop_last() == Seq::<Seq<char>>::empty());
    }
    let root = site_root();
    with_part(root.as_str(), username)
}

/// The address of the page of a part of the site: `first`, then `second`.
fn two_part_url(first: &str, second: &str) -> (out: String)
    ensures
        out@ == site_path(seq![first@, second@]),
{
    proof {
        assert(seq![first@, second@].drop_last() == seq![first@]);
    }
    let head = build_user_url(first);
    with_part(head.as_str(), second)
}

/// The address of the page of a part of the site: `first`, then `second`,
/// then `third`.
fn three_part_url(first: &str, second: &str, third: &str) -> (out: String)
    ensures
        out@ == site_path(seq![first@, second@, third@]),
{
    proof {
        assert(seq![first@, second@, third@].drop_last() == seq![first@, second@]);
    }
    let head = two_part_url(first, second);
    with_part(head.as_str(), third)
}

/// The address of a film's page.
pub fn build_film_url(slug: &str) -> (out: String)
    ensures
        out@ == site_path(seq!["film"@, slug@]),
{
    two_part_url("film", slug)
}

/// The address of a list's page.
pub fn build_list_url(author: &str, slug: &str) -> (out: String)
    ensures
        out@ == site_path(seq![author@, "list"@, slug@]),
{
    three_part_url(author, "list", slug)
}

/// The address of a section of a film's page.
pub fn build_film_section_url(slug: &str, section: &str) -> (out: String)
    ensures
        out@ == site_path(seq!["film"@, slug@, section@]),
{
    three_part_url("film", slug, section)
}

/// The address of a section of a user's pages.
pub fn build_user_section_url(username: &str, section: &str) -> (out: String)
    ensures
        out@ == site_path(seq![username@, section@]),
{
    two_part_url(username, section)
}

/// Whether a byte stands for itself in a percent-encoded text: the letters
/// and digits of ASCII and `-`, `.`, `_`, `~`.
pub open spec fn is_unreserved(b: u8) -> bool {
    (0x30 <= b <= 0x39) || (0x41 <= b <= 0x5a) || (0x61 <= b <= 0x7a) || b == 0x2d || b == 0x2e
        || b == 0x5f || b == 0x7e
}

/// The hexadecimal digit for a number below sixteen, in upper case.
pub open spec fn hex_digit(d: u8) -> char {
    if d < 10 {
        ((0x30 + d) as u8) as char
    } else {
        ((0x37 + d) as u8) as char
    }
}

/// A byte as it stands in a percent-encoded text.
pub open spec fn escaped_byte(b: u8) -> Seq<char> {
    if is_unreserved(b) {
        seq![b as char]
    } else {
        seq!['%', hex_digit(b / 16), hex_digit(b % 16)]
    }
}

/// Bytes as they stand in a percent-encoded text.
pub open spec fn escaped(bytes: Seq<u8>) -> Seq<char>
    decreases bytes.len(),
{
    if bytes.len() == 0 {
        Seq::empty()
    } else {
        escaped(bytes.drop_last()) + escaped_byte(bytes.last())
    }
}

/// A text, percent-encoded: each byte of its UTF-8 form stands for itself
/// where it is unreserved and is written as `%` and two hexadecimal digits
/// where it is not.
pub open spec fn percent_encoded(s: Seq<char>) -> Seq<char> {
    escaped(encode_utf8(s))
}

/// Percent-encodes `s`.
///
/// Trusted: `urlencoding::encode` keeps the bytes of ASCII letters, digits
/// and `-`, `.`, `_`, `~`, and writes every other byte of the text's UTF-8
/// form as `%` and its two hexadecimal digits in upper case.
#[verifier::external_body]
pub(crate) fn percent_encode(s: &str) -> (out: String)
    ensures
        out@ == percent_encoded(s@),
{
    urlencoding::encode(s).into_owned()
}

/// The address of the results of a search for `query`, narrowed to `filter`
/// where one is given.
pub open spec fn search_url(query: Seq<char>, filter: Option<Seq<char>>) -> Seq<char> {
    match filter {
        Some(f) => site_path(seq!["s"@, "search"@, f, percent_encoded(query)]),
        None => site_path(seq!["s"@, "search"@, percent_encoded(query)]),
    }
}

/// The address of the results of a search.
pub fn build_search_url(query: &str, filter: Option<&str>) -> (out: String)
    ensures
        out@ == search_url(
            query@,
            match filter {
                Some(f) => Some(f@),
                None => None,
            },
        ),
{
    let encoded = percent_encode(query);
    match filter {
        Some(f) => {
            proof {
                assert(seq!["s"@, "search"@, f@, percent_encoded(query@)].drop_last() == seq![
                    "s"@,
                    "search"@,
                    f@,
                ]);
            }
            let head = three_part_url("s", "search", f);
            with_part(head.as_str(), encoded.as_str())
        },
        None => three_part_url("s", "search", encoded.as_str()),
    }
}

/// The part of a diary's address that names a date: the year behind `for/`,
/// then the month and the day on two places each, as far as they are given.
/// A month counts only with a year, a day only with a month.
pub open spec fn date_path(year: Option<i32>, month: Option<u32>, day: Option<u32>) -> Seq<char> {
    match year {
        None => Seq::empty(),
        Some(y) => "for/"@ + signed_text(y as int) + "/"@ + match month {
            None => Seq::empty(),
            Some(m) => two_digit_text(m as nat) + "/"@ + match day {
                None => Seq::empty(),
                Some(d) => two_digit_text(d as nat) + "/"@,
            },
        },
    }
}

/// The part of a diary's address that names a date.
pub fn date_segment(year: Option<i32>, month: Option<u32>, day: Option<u32>) -> (out: String)
    ensures
        out@ == date_path(year, month, day),
{
    let mut out: Vec<char> = Vec::new();
    if let Some(y) = year {
        append(&mut out, &chars_of("for/"));
        append(&mut out, &chars_of(signed_string(y).as_str()));
        append(&mut out, &chars_of("/"));
        if let Some(m) = month {
            append(&mut out, &chars_of(two_digit_string(m).as_str()));
            append(&mut out, &chars_of("/"));
            if let Some(d) = day {
                append(&mut out, &chars_of(two_digit_string(d).as_str()));
                append(&mut out, &chars_of("/"));
            }
        }
    }
    string_of(&out)
}

/// The address of a user's diary, narrowed to a year, a month or a day where
/// these are given.
pub fn build_diary_url(
    username: &str,
    year: Option<i32>,
    month: Option<u32>,
    day: Option<u32>,
) -> (out: String)
    ensures
        out@ == site_path(seq![username@, "films"@, "diary"@]) + date_path(year, month, day),
{
    let head = three_part_url(username, "films", "diary");
    let date = date_segment(year, month, day);
    chain(head.as_str(), date.as_str())
}

/// The address of a user's films, narrowed by `filter` where one is given.
pub fn build_films_url(username: &str, filter: Option<&str>) -> (out: String)
    ensures
        out@ == match filter {
            Some(f) => site_path(seq![username@, "films"@, f@]),
            None => site_path(seq![username@, "films"@]),
        },
{
    match filter {
        Some(f) => three_part_url(username, "films", f),
        None => two_part_url(username, "films"),
    }
}

/// The address of page `page` of the listing at `base_url`.
pub fn add_page_to_url(base_url: &str, page: u32) -> (out: String)
    ensures
        out@ == without_trailing(base_url@, "/"@) + "/page/"@ + decimal_text(page as nat) + "/"@,
{
    let bare = string_of(&trim_trailing(&chars_of(base_url), &chars_of("/")));
    let head = chain(bare.as_str(), "/page/");
    with_part(head.as_str(), decimal_string(page as u64).as_str())
}

/// `url` as a full address of the site: as it is where it names a scheme,
/// and under the site's address where it does not. The white space around
/// `url` does not count.
pub open spec fn normalized_url(url: Seq<char>) -> Seq<char> {
    let bare = trimmed(url);
    if matches_at(bare, "http://"@, 0) || matches_at(bare, "https://"@, 0) {
        bare
    } else if matches_at(bare, "/"@, 0) {
        DOMAIN@ + bare
    } else {
        DOMAIN@ + "/"@ + bare
    }
}

/// `url` as a full address of the site.
pub fn normalize_letterboxd_url(url: &str) -> (out: String)
    ensures
        out@ == normalized_url(url@),
{
    let bare = trim(&chars_of(url));
    let text = string_of(&bare);
    if starts_with_at(&bare, &chars_of("http://"), 0) || starts_with_at(
        &bare,
        &chars_of("https://"),
        0,
    ) {
        text
    } else if starts_with_at(&bare, &chars_of("/"), 0) {
        chain(DOMAIN, text.as_str())
    } else {
        let head = chain(DOMAIN, "/");
        chain(head.as_str(), text.as_str())
    }
}

/// The page number in `url`: the number between the first `/page/` and the
/// next slash, where there is one.
pub open spec fn page_in(url: Seq<char>) -> Option<u32> {
    let parts = pieces(url, "/page/"@);
    if parts.len() > 1 {
        u32_of(pieces(parts[1], "/"@)[0])
    } else {
        None
    }
}

/// The page number in `url`.
pub fn extract_page_from_url(url: &str) -> (page: Option<u32>)
    ensures
        page == page_in(url@),
{
    let parts = split(&chars_of(url), &chars_of("/page/"));
    if parts.len() > 1 {
        let tail = split(&parts[1], &chars_of("/"));
        parse_u32(&tail[0])
    } else {
        None
    }
}

/// `url` up to its first `/page/`; all of it where it has none.
pub fn remove_page_from_url(url: &str) -> (out: String)
    ensures
        out@ == pieces(url@, "/page/"@)[0],
{
    let parts = split(&chars_of(url), &chars_of("/page/"));
    string_of(&parts[0])
}

} // verus!
