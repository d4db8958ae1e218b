//! Checks on caller input, made before any page is requested.

use vstd::prelude::*;
use vstd::utf8::encode_utf8;
use crate::common::constants::{GENRES, SEARCH_FILTERS};
use crate::html::text_of;
use crate::text::{
    alphanumeric, chars_of, contains, is_alphanumeric, is_text, join, joined, lowercase, occurs_in,
    split_whitespace, string_of, to_lowercase, trim, trim_leading, trim_trailing, trimmed,
    without_leading, without_trailing, words,
};

verus! {

/// The year of the earliest films.
pub const FIRST_FILM_YEAR: i32 = 1888;

/// The last year that is accepted for a film.
pub const LAST_FILM_YEAR: i32 = 2030;

/// The longest user name, in bytes.
pub const MAX_USERNAME_LENGTH: usize = 50;

/// The longest slug of a film, in bytes.
pub const MAX_FILM_SLUG_LENGTH: usize = 200;

/// The longest slug of a list, in bytes.
pub const MAX_LIST_SLUG_LENGTH: usize = 100;

/// The pattern of a user name: letters and digits of ASCII and `_`.
pub const USERNAME_PATTERN: &'static str = "^[A-Za-z0-9_]*$";

/// The pattern of a slug: lower-case letters and digits of ASCII and `-`.
pub const SLUG_PATTERN: &'static str = "^[a-z0-9\\-]*$";

/// The pattern of an address of the site.
pub const SITE_URL_PATTERN: &'static str = "^https?://(www\\.)?letterboxd\\.com/.+$";

/// The pattern of an e-mail address.
pub const EMAIL_PATTERN: &'static str = "^[a-zA-Z0-9._%+-]+@[a-zA-Z0-9.-]+\\.[a-zA-Z]{2,}$";

/// The texts that mark markup or script in a text, in lower case.
pub const DANGEROUS_PATTERNS: [&'static str; 11] = [
    "<script",
    "</script>",
    "javascript:",
    "onload=",
    "onerror=",
    "<iframe",
    "</iframe>",
    "<embed",
    "</embed>",
    "<object",
    "</object>",
];

/// Declares `regex::Regex`, a compiled regular expression, as an opaque
/// type.
#[verifier::external_type_specification]
#[verifier::external_body]
pub struct ExRegex(regex::Regex);

/// The regular expression that a pattern compiles to, where it is one.
pub uninterp spec fn compiled_pattern(pattern: Seq<char>) -> Option<regex::Regex>;

/// Whether a regular expression matches somewhere in a text.
pub uninterp spec fn matches_in(expression: regex::Regex, text: Seq<char>) -> bool;

/// Compiles a regular expression, or `None` where the pattern is none.
///
/// Trusted: `regex::Regex::new` returns an error instead of panicking and
/// depends on the pattern alone; the expression is named, not described.
#[verifier::external_body]
pub(crate) fn compile_pattern(pattern: &str) -> (expression: Option<regex::Regex>)
    ensures
        expression == compiled_pattern(pattern@),
{
    regex::Regex::new(pattern).ok()
}

/// Whether `expression` matches somewhere in `text`.
///
/// Trusted: `regex::Regex::is_match` depends on expression and text alone;
/// the answer is named, not described.
#[verifier::external_body]
pub(crate) fn pattern_matches(expression: &regex::Regex, text: &str) -> (hit: bool)
    ensures
        hit == matches_in(*expression, text@),
{
    expression.is_match(text)
}

/// Whether the regular expression `pattern` matches somewhere in `text`;
/// `None` where the pattern is no regular expression.
pub open spec fn regex_match(pattern: Seq<char>, text: Seq<char>) -> Option<bool> {
    match compiled_pattern(pattern) {
        Some(expression) => Some(matches_in(expression, text)),
        None => None,
    }
}

/// Whether the regular expression `pattern` matches somewhere in `text`.
pub fn regex_is_match(pattern: &str, text: &str) -> (hit: Option<bool>)
    ensures
        hit == regex_match(pattern@, text@),
{
    match compile_pattern(pattern) {
        Some(expression) => Some(pattern_matches(&expression, text)),
        None => None,
    }
}

/// Whether a text is an absolute URL.
pub uninterp spec fn url_parses(text: Seq<char>) -> bool;

/// Whether `text` is an absolute URL.
///
/// Trusted: `url::Url::parse` returns an error instead of panicking and
/// depends on the text alone; whether it succeeds is named, not described.
#[verifier::external_body]
pub(crate) fn url_is_parsed(text: &str) -> (ok: bool)
    ensures
        ok == url_parses(text@),
{
    url::Url::parse(text).is_ok()
}

/// The number of bytes that a string with the characters `text` takes.
pub open spec fn byte_length(text: Seq<char>) -> usize {
    encode_utf8(text).len() as usize
}

/// Whether `text` is at least one and at most `limit` bytes long and matches
/// `pattern`.
pub open spec fn fits(text: Seq<char>, limit: usize, pattern: Seq<char>) -> bool {
    0 < byte_length(text) <= limit && regex_match(pattern, text) == Some(true)
}

/// Whether `text` is at least one and at most `limit` bytes long and matches
/// `pattern`.
pub fn check_against(text: &str, limit: usize, pattern: &str) -> (ok: bool)
    ensures
        ok == fits(text@, limit, pattern@),
{
    if text.len() == 0 || text.len() > limit {
        return false;
    }
    match regex_is_match(pattern, text) {
        Some(hit) => hit,
        None => false,
    }
}

/// Whether `username` can be the name of a user: not empty, at most 50
/// bytes, and made of letters and digits of ASCII and `_`.
pub fn is_valid_username(username: &str) -> (ok: bool)
    ensures
        ok == fits(username@, MAX_USERNAME_LENGTH, USERNAME_PATTERN@),
{
    check_against(username, MAX_USERNAME_LENGTH, USERNAME_PATTERN)
}

/// Whether `slug` can be the slug of a film: not empty, at most 200 bytes,
/// and made of lower-case letters and digits of ASCII and `-`.
pub fn is_valid_film_slug(slug: &str) -> (ok: bool)
    ensures
        ok == fits(slug@, MAX_FILM_SLUG_LENGTH, SLUG_PATTERN@),
{
    check_against(slug, MAX_FILM_SLUG_LENGTH, SLUG_PATTERN)
}

/// Whether `slug` can be the slug of a list: not empty, at most 100 bytes,
/// and made of lower-case letters and digits of ASCII and `-`.
pub fn is_valid_list_slug(slug: &str) -> (ok: bool)
    ensures
        ok == fits(slug@, MAX_LIST_SLUG_LENGTH, SLUG_PATTERN@),
{
    check_against(slug, MAX_LIST_SLUG_LENGTH, SLUG_PATTERN)
}

/// Whether `url` is an address of the site.
pub fn is_valid_letterboxd_url(url: &str) -> (ok: bool)
    ensures
        ok == (regex_match(SITE_URL_PATTERN@, url@) == Some(true)),
{
    match regex_is_match(SITE_URL_PATTERN, url) {
        Some(hit) => hit,
        None => false,
    }
}

/// Whether `email` has the form of an e-mail address.
pub fn is_valid_email(email: &str) -> (ok: bool)
    ensures
        ok == (regex_match(EMAIL_PATTERN@, email@) == Some(true)),
{
    match regex_is_match(EMAIL_PATTERN, email) {
        Some(hit) => hit,
        None => false,
    }
}

/// Whether `url` is an absolute URL.
pub fn is_valid_url(url: &str) -> (ok: bool)
    ensures
        ok == url_parses(url@),
{
    url_is_parsed(url)
}

/// The lowest rating, in hundredths of a star: half a star.
pub const MIN_RATING: u32 = 50;

/// The highest rating, in hundredths of a star: five stars.
pub const MAX_RATING: u32 = 500;

/// The step between two ratings, in hundredths of a star: half a star.
pub const RATING_STEP: u32 = 50;

/// Whether `rating`, in hundredths of a star, is one of the ratings that
/// the site knows: half a star to five stars, in steps of half a star.
pub open spec fn is_rating(rating: u32) -> bool {
    MIN_RATING <= rating <= MAX_RATING && rating % RATING_STEP == 0
}

/// Whether `rating`, in hundredths of a star, is one of the ratings that
/// the site knows.
pub fn is_valid_rating(rating: u32) -> (ok: bool)
    ensures
        ok == is_rating(rating),
{
    MIN_RATING <= rating && rating <= MAX_RATING && rating % RATING_STEP == 0
}

/// The rating nearest to `rating`, both in hundredths of a star, where
/// `rating` is at most five stars and the nearest step is a rating. A value
/// halfway between two steps goes to the higher one.
pub open spec fn nearest_rating(rating: u32) -> Option<u32> {
    let rounded = ((rating + RATING_STEP / 2) / (RATING_STEP as int)) * RATING_STEP;
    if rating <= MAX_RATING && MIN_RATING <= rounded {
        Some(rounded as u32)
    } else {
        None
    }
}

/// The rating nearest to `rating`, both in hundredths of a star.
pub fn normalize_rating(rating: u32) -> (out: Option<u32>)
    ensures
        out == nearest_rating(rating),
        out is Some ==> is_rating(out->Some_0),
{
    if rating > MAX_RATING {
        return None;
    }
    let rounded = (rating + RATING_STEP / 2) / RATING_STEP * RATING_STEP;
    if is_valid_rating(rounded) {
        Some(rounded)
    } else {
        None
    }
}

/// Whether `word` is one of `names`.
pub open spec fn listed(names: Seq<&'static str>, word: Seq<char>) -> bool {
    exists|i: int| 0 <= i < names.len() && (#[trigger] names[i])@ == word
}

/// Whether `word` is one of `names`.
pub fn is_listed<const N: usize>(names: &[&'static str; N], word: &str) -> (found: bool)
    ensures
        found == listed(names@, word@),
{
    let letters = chars_of(word);
    let mut i: usize = 0;
    while i < N
        invariant
            i <= N,
            letters@ == word@,
            forall|j: int| 0 <= j < i ==> (#[trigger] names@[j])@ != word@,
        decreases N - i,
    {
        if is_text(&letters, names[i]) {
            return true;
        }
        i += 1;
    }
    false
}

/// Whether `genre` names one of the site's genres, in upper or lower case.
pub fn is_valid_genre(genre: &str) -> (ok: bool)
    ensures
        ok == listed(GENRES@, lowercase(genre@)),
{
    let lowered = to_lowercase(genre);
    is_listed(&GENRES, lowered.as_str())
}

/// Whether `filter` names one of the kinds that a search can be narrowed to.
pub fn is_valid_search_filter(filter: &str) -> (ok: bool)
    ensures
        ok == listed(SEARCH_FILTERS@, filter@),
{
    is_listed(&SEARCH_FILTERS, filter)
}

/// Whether `year` lies in the range in which films exist.
pub fn is_valid_year(year: i32) -> (ok: bool)
    ensures
        ok == (FIRST_FILM_YEAR <= year <= LAST_FILM_YEAR),
{
    year >= FIRST_FILM_YEAR && year <= LAST_FILM_YEAR
}

/// Whether `month` is a month of the year, counted from 1.
pub fn is_valid_month(month: u32) -> (ok: bool)
    ensures
        ok == (1 <= month <= 12),
{
    month >= 1 && month <= 12
}

/// Whether `day` can be a day of some month, counted from 1.
pub fn is_valid_day(day: u32) -> (ok: bool)
    ensures
        ok == (1 <= day <= 31),
{
    day >= 1 && day <= 31
}

/// `s` with a dash in the place of every character that is neither a letter
/// nor a number.
pub open spec fn dashed(s: Seq<char>) -> Seq<char> {
    Seq::new(
        s.len(),
        |i: int|
            if alphanumeric(s[i]) {
                s[i]
            } else {
                '-'
            },
    )
}

/// `s` with one dash in the place of every run of dashes.
pub open spec fn squeezed(s: Seq<char>) -> Seq<char>
    decreases s.len(),
{
    if s.len() == 0 {
        Seq::empty()
    } else if s.last() == '-' && s.len() >= 2 && s[s.len() - 2] == '-' {
        squeezed(s.drop_last())
    } else {
        squeezed(s.drop_last()).push(s.last())
    }
}

/// `input` as a part of an address: in lower case, with one dash for every
/// run of characters that are neither letters nor numbers, and with no dash
/// at either end.
pub open spec fn sanitized(input: Seq<char>) -> Seq<char> {
    without_trailing(without_leading(squeezed(dashed(lowercase(input))), "-"@), "-"@)
}

/// `input` as a part of an address.
pub fn sanitize_for_url(input: &str) -> (out: String)
    ensures
        out@ == sanitized(input@),
{
    let lowered = to_lowercase(input);
    let letters = chars_of(lowered.as_str());
    let ghost marked = dashed(letters@);
    let mut result: Vec<char> = Vec::new();
    let mut last_was_dash = false;
    let mut i: usize = 0;
    while i < letters.len()
        invariant
            i <= letters.len(),
            marked == dashed(letters@),
            result@ == squeezed(marked.take(i as int)),
            last_was_dash == (i > 0 && marked[i - 1] == '-'),
        decreases letters.len() - i,
    {
        let c = letters[i];
        let ch = if is_alphanumeric(c) {
            c
        } else {
            '-'
        };
        proof {
            let next = marked.take(i + 1);
            assert(next.drop_last() == marked.take(i as int));
        }
        if ch == '-' {
            if !last_was_dash {
                result.push(ch);
                last_was_dash = true;
            }
        } else {
            result.push(ch);
            last_was_dash = false;
        }
        i += 1;
    }
    proof {
        assert(marked.take(letters.len() as int) == marked);
    }
    let dash = chars_of("-");
    string_of(&trim_trailing(&trim_leading(&result, &dash), &dash))
}

/// `text` without the white space around it and with one space between its
/// words, where what is left without the white space around it is not empty
/// and at most `max_length` bytes long.
pub open spec fn cleaned_text(text: Seq<char>, max_length: usize) -> Option<Seq<char>> {
    let bare = trimmed(text);
    if bare.len() == 0 || byte_length(bare) > max_length {
        None
    } else {
        Some(joined(words(bare), " "@))
    }
}

/// `text` without the white space around it and with one space between its
/// words, or `None` where it is empty or too long.
pub fn clean_and_validate_text(text: &str, max_length: usize) -> (out: Option<String>)
    ensures
        text_of(out) == cleaned_text(text@, max_length),
{
    let bare = trim(&chars_of(text));
    let cleaned = string_of(&bare);
    if bare.len() == 0 || cleaned.as_str().len() > max_length {
        return None;
    }
    let parts = split_whitespace(&bare);
    Some(string_of(&join(&parts, &chars_of(" "))))
}

/// Whether `text`, read in lower case, holds none of the texts that mark
/// markup or script.
pub open spec fn safe_text(text: Seq<char>) -> bool {
    forall|i: int|
        0 <= i < DANGEROUS_PATTERNS@.len() ==> !occurs_in(
            (#[trigger] DANGEROUS_PATTERNS@[i])@,
            lowercase(text),
        )
}

/// Whether `text` holds none of the texts that mark markup or script.
pub fn is_safe_text(text: &str) -> (ok: bool)
    ensures
        ok == safe_text(text@),
{
    let lowered = to_lowercase(text);
    let letters = chars_of(lowered.as_str());
    let mut i: usize = 0;
    while i < 11
        invariant
            i <= 11,
            letters@ == lowercase(text@),
            forall|j: int|
                0 <= j < i ==> !occurs_in((#[trigger] DANGEROUS_PATTERNS@[j])@, letters@),
        decreases 11 - i,
    {
        if contains(&letters, &chars_of(DANGEROUS_PATTERNS[i])) {
            return false;
        }
        i += 1;
    }
    true
}

} // verus!
