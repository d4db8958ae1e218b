//! Parsers for the texts that the site's pages hold: counts, dates,
//! runtimes and the slugs inside addresses.

use vstd::prelude::*;
use crate::common::constants::DOMAIN_FULL;
use crate::common::error::{Error, ErrorView};
use crate::html::{first_attr, read_first_attr, text_of};
use crate::numeric::{
    i32_of, is_ascii_digit, is_digit, parse_i32, parse_scaled, parse_u32, scaled_u32, u32_of,
};
use crate::text::{
    ascii_lowered, chars_of, chain, contains, is_text, join, joined, lowercase, occurs_in, pieces,
    replace_all, replaced, same_ignoring_ascii_case, split, split_whitespace, string_of, texts,
    to_lowercase, trim, trim_trailing, trimmed, without_trailing, words,
};

verus! {

/// Reads a value of type `T` from `value`, or `None` where the text does not
/// write one.
///
/// Trusted: `str::parse` returns an error instead of panicking; nothing is
/// claimed about the value.
#[verifier::external_body]
pub fn try_parse<T: std::str::FromStr>(value: &str) -> Option<T> {
    value.parse().ok()
}

/// The count that a text such as `6.3K` writes. Commas and the white space
/// around the text do not count. With a `K` in it the text writes thousands,
/// else with an `M` millions, and the letter may stand anywhere; what is
/// then left must be a decimal number, of which the part below one unit is
/// cut off. Without either letter the text must be a whole number. Any other
/// text writes 0.
pub open spec fn shorthand_count(text: Seq<char>) -> u32 {
    let cleaned = replaced(trimmed(text), ","@, ""@);
    let number = if occurs_in("K"@, cleaned) {
        scaled_u32(replaced(cleaned, "K"@, ""@), 3)
    } else if occurs_in("M"@, cleaned) {
        scaled_u32(replaced(cleaned, "M"@, ""@), 6)
    } else {
        u32_of(cleaned)
    };
    match number {
        Some(n) => n,
        None => 0,
    }
}

/// The count that a text such as `6.3K` writes, or 0 where it writes none.
pub fn extract_and_convert_shorthand(text: &str) -> (count: u32)
    ensures
        count == shorthand_count(text@),
{
    parse_shorthand_count(text)
}

/// The count that a text such as `6.3K` writes, or 0 where it writes none.
pub fn parse_shorthand_count(text: &str) -> (count: u32)
    ensures
        count == shorthand_count(text@),
{
    let raw = chars_of(text);
    let comma = chars_of(",");
    let nothing = chars_of("");
    let cleaned = replace_all(&trim(&raw), &comma, &nothing);
    let thousands = chars_of("K");
    let millions = chars_of("M");
    let number = if contains(&cleaned, &thousands) {
        parse_scaled(&replace_all(&cleaned, &thousands, &nothing), 3)
    } else if contains(&cleaned, &millions) {
        parse_scaled(&replace_all(&cleaned, &millions, &nothing), 6)
    } else {
        parse_u32(&cleaned)
    };
    match number {
        Some(n) => n,
        None => 0,
    }
}

/// The digits of `s`, in their order.
pub open spec fn digits_in(s: Seq<char>) -> Seq<char>
    decreases s.len(),
{
    if s.len() == 0 {
        Seq::empty()
    } else if is_digit(s.last()) {
        digits_in(s.drop_last()).push(s.last())
    } else {
        digits_in(s.drop_last())
    }
}

/// The digits of `s`, in their order.
pub fn keep_digits(s: &Vec<char>) -> (out: Vec<char>)
    ensures
        out@ == digits_in(s@),
{
    let mut out: Vec<char> = Vec::new();
    let mut i: usize = 0;
    while i < s.len()
        invariant
            i <= s.len(),
            out@ == digits_in(s@.take(i as int)),
        decreases s.len() - i,
    {
        proof {
            assert(s@.take(i + 1).drop_last() == s@.take(i as int));
        }
        if is_ascii_digit(s[i]) {
            out.push(s[i]);
        }
        i += 1;
    }
    proof {
        assert(s@.take(s.len() as int) == s@);
    }
    out
}

/// The number that the digits of `text` write when every other character is
/// left out, where they write a `u32`.
pub fn extract_numeric_text(text: &str) -> (value: Option<u32>)
    ensures
        value == u32_of(digits_in(text@)),
{
    let raw = chars_of(text);
    parse_u32(&keep_digits(&raw))
}

/// The date that a text such as `2025-01-31T12:00:00Z` writes: what stands
/// before the first `T` must be a year, a month and a day with `-` between
/// them. The numbers are not held to a calendar.
pub open spec fn iso_date(text: Seq<char>) -> Result<(i32, u32, u32), ErrorView> {
    let parts = pieces(pieces(text, "T"@)[0], "-"@);
    if parts.len() != 3 {
        Err(ErrorView::Parse("Invalid ISO date format: "@ + text))
    } else if i32_of(parts[0]) is None {
        Err(ErrorView::Parse("Invalid year in date: "@ + text))
    } else if u32_of(parts[1]) is None {
        Err(ErrorView::Parse("Invalid month in date: "@ + text))
    } else if u32_of(parts[2]) is None {
        Err(ErrorView::Parse("Invalid day in date: "@ + text))
    } else {
        Ok((i32_of(parts[0])->Some_0, u32_of(parts[1])->Some_0, u32_of(parts[2])->Some_0))
    }
}

/// A result whose error alone has a view.
pub open spec fn failure_view<T>(r: Result<T, Error>) -> Result<T, ErrorView> {
    match r {
        Ok(value) => Ok(value),
        Err(error) => Err(error@),
    }
}

/// Reads year, month and day from a date in ISO 8601 form.
pub fn parse_iso_date(iso_date_str: &str) -> (res: Result<(i32, u32, u32), Error>)
    ensures
        failure_view(res) == iso_date(iso_date_str@),
{
    let raw = chars_of(iso_date_str);
    let halves = split(&raw, &chars_of("T"));
    let parts = split(&halves[0], &chars_of("-"));
    if parts.len() != 3 {
        return Err(Error::Parse(chain("Invalid ISO date format: ", iso_date_str)));
    }
    let year = match parse_i32(&parts[0]) {
        Some(n) => n,
        None => { return Err(Error::Parse(chain("Invalid year in date: ", iso_date_str))); },
    };
    let month = match parse_u32(&parts[1]) {
        Some(n) => n,
        None => { return Err(Error::Parse(chain("Invalid month in date: ", iso_date_str))); },
    };
    let day = match parse_u32(&parts[2]) {
        Some(n) => n,
        None => { return Err(Error::Parse(chain("Invalid day in date: ", iso_date_str))); },
    };
    Ok((year, month, day))
}

/// The abbreviations of the twelve months, January first.
pub open spec fn month_names() -> Seq<Seq<char>> {
    seq![
        "Jan"@,
        "Feb"@,
        "Mar"@,
        "Apr"@,
        "May"@,
        "Jun"@,
        "Jul"@,
        "Aug"@,
        "Sep"@,
        "Oct"@,
        "Nov"@,
        "Dec"@,
    ]
}

/// Whether `name` abbreviates month number `month`, in upper or lower case.
pub open spec fn names_month(name: Seq<char>, month: int) -> bool {
    1 <= month <= 12 && ascii_lowered(month_names()[month - 1]) == ascii_lowered(name)
}

/// The number of the month that `name` abbreviates, January being 1: the
/// first month whose abbreviation is `name` in upper or lower case.
pub open spec fn month_number(name: Seq<char>) -> Option<u32> {
    if exists|m: int| names_month(name, m) {
        Some(
            (choose|m: int| names_month(name, m) && forall|k: int|
                1 <= k < m ==> !names_month(name, k)) as u32,
        )
    } else {
        None
    }
}

/// The abbreviation of month number `index + 1`.
fn month_name(index: usize) -> (name: &'static str)
    requires
        index < 12,
    ensures
        name@ == month_names()[index as int],
{
    if index == 0 {
        "Jan"
    } else if index == 1 {
        "Feb"
    } else if index == 2 {
        "Mar"
    } else if index == 3 {
        "Apr"
    } else if index == 4 {
        "May"
    } else if index == 5 {
        "Jun"
    } else if index == 6 {
        "Jul"
    } else if index == 7 {
        "Aug"
    } else if index == 8 {
        "Sep"
    } else if index == 9 {
        "Oct"
    } else if index == 10 {
        "Nov"
    } else {
        "Dec"
    }
}

/// The number of the month that `month_abbr` abbreviates, January being 1.
pub fn month_to_index(month_abbr: &str) -> (month: Option<u32>)
    ensures
        month == month_number(month_abbr@),
        month is Some ==> 1 <= month->Some_0 <= 12,
{
    let name = chars_of(month_abbr);
    let mut i: usize = 0;
    while i < 12
        invariant
            i <= 12,
            name@ == month_abbr@,
            forall|k: int| 1 <= k <= i ==> !names_month(name@, k),
        decreases 12 - i,
    {
        let candidate = chars_of(month_name(i));
        if same_ignoring_ascii_case(&candidate, &name) {
            proof {
                let m = i + 1;
                assert(names_month(name@, m));
            }
            return Some((i + 1) as u32);
        }
        i += 1;
    }
    None
}

/// The date that a text such as `01 Jan 2025` writes: a day, the
/// abbreviation of a month and a year, with white space between them. The
/// numbers are not held to a calendar.
pub open spec fn written_date(text: Seq<char>) -> Result<(i32, u32, u32), ErrorView> {
    let parts = words(text);
    if parts.len() != 3 {
        Err(ErrorView::Parse("Invalid written date format: "@ + text))
    } else if u32_of(parts[0]) is None {
        Err(ErrorView::Parse("Invalid day in date: "@ + text))
    } else if month_number(parts[1]) is None {
        Err(ErrorView::Parse("Invalid month in date: "@ + text))
    } else if i32_of(parts[2]) is None {
        Err(ErrorView::Parse("Invalid year in date: "@ + text))
    } else {
        Ok((i32_of(parts[2])->Some_0, month_number(parts[1])->Some_0, u32_of(parts[0])->Some_0))
    }
}

/// Reads year, month and day from a date written as `01 Jan 2025`.
pub fn parse_written_date(written_date_str: &str) -> (res: Result<(i32, u32, u32), Error>)
    ensures
        failure_view(res) == written_date(written_date_str@),
{
    let raw = chars_of(written_date_str);
    let parts = split_whitespace(&raw);
    if parts.len() != 3 {
        return Err(Error::Parse(chain("Invalid written date format: ", written_date_str)));
    }
    let day = match parse_u32(&parts[0]) {
        Some(n) => n,
        None => { return Err(Error::Parse(chain("Invalid day in date: ", written_date_str))); },
    };
    let name = string_of(&parts[1]);
    let month = match month_to_index(name.as_str()) {
        Some(n) => n,
        None => { return Err(Error::Parse(chain("Invalid month in date: ", written_date_str))); },
    };
    let year = match parse_i32(&parts[2]) {
        Some(n) => n,
        None => { return Err(Error::Parse(chain("Invalid year in date: ", written_date_str))); },
    };
    Ok((year, month, day))
}

/// `part` of `whole` on a scale of five stars, in hundredths of a star and
/// cut down to the range of `u32`; none where `whole` is zero.
pub open spec fn out_of_five(part: u32, whole: u32) -> Option<u32> {
    if whole == 0 {
        None
    } else if (part * 500) / (whole as int) > u32::MAX {
        Some(u32::MAX)
    } else {
        Some(((part * 500) / (whole as int)) as u32)
    }
}

/// The rating that a text such as `4.2` or `4.2/5` writes, in hundredths of
/// a star. Stars in the text and the white space around it do not count.
/// With a `/` in it the text must be two decimal numbers around one `/`,
/// and the rating is the first as a part of the second, on a scale of five
/// stars. Without one the text must be a decimal number of at most five.
pub open spec fn rating_in(text: Seq<char>) -> Option<u32> {
    let cleaned = replaced(replaced(trimmed(text), "\u{2605}"@, ""@), "\u{2606}"@, ""@);
    let parts = pieces(cleaned, "/"@);
    if occurs_in("/"@, cleaned) {
        if parts.len() == 2 && scaled_u32(parts[0], 2) is Some && scaled_u32(parts[1], 2) is Some {
            out_of_five(scaled_u32(parts[0], 2)->Some_0, scaled_u32(parts[1], 2)->Some_0)
        } else {
            None
        }
    } else if scaled_u32(cleaned, 2) is Some && scaled_u32(cleaned, 2)->Some_0 <= 500 {
        scaled_u32(cleaned, 2)
    } else {
        None
    }
}

/// The rating that a text such as `4.2` or `4.2/5` writes, in hundredths of
/// a star.
pub fn parse_rating(text: &str) -> (rating: Option<u32>)
    ensures
        rating == rating_in(text@),
{
    let nothing = chars_of("");
    let bare = replace_all(&trim(&chars_of(text)), &chars_of("\u{2605}"), &nothing);
    let cleaned = replace_all(&bare, &chars_of("\u{2606}"), &nothing);
    let slash = chars_of("/");
    if contains(&cleaned, &slash) {
        let parts = split(&cleaned, &slash);
        if parts.len() != 2 {
            return None;
        }
        match (parse_scaled(&parts[0], 2), parse_scaled(&parts[1], 2)) {
            (Some(part), Some(whole)) => {
                if whole == 0 {
                    None
                } else {
                    let scaled: u64 = part as u64 * 500 / whole as u64;
                    if scaled > 0xffff_ffff {
                        Some(u32::MAX)
                    } else {
                        Some(scaled as u32)
                    }
                }
            },
            _ => None,
        }
    } else {
        match parse_scaled(&cleaned, 2) {
            Some(rating) => if rating <= 500 {
                Some(rating)
            } else {
                None
            },
            None => None,
        }
    }
}

/// `hours` hours and `minutes` minutes in minutes, where that is a `u32`.
pub open spec fn in_minutes(hours: u32, minutes: u32) -> Option<u32> {
    if hours * 60 + minutes <= u32::MAX {
        Some((hours * 60 + minutes) as u32)
    } else {
        None
    }
}

/// The number that the digits of `part` write, or 0 where they write none.
pub open spec fn digits_or_zero(part: Seq<char>) -> u32 {
    match u32_of(digits_in(part)) {
        Some(n) => n,
        None => 0,
    }
}

/// The minutes that a runtime in lower case writes. With `min` in it, the
/// digits of the text are the minutes. Else with an `h` and an `m` and
/// exactly one `h`, the digits before the `h` are hours and those behind it
/// minutes. Else with exactly one `:` between two whole numbers, these are
/// hours and minutes. A runtime beyond the range of `u32` is none.
pub open spec fn runtime_minutes(cleaned: Seq<char>) -> Option<u32> {
    let by_letter = pieces(cleaned, "h"@);
    let by_colon = pieces(cleaned, ":"@);
    if occurs_in("min"@, cleaned) {
        u32_of(digits_in(cleaned))
    } else if occurs_in("h"@, cleaned) && occurs_in("m"@, cleaned) && by_letter.len() == 2 {
        in_minutes(digits_or_zero(by_letter[0]), digits_or_zero(by_letter[1]))
    } else if occurs_in(":"@, cleaned) && by_colon.len() == 2 && u32_of(by_colon[0]) is Some
        && u32_of(by_colon[1]) is Some {
        in_minutes(u32_of(by_colon[0])->Some_0, u32_of(by_colon[1])->Some_0)
    } else {
        None
    }
}

/// `hours` hours and `minutes` minutes in minutes, where that is a `u32`.
pub fn to_minutes(hours: u32, minutes: u32) -> (total: Option<u32>)
    ensures
        total == in_minutes(hours, minutes),
{
    let sum: u64 = hours as u64 * 60 + minutes as u64;
    if sum <= 0xffff_ffff {
        Some(sum as u32)
    } else {
        None
    }
}

/// The minutes that a runtime such as `142 mins`, `2h 22m` or `2:22` writes.
/// The text is read without the white space around it and in lower case.
pub fn parse_runtime(text: &str) -> (minutes: Option<u32>)
    ensures
        minutes == runtime_minutes(lowercase(trimmed(text@))),
{
    let raw = chars_of(text);
    let trimmed_text = string_of(&trim(&raw));
    let lowered = to_lowercase(trimmed_text.as_str());
    let cleaned = chars_of(lowered.as_str());
    if contains(&cleaned, &chars_of("min")) {
        return parse_u32(&keep_digits(&cleaned));
    }
    let letter = chars_of("h");
    if contains(&cleaned, &letter) && contains(&cleaned, &chars_of("m")) {
        let parts = split(&cleaned, &letter);
        if parts.len() == 2 {
            let hours = match parse_u32(&keep_digits(&parts[0])) {
                Some(n) => n,
                None => 0,
            };
            let mins = match parse_u32(&keep_digits(&parts[1])) {
                Some(n) => n,
                None => 0,
            };
            return to_minutes(hours, mins);
        }
    }
    let colon = chars_of(":");
    if contains(&cleaned, &colon) {
        let parts = split(&cleaned, &colon);
        if parts.len() == 2 {
            let hours = parse_u32(&parts[0]);
            let mins = parse_u32(&parts[1]);
            match (hours, mins) {
                (Some(h), Some(m)) => {
                    return to_minutes(h, m);
                },
                _ => {},
            }
        }
    }
    None
}

/// The words of `text` with one space between each two.
pub fn clean_text(text: &str) -> (out: String)
    ensures
        out@ == joined(words(text@), " "@),
{
    let raw = chars_of(text);
    let parts = split_whitespace(&raw);
    string_of(&join(&parts, &chars_of(" ")))
}

/// The slug of the film that the address `url` names: what stands between
/// the first `/film/` and the next slash, where that is not empty.
pub open spec fn film_slug_in(url: Seq<char>) -> Option<Seq<char>> {
    let parts = pieces(url, "/film/"@);
    if parts.len() > 1 && pieces(parts[1], "/"@)[0].len() > 0 {
        Some(pieces(parts[1], "/"@)[0])
    } else {
        None
    }
}

/// The slug of the film that the address `url` names.
pub fn extract_film_slug(url: &str) -> (slug: Option<String>)
    ensures
        text_of(slug) == film_slug_in(url@),
{
    let raw = chars_of(url);
    let parts = split(&raw, &chars_of("/film/"));
    if parts.len() > 1 {
        let tail = split(&parts[1], &chars_of("/"));
        if tail[0].len() > 0 {
            return Some(string_of(&tail[0]));
        }
    }
    None
}

/// The name of the user that the address `url` names: with the slashes at
/// its end left out and cut at its slashes, the address must have the site
/// as its third part, and the part behind that is the name.
pub open spec fn user_slug_in(url: Seq<char>) -> Option<Seq<char>> {
    let parts = pieces(without_trailing(url, "/"@), "/"@);
    if parts.len() >= 4 && parts[2] == DOMAIN_FULL@ {
        Some(parts[3])
    } else {
        None
    }
}

/// The name of the user that the address `url` names.
pub fn extract_user_slug(url: &str) -> (slug: Option<String>)
    ensures
        text_of(slug) == user_slug_in(url@),
{
    let raw = chars_of(url);
    let slash = chars_of("/");
    let parts = split(&trim_trailing(&raw, &slash), &slash);
    if parts.len() >= 4 && is_text(&parts[2], DOMAIN_FULL) {
        Some(string_of(&parts[3]))
    } else {
        None
    }
}

/// The selector for the `meta` element that carries `property`, or else
/// `name`; none where neither is given.
pub open spec fn meta_selector(property: Option<Seq<char>>, name: Option<Seq<char>>) -> Option<
    Seq<char>,
> {
    match (property, name) {
        (Some(p), _) => Some("meta[property='"@ + p + "']"@),
        (None, Some(n)) => Some("meta[name='"@ + n + "']"@),
        (None, None) => None,
    }
}

/// The selector for the `meta` element that carries `property`, or else
/// `name`.
pub fn meta_selector_for(property: Option<&str>, name: Option<&str>) -> (css: Option<String>)
    ensures
        text_of(css) == meta_selector(
            match property {
                Some(p) => Some(p@),
                None => None,
            },
            match name {
                Some(n) => Some(n@),
                None => None,
            },
        ),
{
    match property {
        Some(p) => {
            let head = chain("meta[property='", p);
            Some(chain(head.as_str(), "']"))
        },
        None => match name {
            Some(n) => {
                let head = chain("meta[name='", n);
                Some(chain(head.as_str(), "']"))
            },
            None => None,
        },
    }
}

/// The `content` of the first `meta` element of `dom` that carries
/// `property`, or else `name`. Without either there is nothing to look for.
pub fn get_meta_content(dom: &scraper::Html, property: Option<&str>, name: Option<&str>) -> (out:
    Option<String>)
    ensures
        text_of(out) == match meta_selector(
            match property {
                Some(p) => Some(p@),
                None => None,
            },
            match name {
                Some(n) => Some(n@),
                None => None,
            },
        ) {
            Some(css) => first_attr(*dom, css, "content"@).text(),
            None => None,
        },
{
    match meta_selector_for(property, name) {
        None => None,
        Some(css) => read_first_attr(dom, css.as_str(), "content").into_text(),
    }
}

/// The value of `attribute` on the `body` element of `dom`.
pub fn get_body_content(dom: &scraper::Html, attribute: &str) -> (out: Option<String>)
    ensures
        text_of(out) == first_attr(*dom, "body"@, attribute@).text(),
{
    read_first_attr(dom, "body", attribute).into_text()
}

} // verus!
