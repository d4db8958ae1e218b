//! What the record extractors share: how a slug is read from a link and how
//! a link is made into an address of the site.

use vstd::prelude::*;
use crate::common::constants::DOMAIN;
use crate::text::{
    chars_of, chain, matches_at, starts_with_at, string_of, trim_leading, trim_trailing,
    without_leading, without_trailing,
};

verus! {

/// The path under which the site files its films.
pub const FILM_SEGMENT: &'static str = "/film/";

/// The path under which the site files its lists.
pub const LIST_SEGMENT: &'static str = "/list/";

/// The slug in the link `href` to an entity filed under `segment`: what is
/// left of the link without the segment at its front and the slashes at its
/// end. A link that does not begin with the segment has no slug, nor has one
/// of which nothing is left.
pub open spec fn slug_of(href: Seq<char>, segment: Seq<char>) -> Option<Seq<char>> {
    let slug = without_trailing(without_leading(href, segment), "/"@);
    if matches_at(href, segment, 0) && slug.len() > 0 {
        Some(slug)
    } else {
        None
    }
}

/// The slug in the link `href` to an entity filed under `segment`.
pub fn slug_from_href(href: &str, segment: &str) -> (slug: Option<String>)
    ensures
        match slug {
            Some(s) => slug_of(href@, segment@) == Some(s@),
            None => slug_of(href@, segment@) is None,
        },
        slug is Some ==> slug->Some_0@.len() > 0,
{
    let link = chars_of(href);
    let prefix = chars_of(segment);
    if !starts_with_at(&link, &prefix, 0) {
        return None;
    }
    let slash = chars_of("/");
    let rest = trim_leading(&link, &prefix);
    let slug = trim_trailing(&rest, &slash);
    if slug.len() == 0 {
        None
    } else {
        Some(string_of(&slug))
    }
}

/// The slug in a link to a film.
pub open spec fn film_slug_of(href: Seq<char>) -> Option<Seq<char>> {
    slug_of(href, FILM_SEGMENT@)
}

/// The address on the site that the link `href` leads to.
pub open spec fn site_url(href: Seq<char>) -> Seq<char> {
    DOMAIN@ + href
}

/// The address on the site that the link `href` leads to.
pub fn site_address(href: &str) -> (url: String)
    ensures
        url@ == site_url(href@),
{
    chain(DOMAIN, href)
}

} // verus!
