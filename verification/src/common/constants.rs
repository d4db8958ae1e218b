//! Constants of the site: its addresses and the closed lists of names that
//! it knows.

use vstd::prelude::*;

verus! {

/// The site's address, without a slash at its end.
pub const DOMAIN: &'static str = "https://letterboxd.com";

/// The site's address, with a slash at its end.
pub const SITE: &'static str = "https://letterboxd.com/";

/// The address of the site's short links.
pub const SITE_SHORT: &'static str = "https://boxd.it/";

/// The site's host name.
pub const DOMAIN_FULL: &'static str = "letterboxd.com";

/// The host name of the site's short links.
pub const DOMAIN_SHORT: &'static str = "boxd.it";

/// The schemes that an address of the site may begin with.
pub const URL_PROTOCOLS: [&'static str; 2] = ["http://", "https://"];

/// The host names of the site, each with the slash that follows it.
pub const DOMAIN_MATCHES: [&'static str; 2] = ["letterboxd.com/", "boxd.it/"];

/// The months of the year, abbreviated as the site writes them.
pub const MONTH_ABBREVIATIONS: [&'static str; 12] = [
    "Jan",
    "Feb",
    "Mar",
    "Apr",
    "May",
    "Jun",
    "Jul",
    "Aug",
    "Sep",
    "Oct",
    "Nov",
    "Dec",
];

/// The genres that the site files films under.
pub const GENRES: [&'static str; 19] = [
    "action",
    "adventure",
    "animation",
    "comedy",
    "crime",
    "documentary",
    "drama",
    "family",
    "fantasy",
    "history",
    "horror",
    "music",
    "mystery",
    "romance",
    "science-fiction",
    "tv-movie",
    "thriller",
    "war",
    "western",
];

/// The kinds of result that a search can be narrowed to.
pub const SEARCH_FILTERS: [&'static str; 11] = [
    "films",
    "reviews",
    "lists",
    "original-lists",
    "stories",
    "cast-crew",
    "members",
    "tags",
    "articles",
    "episodes",
    "full-text",
];

} // verus!
