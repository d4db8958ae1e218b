//! The records that the site's pages give, and the collections made of them.

use vstd::prelude::*;
use crate::collection::Slugged;
use crate::html::{text_of, views};

pub mod films;
pub mod list;
pub mod movie;
pub mod search;
pub mod user;

pub use films::{FilmEntry, Films};
pub use list::{List, ListComment, ListFilm};
pub use movie::Movie;
pub use search::Search;
pub use user::{DiaryData, DiaryEntry, FavoriteMovie, User, UserRecent};

verus! {

/// A film on a user's watchlist.
#[derive(Debug, Clone)]
pub struct WatchlistMovie {
    pub name: String,
    pub slug: String,
    pub url: String,
}

/// A `WatchlistMovie` with its texts as character sequences.
pub struct WatchlistMovieView {
    pub name: Seq<char>,
    pub slug: Seq<char>,
    pub url: Seq<char>,
}

impl View for WatchlistMovie {
    type V = WatchlistMovieView;

    open spec fn view(&self) -> WatchlistMovieView {
        WatchlistMovieView { name: self.name@, slug: self.slug@, url: self.url@ }
    }
}

impl Slugged for WatchlistMovie {
    open spec fn key(&self) -> Seq<char> {
        self.slug@
    }

    fn slug(&self) -> (s: &String) {
        &self.slug
    }
}

/// A film in a user's diary, with what the film's own page adds to it.
#[derive(Debug, Clone)]
pub struct DiaryMovieEntry {
    pub name: String,
    pub slug: String,
    pub title: String,
    pub year: Option<u16>,
    pub director: Option<String>,
    pub genres: Vec<String>,
    /// The runtime, in minutes.
    pub runtime: Option<u16>,
    /// The rating, in hundredths of a star.
    pub rating: Option<u32>,
    pub description: Option<String>,
    /// The month of the entry, where the diary shows its date.
    pub month: Option<u32>,
    /// The day of the entry, where the diary shows its date.
    pub day: Option<u32>,
}

/// A `DiaryMovieEntry` with its texts as character sequences.
pub struct DiaryMovieEntryView {
    pub name: Seq<char>,
    pub slug: Seq<char>,
    pub title: Seq<char>,
    pub year: Option<u16>,
    pub director: Option<Seq<char>>,
    pub genres: Seq<Seq<char>>,
    pub runtime: Option<u16>,
    pub rating: Option<u32>,
    pub description: Option<Seq<char>>,
    pub month: Option<u32>,
    pub day: Option<u32>,
}

impl View for DiaryMovieEntry {
    type V = DiaryMovieEntryView;

    open spec fn view(&self) -> DiaryMovieEntryView {
        DiaryMovieEntryView {
            name: self.name@,
            slug: self.slug@,
            title: self.title@,
            year: self.year,
            director: text_of(self.director),
            genres: views(self.genres@),
            runtime: self.runtime,
            rating: self.rating,
            description: text_of(self.description),
            month: self.month,
            day: self.day,
        }
    }
}

impl Slugged for DiaryMovieEntry {
    open spec fn key(&self) -> Seq<char> {
        self.slug@
    }

    fn slug(&self) -> (s: &String) {
        &self.slug
    }
}

/// A year as far as sixteen bits hold it.
pub open spec fn small_year(year: Option<i32>) -> Option<u16> {
    match year {
        Some(y) => if 0 <= y <= u16::MAX {
            Some(y as u16)
        } else {
            None
        },
        None => None,
    }
}

/// A runtime as far as sixteen bits hold it.
pub open spec fn small_runtime(runtime: Option<u32>) -> Option<u16> {
    match runtime {
        Some(r) => if r <= u16::MAX {
            Some(r as u16)
        } else {
            None
        },
        None => None,
    }
}

/// The first director of a film, where its page names one.
pub open spec fn first_director(movie: Movie) -> Option<Seq<char>> {
    match movie.details {
        Some(details) => if details.director@.len() > 0 {
            Some(details.director@[0]@)
        } else {
            None
        },
        None => None,
    }
}

/// A diary entry with what the page of its film adds: title, year, first
/// director, genres, runtime, rating and description are the film's; name,
/// slug and date stay.
pub open spec fn enriched(entry: DiaryMovieEntryView, movie: Movie) -> DiaryMovieEntryView {
    DiaryMovieEntryView {
        name: entry.name,
        slug: entry.slug,
        title: movie.title@,
        year: small_year(movie.year),
        director: first_director(movie),
        genres: views(movie.genres@),
        runtime: small_runtime(movie.runtime),
        rating: movie.rating,
        description: text_of(movie.description),
        month: entry.month,
        day: entry.day,
    }
}

/// A copy of each of the strings of `v`.
pub fn clone_strings(v: &Vec<String>) -> (out: Vec<String>)
    ensures
        views(out@) == views(v@),
{
    let mut out: Vec<String> = Vec::new();
    let mut i: usize = 0;
    while i < v.len()
        invariant
            i <= v.len(),
            out@.len() == i,
            forall|k: int| 0 <= k < i ==> out@[k]@ == v@[k]@,
        decreases v.len() - i,
    {
        out.push(v[i].clone());
        i += 1;
    }
    out
}

/// A copy of an optional string.
pub fn clone_text(o: &Option<String>) -> (out: Option<String>)
    ensures
        text_of(out) == text_of(*o),
{
    match o {
        Some(s) => Some(s.clone()),
        None => None,
    }
}

impl DiaryMovieEntry {
    /// Adds what the page of the entry's film shows to the entry.
    pub fn enrich(self, movie: &Movie) -> (out: DiaryMovieEntry)
        ensures
            out@ == enriched(self@, *movie),
    {
        let director = match &movie.details {
            Some(details) => if details.director.len() > 0 {
                Some(details.director[0].clone())
            } else {
                None
            },
            None => None,
        };
        DiaryMovieEntry {
            name: self.name,
            slug: self.slug,
            title: movie.title.clone(),
            year: match movie.year {
                Some(y) => if 0 <= y && y <= 0xffff {
                    Some(y as u16)
                } else {
                    None
                },
                None => None,
            },
            director,
            genres: clone_strings(&movie.genres),
            runtime: match movie.runtime {
                Some(r) => if r <= 0xffff {
                    Some(r as u16)
                } else {
                    None
                },
                None => None,
            },
            rating: movie.rating,
            description: clone_text(&movie.description),
            month: self.month,
            day: self.day,
        }
    }
}

} // verus!
