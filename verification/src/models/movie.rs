//! A film as its own page shows it.

use vstd::prelude::*;
use crate::common::constants::DOMAIN;
use crate::common::error::Error;
use crate::html::{
    all_inner, first_attr, first_inner, read_all_inner, read_first_attr, read_first_inner, text_of,
    views, Lookup, LookupView,
};
use crate::models::films::{read_year, year_of};
use crate::numeric::{parse_scaled, scaled_u32};
use crate::text::{chars_of, chain, replace_all, replaced, string_of};

verus! {

/// A film's trailer.
#[derive(Debug, Clone)]
pub struct MovieTrailer {
    pub id: String,
    pub link: String,
    pub embed_url: String,
}

/// Who made a film, and where.
#[derive(Debug, Clone)]
pub struct MovieDetails {
    pub director: Vec<String>,
    pub writer: Vec<String>,
    pub producer: Vec<String>,
    pub cinematographer: Vec<String>,
    pub editor: Vec<String>,
    pub composer: Vec<String>,
    pub production_companies: Vec<String>,
    pub countries: Vec<String>,
    pub languages: Vec<String>,
}

/// A person of a film's cast or crew.
#[derive(Debug, Clone)]
pub struct MoviePerson {
    pub name: String,
    pub role_name: Option<String>,
    pub slug: String,
    pub url: String,
}

/// A review of a film.
#[derive(Debug, Clone)]
pub struct MovieReview {
    pub author: String,
    /// The rating, in hundredths of a star.
    pub rating: Option<u32>,
    pub content: String,
    pub likes: u32,
    pub date: String,
}

/// A film.
#[derive(Debug, Clone)]
pub struct Movie {
    pub url: String,
    pub slug: String,
    pub movie_id: Option<u64>,
    pub title: String,
    pub original_title: Option<String>,
    /// The runtime, in minutes.
    pub runtime: Option<u32>,
    /// The average rating, in hundredths of a star.
    pub rating: Option<u32>,
    pub year: Option<i32>,
    pub tmdb_link: Option<String>,
    pub imdb_link: Option<String>,
    pub poster: Option<String>,
    pub banner: Option<String>,
    pub tagline: Option<String>,
    pub description: Option<String>,
    pub trailer: Option<MovieTrailer>,
    pub alternative_titles: Vec<String>,
    pub details: Option<MovieDetails>,
    pub genres: Vec<String>,
    pub cast: Vec<MoviePerson>,
    pub crew: Vec<MoviePerson>,
    pub popular_reviews: Vec<MovieReview>,
}

/// What a film's page holds: the texts of headline, average rating, tagline
/// and description, the year that the poster carries, and the genres.
#[derive(Debug, Clone)]
pub struct MoviePage {
    pub title: Lookup,
    pub year: Lookup,
    pub rating: Lookup,
    pub tagline: Lookup,
    pub description: Lookup,
    pub genres: Vec<String>,
}

/// A `MoviePage` with its texts as character sequences.
pub struct MoviePageView {
    pub title: LookupView,
    pub year: LookupView,
    pub rating: LookupView,
    pub tagline: LookupView,
    pub description: LookupView,
    pub genres: Seq<Seq<char>>,
}

impl View for MoviePage {
    type V = MoviePageView;

    open spec fn view(&self) -> MoviePageView {
        MoviePageView {
            title: self.title@,
            year: self.year@,
            rating: self.rating@,
            tagline: self.tagline@,
            description: self.description@,
            genres: views(self.genres@),
        }
    }
}

/// The title of the film under `slug` whose page shows the headline
/// `title`: the headline, or the slug with spaces for its dashes where the
/// page has no headline.
pub open spec fn title_of(title: LookupView, slug: Seq<char>) -> Seq<char> {
    match title {
        LookupView::Value(text) => text,
        _ => replaced(slug, "-"@, " "@),
    }
}

/// The rating that a text writes as a decimal number of stars, in
/// hundredths of a star; what is below a hundredth is cut off.
pub open spec fn rating_of(rating: LookupView) -> Option<u32> {
    match rating {
        LookupView::Value(text) => scaled_u32(text, 2),
        _ => None,
    }
}

/// Reads the rating that a text writes, in hundredths of a star.
pub fn read_rating(rating: Lookup) -> (out: Option<u32>)
    ensures
        out == rating_of(rating@),
{
    match rating {
        Lookup::Value(text) => parse_scaled(&chars_of(text.as_str()), 2),
        _ => None,
    }
}

/// What the page of a film holds.
pub open spec fn movie_page_of(dom: scraper::Html) -> MoviePageView {
    MoviePageView {
        title: first_inner(dom, "h1.headline-1"@),
        year: first_attr(dom, ".film-poster"@, "data-film-year"@),
        rating: first_inner(dom, ".average-rating"@),
        tagline: first_inner(dom, ".tagline"@),
        description: first_inner(dom, ".truncate p"@),
        genres: all_inner(dom, "#tab-genres .text-slug"@),
    }
}

/// Whether `movie` is the film under `slug` at `url` as the page `page`
/// shows it: with the page's title, year, rating, tagline, description and
/// genres, and with everything else unknown or empty.
pub open spec fn shows_movie(
    movie: Movie,
    page: MoviePageView,
    slug: Seq<char>,
    url: Seq<char>,
) -> bool {
    &&& movie.url@ == url
    &&& movie.slug@ == slug
    &&& movie.title@ == title_of(page.title, slug)
    &&& movie.year == year_of(page.year)
    &&& movie.rating == rating_of(page.rating)
    &&& text_of(movie.tagline) == page.tagline.text()
    &&& text_of(movie.description) == page.description.text()
    &&& views(movie.genres@) == page.genres
    &&& movie.movie_id is None
    &&& movie.original_title is None
    &&& movie.runtime is None
    &&& movie.tmdb_link is None
    &&& movie.imdb_link is None
    &&& movie.poster is None
    &&& movie.banner is None
    &&& movie.trailer is None
    &&& movie.details is None
    &&& movie.alternative_titles@.len() == 0
    &&& movie.cast@.len() == 0
    &&& movie.crew@.len() == 0
    &&& movie.popular_reviews@.len() == 0
}

impl MoviePage {
    /// Reads what a film's page holds.
    pub fn read(dom: &scraper::Html) -> (out: MoviePage)
        ensures
            out@ == movie_page_of(*dom),
    {
        MoviePage {
            title: read_first_inner(dom, "h1.headline-1"),
            year: read_first_attr(dom, ".film-poster", "data-film-year"),
            rating: read_first_inner(dom, ".average-rating"),
            tagline: read_first_inner(dom, ".tagline"),
            description: read_first_inner(dom, ".truncate p"),
            genres: read_all_inner(dom, "#tab-genres .text-slug"),
        }
    }
}

impl Movie {
    /// The address of the page of the film under `slug`.
    pub fn page_url(slug: &str) -> (url: String)
        ensures
            url@ == DOMAIN@ + "/film/"@ + slug@,
    {
        let head = chain(DOMAIN, "/film/");
        chain(head.as_str(), slug)
    }

    /// The address of the section `section` of this film's pages.
    pub fn section_url(&self, section: &str) -> (url: String)
        ensures
            url@ == DOMAIN@ + "/film/"@ + self.slug@ + "/"@ + section@ + "/"@,
    {
        let head = chain(DOMAIN, "/film/");
        let head = chain(head.as_str(), self.slug.as_str());
        let head = chain(head.as_str(), "/");
        let head = chain(head.as_str(), section);
        chain(head.as_str(), "/")
    }

    /// The address of the page that lists who watched this film.
    pub fn watchers_url(&self) -> (url: String)
        ensures
            url@ == DOMAIN@ + "/film/"@ + self.slug@ + "/"@ + "members"@ + "/"@,
    {
        self.section_url("members")
    }

    /// The address of the page of this film's reviews.
    pub fn reviews_url(&self) -> (url: String)
        ensures
            url@ == DOMAIN@ + "/film/"@ + self.slug@ + "/"@ + "reviews"@ + "/"@,
    {
        self.section_url("reviews")
    }

    /// The address of the page of films like this one.
    pub fn similar_url(&self) -> (url: String)
        ensures
            url@ == DOMAIN@ + "/film/"@ + self.slug@ + "/"@ + "similar"@ + "/"@,
    {
        self.section_url("similar")
    }

    /// The film under `slug` at `url` as its page shows it. What the page
    /// does not show is unknown or empty.
    pub fn from_page(page: MoviePage, slug: &str, url: &str) -> (movie: Movie)
        ensures
            shows_movie(movie, page@, slug@, url@),
    {
        let title = match page.title {
            Lookup::Value(text) => text,
            _ => string_of(&replace_all(&chars_of(slug), &chars_of("-"), &chars_of(" "))),
        };
        Movie {
            url: url.to_owned(),
            slug: slug.to_owned(),
            movie_id: None,
            title,
            original_title: None,
            runtime: None,
            rating: read_rating(page.rating),
            year: read_year(page.year),
            tmdb_link: None,
            imdb_link: None,
            poster: None,
            banner: None,
            tagline: page.tagline.into_text(),
            description: page.description.into_text(),
            trailer: None,
            alternative_titles: Vec::new(),
            details: None,
            genres: page.genres,
            cast: Vec::new(),
            crew: Vec::new(),
            popular_reviews: Vec::new(),
        }
    }

    /// Reads the film under `slug` at `url` from its page `dom`.
    pub fn parse_movie_data(dom: &scraper::Html, slug: &str, url: &str) -> (res: Result<
        Movie,
        Error,
    >)
        ensures
            res is Ok,
            shows_movie(res->Ok_0, movie_page_of(*dom), slug@, url@),
    {
        Ok(Movie::from_page(MoviePage::read(dom), slug, url))
    }
}

} // verus!
