//! Films as a listing shows them, in a grid of posters or in a list with
//! details, and the collection of a listing's films.

use vstd::prelude::*;
use crate::collection::{
    decides, lemma_merged_distinct, merged, select_where, targets, Collection, Keyed, Slugged,
};
use crate::common::error::{Error, ErrorView};
use crate::engine::{fresh, Decision, RenderingShape};
use crate::extract::{film_slug_of, site_address, site_url, slug_from_href, FILM_SEGMENT};
use crate::html::{
    attr_in, each_hit, inner_in, outcome, parse_document, parsed, read_attr, read_inner, select_all,
    text_of, views, Lookup, LookupView,
};
use crate::numeric::{i32_of, parse_i32};
use crate::run::{after_page, keyed_shape, policy_for, Run};
use crate::text::{chain, chars_of, contains, occurs_in, replace_all, replaced, string_of};

verus! {

/// One film of a listing.
#[derive(Debug, Clone)]
pub struct FilmEntry {
    pub title: String,
    pub year: Option<i32>,
    pub slug: String,
    pub url: String,
    pub poster: Option<String>,
    /// The rating, in hundredths of a star.
    pub rating: Option<u32>,
    pub director: Option<String>,
    /// Whether the film has been watched, where that is known.
    pub watched: Option<bool>,
    /// Whether the film has been liked, where that is known.
    pub liked: Option<bool>,
    /// Whether the film is on the watchlist, where that is known.
    pub in_watchlist: Option<bool>,
}

/// A `FilmEntry` with its texts as character sequences.
pub struct FilmEntryView {
    pub title: Seq<char>,
    pub year: Option<i32>,
    pub slug: Seq<char>,
    pub url: Seq<char>,
    pub poster: Option<Seq<char>>,
    pub rating: Option<u32>,
    pub director: Option<Seq<char>>,
    pub watched: Option<bool>,
    pub liked: Option<bool>,
    pub in_watchlist: Option<bool>,
}

impl View for FilmEntry {
    type V = FilmEntryView;

    open spec fn view(&self) -> FilmEntryView {
        FilmEntryView {
            title: self.title@,
            year: self.year,
            slug: self.slug@,
            url: self.url@,
            poster: text_of(self.poster),
            rating: self.rating,
            director: text_of(self.director),
            watched: self.watched,
            liked: self.liked,
            in_watchlist: self.in_watchlist,
        }
    }
}

impl Slugged for FilmEntry {
    open spec fn key(&self) -> Seq<char> {
        self.slug@
    }

    fn slug(&self) -> (s: &String) {
        &self.slug
    }
}

/// What a film's place in a grid of posters holds: the alternative text and
/// the source of the first image, and the target of the first link.
#[derive(Debug, Clone)]
pub struct GridFragment {
    pub title: Lookup,
    pub href: Lookup,
    pub poster: Lookup,
}

/// A `GridFragment` with its texts as character sequences.
pub struct GridFragmentView {
    pub title: LookupView,
    pub href: LookupView,
    pub poster: LookupView,
}

impl View for GridFragment {
    type V = GridFragmentView;

    open spec fn view(&self) -> GridFragmentView {
        GridFragmentView { title: self.title@, href: self.href@, poster: self.poster@ }
    }
}

/// What a film's row in a list with details holds: the text and the target
/// of the title's link, the text of the year, and the source of the poster.
#[derive(Debug, Clone)]
pub struct DetailFragment {
    pub title: Lookup,
    pub href: Lookup,
    pub year: Lookup,
    pub poster: Lookup,
}

/// A `DetailFragment` with its texts as character sequences.
pub struct DetailFragmentView {
    pub title: LookupView,
    pub href: LookupView,
    pub year: LookupView,
    pub poster: LookupView,
}

impl View for DetailFragment {
    type V = DetailFragmentView;

    open spec fn view(&self) -> DetailFragmentView {
        DetailFragmentView {
            title: self.title@,
            href: self.href@,
            year: self.year@,
            poster: self.poster@,
        }
    }
}

/// The film with the given title, link and slug, about which nothing else is
/// known.
pub open spec fn bare_film(title: Seq<char>, href: Seq<char>, slug: Seq<char>) -> FilmEntryView {
    FilmEntryView {
        title,
        year: None,
        slug,
        url: site_url(href),
        poster: None,
        rating: None,
        director: None,
        watched: None,
        liked: None,
        in_watchlist: None,
    }
}

/// The film in a place of a grid. The image's alternative text is the title
/// and the link gives the slug; without either there is no film. The poster
/// is taken where the image names one.
pub open spec fn grid_film(f: GridFragmentView) -> Result<FilmEntryView, ErrorView> {
    if f.title is NoElement {
        Err(ErrorView::Parse("Film image not found"@))
    } else if f.href is NoElement {
        Err(ErrorView::Parse("Film link not found"@))
    } else if f.title is NoValue {
        Err(ErrorView::Parse("Film title not found"@))
    } else if f.href is NoValue {
        Err(ErrorView::Parse("Film href not found"@))
    } else {
        match film_slug_of(f.href->Value_0) {
            None => Err(ErrorView::Parse("Film slug not found"@)),
            Some(slug) => Ok(
                FilmEntryView { poster: f.poster.text(), ..bare_film(
                    f.title->Value_0,
                    f.href->Value_0,
                    slug,
                ) },
            ),
        }
    }
}

/// The year that a text writes, if it writes one.
pub open spec fn year_of(year: LookupView) -> Option<i32> {
    match year {
        LookupView::Value(text) => i32_of(text),
        _ => None,
    }
}

/// The film in a row of a list with details. The link must be there, with
/// its text as the title and a slug in its target; year and poster are
/// taken where the row has them.
pub open spec fn detail_film(f: DetailFragmentView) -> Result<FilmEntryView, ErrorView> {
    if !(f.title is Value) || f.href is NoElement {
        Err(ErrorView::Parse("Film title not found"@))
    } else if f.href is NoValue {
        Err(ErrorView::Parse("Film URL not found"@))
    } else {
        match film_slug_of(f.href->Value_0) {
            None => Err(ErrorView::Parse("Film slug not found"@)),
            Some(slug) => Ok(
                FilmEntryView { year: year_of(f.year), poster: f.poster.text(), ..bare_film(
                    f.title->Value_0,
                    f.href->Value_0,
                    slug,
                ) },
            ),
        }
    }
}

/// Reads the year that a text writes, if it writes one.
pub fn read_year(year: Lookup) -> (out: Option<i32>)
    ensures
        out == year_of(year@),
{
    match year {
        Lookup::Value(text) => {
            let digits = chars_of(text.as_str());
            parse_i32(&digits)
        },
        _ => None,
    }
}

/// What the place of a grid in `element` holds.
pub open spec fn grid_fragment_of(element: scraper::ElementRef) -> GridFragmentView {
    GridFragmentView {
        title: attr_in(element, "img"@, "alt"@),
        href: attr_in(element, "a"@, "href"@),
        poster: attr_in(element, "img"@, "src"@),
    }
}

/// What the row of a list with details in `element` holds.
pub open spec fn detail_fragment_of(element: scraper::ElementRef) -> DetailFragmentView {
    DetailFragmentView {
        title: inner_in(element, ".film-title a"@),
        href: attr_in(element, ".film-title a"@, "href"@),
        year: inner_in(element, ".film-year"@),
        poster: attr_in(element, ".film-poster img"@, "src"@),
    }
}

/// What the places of the grid on a page hold, in document order.
pub open spec fn grid_page(dom: scraper::Html) -> Seq<GridFragmentView> {
    each_hit(dom, ".poster-container"@, |e: scraper::ElementRef<'static>| grid_fragment_of(e))
}

/// What the rows of the list with details on a page hold, in document
/// order.
pub open spec fn detail_page(dom: scraper::Html) -> Seq<DetailFragmentView> {
    each_hit(dom, ".film-detail"@, |e: scraper::ElementRef<'static>| detail_fragment_of(e))
}

/// The films on a page of a listing in the layout `shape`: those of the
/// grid for a grid, those of the list with details for every other layout.
pub open spec fn page_films(dom: scraper::Html, shape: RenderingShape) -> Seq<FilmEntryView> {
    if shape is Grid {
        grid_films(grid_page(dom))
    } else {
        detail_films(detail_page(dom))
    }
}

impl GridFragment {
    /// Reads a film's place in a grid from its element.
    pub fn read(element: &scraper::ElementRef) -> (out: GridFragment)
        ensures
            out@ == grid_fragment_of(*element),
    {
        GridFragment {
            title: read_attr(element, "img", "alt"),
            href: read_attr(element, "a", "href"),
            poster: read_attr(element, "img", "src"),
        }
    }
}

impl DetailFragment {
    /// Reads a film's row in a list with details from its element.
    pub fn read(element: &scraper::ElementRef) -> (out: DetailFragment)
        ensures
            out@ == detail_fragment_of(*element),
    {
        DetailFragment {
            title: read_inner(element, ".film-title a"),
            href: read_attr(element, ".film-title a", "href"),
            year: read_inner(element, ".film-year"),
            poster: read_attr(element, ".film-poster img", "src"),
        }
    }
}

impl FilmEntry {
    /// The film in a place of a grid.
    pub fn from_grid(fragment: GridFragment) -> (res: Result<FilmEntry, Error>)
        ensures
            outcome(res) == grid_film(fragment@),
            res is Ok ==> res->Ok_0.slug@.len() > 0,
    {
        let title = match fragment.title {
            Lookup::NoElement => { return Err(Error::parse("Film image not found")); },
            Lookup::NoValue => None,
            Lookup::Value(text) => Some(text),
        };
        let href = match fragment.href {
            Lookup::NoElement => { return Err(Error::parse("Film link not found")); },
            Lookup::NoValue => None,
            Lookup::Value(text) => Some(text),
        };
        let title = match title {
            None => { return Err(Error::parse("Film title not found")); },
            Some(text) => text,
        };
        let href = match href {
            None => { return Err(Error::parse("Film href not found")); },
            Some(text) => text,
        };
        let slug = match slug_from_href(href.as_str(), FILM_SEGMENT) {
            None => { return Err(Error::parse("Film slug not found")); },
            Some(slug) => slug,
        };
        Ok(
            FilmEntry {
                title,
                year: None,
                slug,
                url: site_address(href.as_str()),
                poster: fragment.poster.into_text(),
                rating: None,
                director: None,
                watched: None,
                liked: None,
                in_watchlist: None,
            },
        )
    }

    /// The film in a row of a list with details.
    pub fn from_detail(fragment: DetailFragment) -> (res: Result<FilmEntry, Error>)
        ensures
            outcome(res) == detail_film(fragment@),
            res is Ok ==> res->Ok_0.slug@.len() > 0,
    {
        let title = match fragment.title {
            Lookup::Value(text) => text,
            _ => { return Err(Error::parse("Film title not found")); },
        };
        let href = match fragment.href {
            Lookup::NoElement => { return Err(Error::parse("Film title not found")); },
            Lookup::NoValue => { return Err(Error::parse("Film URL not found")); },
            Lookup::Value(text) => text,
        };
        let slug = match slug_from_href(href.as_str(), FILM_SEGMENT) {
            None => { return Err(Error::parse("Film slug not found")); },
            Some(slug) => slug,
        };
        Ok(
            FilmEntry {
                title,
                year: read_year(fragment.year),
                slug,
                url: site_address(href.as_str()),
                poster: fragment.poster.into_text(),
                rating: None,
                director: None,
                watched: None,
                liked: None,
                in_watchlist: None,
            },
        )
    }

    /// Reads the film in a place of a grid from its element.
    pub fn parse_horizontal_film(element: &scraper::ElementRef) -> (res: Result<FilmEntry, Error>)
        ensures
            outcome(res) == grid_film(grid_fragment_of(*element)),
            res is Ok ==> res->Ok_0.slug@.len() > 0,
    {
        let fragment = GridFragment::read(element);
        FilmEntry::from_grid(fragment)
    }

    /// Reads the film in a row of a list with details from its element.
    pub fn parse_vertical_film(element: &scraper::ElementRef) -> (res: Result<FilmEntry, Error>)
        ensures
            outcome(res) == detail_film(detail_fragment_of(*element)),
            res is Ok ==> res->Ok_0.slug@.len() > 0,
    {
        let fragment = DetailFragment::read(element);
        FilmEntry::from_detail(fragment)
    }
}

/// The films in the places of a grid, in their order; a place without a film
/// is left out.
pub open spec fn grid_films(fragments: Seq<GridFragmentView>) -> Seq<FilmEntryView>
    decreases fragments.len(),
{
    if fragments.len() == 0 {
        Seq::empty()
    } else {
        let front = grid_films(fragments.drop_last());
        match grid_film(fragments.last()) {
            Ok(film) => front.push(film),
            Err(_) => front,
        }
    }
}

/// The films in the rows of a list with details, in their order; a row
/// without a film is left out.
pub open spec fn detail_films(fragments: Seq<DetailFragmentView>) -> Seq<FilmEntryView>
    decreases fragments.len(),
{
    if fragments.len() == 0 {
        Seq::empty()
    } else {
        let front = detail_films(fragments.drop_last());
        match detail_film(fragments.last()) {
            Ok(film) => front.push(film),
            Err(_) => front,
        }
    }
}

/// A page gives exactly as many films as it has places that hold one: the
/// places that hold none neither count nor stand in the way.
pub proof fn lemma_grid_films_count(fragments: Seq<GridFragmentView>)
    ensures
        grid_films(fragments).len() == fragments.filter(
            |f: GridFragmentView| grid_film(f) is Ok,
        ).len(),
        grid_films(fragments).len() <= fragments.len(),
    decreases fragments.len(),
{
    reveal(Seq::filter);
    if fragments.len() > 0 {
        lemma_grid_films_count(fragments.drop_last());
    }
}

/// A page gives exactly as many films as it has rows that hold one.
pub proof fn lemma_detail_films_count(fragments: Seq<DetailFragmentView>)
    ensures
        detail_films(fragments).len() == fragments.filter(
            |f: DetailFragmentView| detail_film(f) is Ok,
        ).len(),
        detail_films(fragments).len() <= fragments.len(),
    decreases fragments.len(),
{
    reveal(Seq::filter);
    if fragments.len() > 0 {
        lemma_detail_films_count(fragments.drop_last());
    }
}

/// Reading the same place of a grid twice gives the same film, or the same
/// failure.
pub proof fn lemma_grid_extraction_repeats(
    first: Result<FilmEntry, Error>,
    second: Result<FilmEntry, Error>,
    fragment: GridFragmentView,
)
    requires
        outcome(first) == grid_film(fragment),
        outcome(second) == grid_film(fragment),
    ensures
        outcome(first) == outcome(second),
{
}

/// Reading the same row of a list twice gives the same film, or the same
/// failure.
pub proof fn lemma_detail_extraction_repeats(
    first: Result<FilmEntry, Error>,
    second: Result<FilmEntry, Error>,
    fragment: DetailFragmentView,
)
    requires
        outcome(first) == detail_film(fragment),
        outcome(second) == detail_film(fragment),
    ensures
        outcome(first) == outcome(second),
{
}

/// The films in the places of a grid, in their order.
pub fn films_from_grid(fragments: Vec<GridFragment>) -> (films: Vec<FilmEntry>)
    ensures
        views(films@) == grid_films(views(fragments@)),
        films@.len() <= fragments@.len(),
        forall|i: int| 0 <= i < films@.len() ==> (#[trigger] films@[i]).slug@.len() > 0,
{
    let ghost raw = fragments@;
    let ghost all = views(fragments@);
    let mut films: Vec<FilmEntry> = Vec::new();
    for fragment in it: fragments.into_iter()
        invariant
            it.seq() == raw,
            all == views(raw),
            views(films@) == grid_films(all.take(it.index())),
            films@.len() <= it.index(),
            forall|i: int| 0 <= i < films@.len() ==> (#[trigger] films@[i]).slug@.len() > 0,
    {
        proof {
            let k = it.index();
            assert(all.take(k + 1).drop_last() == all.take(k));
        }
        match FilmEntry::from_grid(fragment) {
            Ok(film) => {
                films.push(film);
            },
            Err(_) => {},
        }
    }
    proof {
        assert(all.take(all.len() as int) == all);
    }
    films
}

/// The films in the rows of a list with details, in their order.
pub fn films_from_details(fragments: Vec<DetailFragment>) -> (films: Vec<FilmEntry>)
    ensures
        views(films@) == detail_films(views(fragments@)),
        films@.len() <= fragments@.len(),
        forall|i: int| 0 <= i < films@.len() ==> (#[trigger] films@[i]).slug@.len() > 0,
{
    let ghost raw = fragments@;
    let ghost all = views(fragments@);
    let mut films: Vec<FilmEntry> = Vec::new();
    for fragment in it: fragments.into_iter()
        invariant
            it.seq() == raw,
            all == views(raw),
            views(films@) == detail_films(all.take(it.index())),
            films@.len() <= it.index(),
            forall|i: int| 0 <= i < films@.len() ==> (#[trigger] films@[i]).slug@.len() > 0,
    {
        proof {
            let k = it.index();
            assert(all.take(k + 1).drop_last() == all.take(k));
        }
        match FilmEntry::from_detail(fragment) {
            Ok(film) => {
                films.push(film);
            },
            Err(_) => {},
        }
    }
    proof {
        assert(all.take(all.len() as int) == all);
    }
    films
}

/// Reads the places of a grid from the page `dom`, in document order.
pub fn read_grid(dom: &scraper::Html) -> (fragments: Vec<GridFragment>)
    ensures
        views(fragments@) == grid_page(*dom),
{
    let found = select_all(dom, ".poster-container");
    let mut fragments: Vec<GridFragment> = Vec::new();
    let mut i: usize = 0;
    while i < found.len()
        invariant
            i <= found.len(),
            fragments@.len() == i,
            forall|k: int|
                0 <= k < i ==> (#[trigger] fragments@[k])@ == grid_fragment_of(found@[k]),
        decreases found.len() - i,
    {
        fragments.push(GridFragment::read(&found[i]));
        i += 1;
    }
    fragments
}

/// Reads the rows of a list with details from the page `dom`, in document
/// order.
pub fn read_details(dom: &scraper::Html) -> (fragments: Vec<DetailFragment>)
    ensures
        views(fragments@) == detail_page(*dom),
{
    let found = select_all(dom, ".film-detail");
    let mut fragments: Vec<DetailFragment> = Vec::new();
    let mut i: usize = 0;
    while i < found.len()
        invariant
            i <= found.len(),
            fragments@.len() == i,
            forall|k: int|
                0 <= k < i ==> (#[trigger] fragments@[k])@ == detail_fragment_of(found@[k]),
        decreases found.len() - i,
    {
        fragments.push(DetailFragment::read(&found[i]));
        i += 1;
    }
    fragments
}

/// The films of one listing, keyed by slug.
#[derive(Debug)]
pub struct Films {
    pub url: String,
    pub ajax_url: String,
    pub movies: Keyed<FilmEntry>,
    pub count: usize,
}

/// The address under which the site serves the bare films of the listing at
/// `url`: with `/films/` or else `/film/` led through `/ajax`, or with
/// `/ajax` behind it where it has neither.
pub open spec fn films_ajax_url(url: Seq<char>) -> Seq<char> {
    if occurs_in("/films/"@, url) {
        replaced(url, "/films/"@, "/ajax/films/"@)
    } else if occurs_in("/film/"@, url) {
        replaced(url, "/film/"@, "/ajax/film/"@)
    } else {
        url + "/ajax"@
    }
}

/// The layout of the listing at `url`: a grid under `/films/`, a list with
/// details under `/film/`; any other address names no listing of films.
pub open spec fn films_shape(url: Seq<char>) -> Option<RenderingShape> {
    if occurs_in("/films/"@, url) {
        Some(RenderingShape::Grid)
    } else if occurs_in("/film/"@, url) {
        Some(RenderingShape::List)
    } else {
        None
    }
}

impl Films {
    /// The address under which the site serves the bare films of the
    /// listing at `url`.
    pub fn get_ajax_url(url: &str) -> (out: String)
        ensures
            out@ == films_ajax_url(url@),
    {
        let raw = chars_of(url);
        let films = chars_of("/films/");
        let film = chars_of("/film/");
        if contains(&raw, &films) {
            string_of(&replace_all(&raw, &films, &chars_of("/ajax/films/")))
        } else if contains(&raw, &film) {
            string_of(&replace_all(&raw, &film, &chars_of("/ajax/film/")))
        } else {
            chain(url, "/ajax")
        }
    }

    /// The layout of the listing at `url`.
    pub fn shape_for(url: &str) -> (shape: Option<RenderingShape>)
        ensures
            shape == films_shape(url@),
    {
        let raw = chars_of(url);
        if contains(&raw, &chars_of("/films/")) {
            Some(RenderingShape::Grid)
        } else if contains(&raw, &chars_of("/film/")) {
            Some(RenderingShape::List)
        } else {
            None
        }
    }

    /// Reads the films of a grid from the page `dom`, in document order.
    /// Every film has a slug; a place without a film is left out.
    pub fn extract_horizontal_movies(dom: &scraper::Html) -> (films: Vec<FilmEntry>)
        ensures
            views(films@) == grid_films(grid_page(*dom)),
            forall|i: int| 0 <= i < films@.len() ==> (#[trigger] films@[i]).slug@.len() > 0,
    {
        films_from_grid(read_grid(dom))
    }

    /// Reads the films of a list with details from the page `dom`, in
    /// document order. Every film has a slug; a row without a film is left
    /// out.
    pub fn extract_vertical_movies(dom: &scraper::Html) -> (films: Vec<FilmEntry>)
        ensures
            views(films@) == detail_films(detail_page(*dom)),
            forall|i: int| 0 <= i < films@.len() ==> (#[trigger] films@[i]).slug@.len() > 0,
    {
        films_from_details(read_details(dom))
    }

    /// Reads the films of the page `dom` of a listing in the layout `shape`:
    /// a grid as a grid, every other layout as a list with details.
    pub fn extract_page(dom: &scraper::Html, shape: RenderingShape) -> (films: Vec<FilmEntry>)
        ensures
            views(films@) == page_films(*dom, shape),
            forall|i: int| 0 <= i < films@.len() ==> (#[trigger] films@[i]).slug@.len() > 0,
    {
        match shape {
            RenderingShape::Grid => Films::extract_horizontal_movies(dom),
            _ => Films::extract_vertical_movies(dom),
        }
    }

    /// A run that reads the listing at `url`, which is in the layout
    /// `shape`, from page 1 to its end.
    pub fn begin(url: &str, shape: RenderingShape) -> (run: Run<FilmEntry>)
        ensures
            run.cursor@ == fresh(policy_for(shape)),
            run.cursor.rules() == policy_for(shape),
            run.cursor.base() == films_ajax_url(url@),
            run.collected.records() == Seq::<FilmEntry>::empty(),
            run.collected.is_keyed() == keyed_shape(shape),
    {
        let base = Films::get_ajax_url(url);
        Run::start(base.as_str(), shape)
    }

    /// Takes in the page with the text `body` that was fetched for `run`:
    /// the films on the page go into the run's collection, and their number
    /// decides whether the run goes on.
    pub fn accept_page(run: &mut Run<FilmEntry>, shape: RenderingShape, body: &str) -> (decision:
        Decision)
        ensures
            exists|batch: Seq<FilmEntry>|
                views(batch) == page_films(parsed(body@), shape) && final(run).standing()
                    == after_page(
                    old(run).cursor.rules(),
                    old(run).collected.is_keyed(),
                    old(run).standing(),
                    batch,
                ),
            final(run).cursor.rules() == old(run).cursor.rules(),
            final(run).cursor.base() == old(run).cursor.base(),
            final(run).collected.is_keyed() == old(run).collected.is_keyed(),
            final(run).collected.records().len() >= old(run).collected.records().len(),
            decision == match final(run).cursor@.stopped {
                Some(reason) => Decision::Stop(reason),
                None => Decision::Continue,
            },
    {
        let dom = parse_document(body);
        let batch = Films::extract_page(&dom, shape);
        let decision = run.accept(batch);
        decision
    }

    /// The films that a run collected from the listing at `url`.
    pub fn from_collection(url: &str, collected: Collection<FilmEntry>) -> (films: Films)
        ensures
            films.url@ == url@,
            films.ajax_url@ == films_ajax_url(url@),
            films.movies@ == merged(Seq::<FilmEntry>::empty(), collected.records()),
            collected.is_keyed() ==> films.movies@ == collected.records(),
            films.count == films.movies@.len(),
    {
        let movies = match collected {
            Collection::Keyed(keyed) => {
                let records = keyed.records();
                proof {
                    lemma_merged_distinct(records@);
                }
                keyed
            },
            Collection::Ordered(records) => {
                let mut keyed: Keyed<FilmEntry> = Keyed::new();
                keyed.merge(records);
                keyed
            },
        };
        let count = movies.len();
        Films { url: url.to_owned(), ajax_url: Films::get_ajax_url(url), movies, count }
    }
}

/// A test on a film.
#[derive(Clone, Copy, Debug)]
pub enum FilmFilter {
    /// The film is from this year.
    Year(i32),
    /// The film's rating, in hundredths of a star, is known and at least
    /// this.
    RatingAtLeast(u32),
    /// The film is known to have been watched.
    Watched,
    /// The film is known to have been liked.
    Liked,
    /// The film is known to be on the watchlist.
    InWatchlist,
}

/// Whether `film` passes the test `filter`. A film of which the year, the
/// rating or the flag that is asked for is not known does not pass.
pub open spec fn passes(filter: FilmFilter, film: FilmEntry) -> bool {
    match filter {
        FilmFilter::Year(year) => film.year == Some(year),
        FilmFilter::RatingAtLeast(least) => film.rating is Some && film.rating->Some_0 >= least,
        FilmFilter::Watched => film.watched == Some(true),
        FilmFilter::Liked => film.liked == Some(true),
        FilmFilter::InWatchlist => film.in_watchlist == Some(true),
    }
}

/// Whether an optional flag is known to be set.
pub fn is_set(flag: Option<bool>) -> (set: bool)
    ensures
        set == (flag == Some(true)),
{
    match flag {
        Some(value) => value,
        None => false,
    }
}

/// Whether `film` passes the test `filter`.
pub fn film_passes(filter: FilmFilter, film: &FilmEntry) -> (ok: bool)
    ensures
        ok == passes(filter, *film),
{
    match filter {
        FilmFilter::Year(year) => match film.year {
            Some(y) => y == year,
            None => false,
        },
        FilmFilter::RatingAtLeast(least) => match film.rating {
            Some(r) => r >= least,
            None => false,
        },
        FilmFilter::Watched => is_set(film.watched),
        FilmFilter::Liked => is_set(film.liked),
        FilmFilter::InWatchlist => is_set(film.in_watchlist),
    }
}

impl Films {
    /// The films that pass the test `filter`, in the collection's order. The
    /// films are handed out by reference and the collection is left as it
    /// is.
    pub fn select(&self, filter: FilmFilter) -> (out: Vec<&FilmEntry>)
        ensures
            targets(out@) == self.movies@.filter(|f: FilmEntry| passes(filter, f)),
    {
        let films = self.movies.records();
        let ghost pred = |f: FilmEntry| passes(filter, f);
        let mut out: Vec<&FilmEntry> = Vec::new();
        let mut i: usize = 0;
        while i < films.len()
            invariant
                i <= films.len(),
                pred == (|f: FilmEntry| passes(filter, f)),
                targets(out@) == films@.take(i as int).filter(pred),
            decreases films.len() - i,
        {
            let film = &films[i];
            proof {
                reveal(Seq::filter);
                assert(films@.take(i + 1).drop_last() == films@.take(i as int));
            }
            if film_passes(filter, film) {
                out.push(film);
            }
            i += 1;
        }
        proof {
            assert(films@.take(films.len() as int) == films@);
        }
        out
    }

    /// The films of which `keep` says yes, in the collection's order. The
    /// films are handed out by reference and the collection is left as it
    /// is.
    pub fn select_where<F: Fn(&FilmEntry) -> bool>(&self, keep: F) -> (out: Vec<&FilmEntry>)
        requires
            decides::<FilmEntry, F>(keep),
        ensures
            targets(out@) == self.movies@.filter(|f: FilmEntry| call_ensures(keep, (&f,), true)),
    {
        select_where(self.movies.records(), keep)
    }

    /// The films from the year `year`.
    pub fn filter_by_year(&self, year: i32) -> (out: Vec<&FilmEntry>)
        ensures
            targets(out@) == self.movies@.filter(
                |f: FilmEntry| passes(FilmFilter::Year(year), f),
            ),
    {
        self.select(FilmFilter::Year(year))
    }

    /// The films whose rating is known and at least `min_rating`, in
    /// hundredths of a star.
    pub fn filter_by_rating(&self, min_rating: u32) -> (out: Vec<&FilmEntry>)
        ensures
            targets(out@) == self.movies@.filter(
                |f: FilmEntry| passes(FilmFilter::RatingAtLeast(min_rating), f),
            ),
    {
        self.select(FilmFilter::RatingAtLeast(min_rating))
    }

    /// The films that are known to have been watched.
    pub fn get_watched(&self) -> (out: Vec<&FilmEntry>)
        ensures
            targets(out@) == self.movies@.filter(|f: FilmEntry| passes(FilmFilter::Watched, f)),
    {
        self.select(FilmFilter::Watched)
    }

    /// The films that are known to have been liked.
    pub fn get_liked(&self) -> (out: Vec<&FilmEntry>)
        ensures
            targets(out@) == self.movies@.filter(|f: FilmEntry| passes(FilmFilter::Liked, f)),
    {
        self.select(FilmFilter::Liked)
    }

    /// The films that are known to be on the watchlist.
    pub fn get_in_watchlist(&self) -> (out: Vec<&FilmEntry>)
        ensures
            targets(out@) == self.movies@.filter(
                |f: FilmEntry| passes(FilmFilter::InWatchlist, f),
            ),
    {
        self.select(FilmFilter::InWatchlist)
    }
}

} // verus!
