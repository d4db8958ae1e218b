//! A search on the site and its hits.

use vstd::prelude::*;
use crate::collection::{extend, Collection, Slugged};
use crate::common::constants::{DOMAIN, SEARCH_FILTERS};
use crate::common::error::{Error, ErrorView};
use crate::engine::{resumed, Decision, RenderingShape, StopPolicy};
use crate::html::{outcome, parse_document, parsed, text_of, views};
use crate::models::films::{
    detail_film, detail_fragment_of, detail_page, read_details, DetailFragment,
    DetailFragmentView, FilmEntry, FilmEntryView,
};
use crate::run::after_page;
use crate::run::{policy_for, Run};
use crate::text::{chars_of, chain, is_text};
use crate::utils::transform::{percent_encode, percent_encoded};
use crate::utils::validators::{is_listed, listed};

verus! {

/// A film among the hits of a search.
#[derive(Debug, Clone)]
pub struct SearchFilm {
    pub title: String,
    pub year: Option<i32>,
    pub slug: String,
    pub url: String,
    pub poster: Option<String>,
    /// The rating, in hundredths of a star.
    pub rating: Option<u32>,
    pub director: Option<String>,
}

/// A `SearchFilm` with its texts as character sequences.
pub struct SearchFilmView {
    pub title: Seq<char>,
    pub year: Option<i32>,
    pub slug: Seq<char>,
    pub url: Seq<char>,
    pub poster: Option<Seq<char>>,
    pub rating: Option<u32>,
    pub director: Option<Seq<char>>,
}

impl View for SearchFilm {
    type V = SearchFilmView;

    open spec fn view(&self) -> SearchFilmView {
        SearchFilmView {
            title: self.title@,
            year: self.year,
            slug: self.slug@,
            url: self.url@,
            poster: text_of(self.poster),
            rating: self.rating,
            director: text_of(self.director),
        }
    }
}

impl Slugged for SearchFilm {
    open spec fn key(&self) -> Seq<char> {
        self.slug@
    }

    fn slug(&self) -> (s: &String) {
        &self.slug
    }
}

/// A review among the hits of a search.
#[derive(Debug, Clone)]
pub struct SearchReview {
    pub author: String,
    pub film_title: String,
    pub film_slug: String,
    pub content: String,
    /// The rating, in hundredths of a star.
    pub rating: Option<u32>,
    pub likes: u32,
    pub date: String,
}

/// A list among the hits of a search.
#[derive(Debug, Clone)]
pub struct SearchList {
    pub title: String,
    pub author: String,
    pub slug: String,
    pub url: String,
    pub film_count: u32,
    pub likes: u32,
}

/// A member among the hits of a search.
#[derive(Debug, Clone)]
pub struct SearchMember {
    pub username: String,
    pub display_name: String,
    pub url: String,
    pub avatar: Option<String>,
    pub films_watched: u32,
}

/// A person of cast or crew among the hits of a search.
#[derive(Debug, Clone)]
pub struct SearchPerson {
    pub name: String,
    pub slug: String,
    pub url: String,
    pub photo: Option<String>,
    pub known_for: Vec<String>,
}

/// A tag among the hits of a search.
#[derive(Debug, Clone)]
pub struct SearchTag {
    pub name: String,
    pub url: String,
    pub film_count: u32,
}

/// A story among the hits of a search.
#[derive(Debug, Clone)]
pub struct SearchStory {
    pub title: String,
    pub author: String,
    pub url: String,
    pub date: String,
}

/// An article among the hits of a search.
#[derive(Debug, Clone)]
pub struct SearchArticle {
    pub title: String,
    pub author: String,
    pub url: String,
    pub date: String,
    pub summary: String,
}

/// The hits of a search, by kind and in the order of the site's ranking.
#[derive(Debug, Clone)]
pub struct SearchResults {
    pub films: Vec<SearchFilm>,
    pub reviews: Vec<SearchReview>,
    pub lists: Vec<SearchList>,
    pub members: Vec<SearchMember>,
    pub cast_crew: Vec<SearchPerson>,
    pub tags: Vec<SearchTag>,
    pub stories: Vec<SearchStory>,
    pub articles: Vec<SearchArticle>,
}

/// A search and what it found so far.
#[derive(Debug)]
pub struct Search {
    pub query: String,
    pub search_filter: Option<String>,
    pub url: String,
    pub results: SearchResults,
    /// The number of the last page whose hits are among the results.
    pub pages_loaded: u32,
}

/// The hit that a film of a list with details makes.
pub open spec fn as_hit(film: FilmEntryView) -> SearchFilmView {
    SearchFilmView {
        title: film.title,
        year: film.year,
        slug: film.slug,
        url: film.url,
        poster: film.poster,
        rating: None,
        director: None,
    }
}

/// The film in a hit of a search, which is laid out as a row of a list with
/// details.
pub open spec fn search_film(f: DetailFragmentView) -> Result<SearchFilmView, ErrorView> {
    match detail_film(f) {
        Ok(film) => Ok(as_hit(film)),
        Err(e) => Err(e),
    }
}

/// Reading the same hit of a search twice gives the same film, or the same
/// failure.
pub proof fn lemma_search_extraction_repeats(
    first: Result<SearchFilm, Error>,
    second: Result<SearchFilm, Error>,
    fragment: DetailFragmentView,
)
    requires
        outcome(first) == search_film(fragment),
        outcome(second) == search_film(fragment),
    ensures
        outcome(first) == outcome(second),
{
}

/// The films in the hits of a page, in their order; a hit without a film is
/// left out.
pub open spec fn search_films(fragments: Seq<DetailFragmentView>) -> Seq<SearchFilmView>
    decreases fragments.len(),
{
    if fragments.len() == 0 {
        Seq::empty()
    } else {
        let front = search_films(fragments.drop_last());
        match search_film(fragments.last()) {
            Ok(film) => front.push(film),
            Err(_) => front,
        }
    }
}

/// Whether a search narrowed to `filter` shows films.
pub open spec fn shows_films(filter: Option<Seq<char>>) -> bool {
    filter is None || filter == Some("films"@)
}

/// The films among the hits of a page whose rows are `fragments`, for a
/// search narrowed to `filter`: those of the rows where the search shows
/// films, none where it shows another kind.
pub open spec fn hits_shown(
    fragments: Seq<DetailFragmentView>,
    filter: Option<Seq<char>>,
) -> Seq<SearchFilmView> {
    if shows_films(filter) {
        search_films(fragments)
    } else {
        Seq::empty()
    }
}

/// The address of the results of a search for `query`, narrowed to `filter`
/// where one is given.
pub open spec fn results_url(query: Seq<char>, filter: Option<Seq<char>>) -> Seq<char> {
    match filter {
        Some(f) => DOMAIN@ + "/s/search/"@ + f + "/"@ + percent_encoded(query),
        None => DOMAIN@ + "/s/search/"@ + percent_encoded(query),
    }
}

/// The view of an optional string slice.
pub open spec fn slice_text(o: Option<&str>) -> Option<Seq<char>> {
    match o {
        Some(s) => Some(s@),
        None => None,
    }
}

impl SearchFilm {
    /// The film in a hit of a search.
    pub fn from_detail(fragment: DetailFragment) -> (res: Result<SearchFilm, Error>)
        ensures
            outcome(res) == search_film(fragment@),
            res is Ok ==> res->Ok_0.slug@.len() > 0,
    {
        match FilmEntry::from_detail(fragment) {
            Ok(film) => Ok(
                SearchFilm {
                    title: film.title,
                    year: film.year,
                    slug: film.slug,
                    url: film.url,
                    poster: film.poster,
                    rating: None,
                    director: None,
                },
            ),
            Err(e) => Err(e),
        }
    }
}

/// The films in the hits of a page, in their order.
pub fn hits_from_details(fragments: Vec<DetailFragment>) -> (films: Vec<SearchFilm>)
    ensures
        views(films@) == search_films(views(fragments@)),
        films@.len() <= fragments@.len(),
{
    let ghost raw = fragments@;
    let ghost all = views(fragments@);
    let mut films: Vec<SearchFilm> = Vec::new();
    for fragment in it: fragments.into_iter()
        invariant
            it.seq() == raw,
            all == views(raw),
            views(films@) == search_films(all.take(it.index())),
            films@.len() <= it.index(),
    {
        proof {
            let k = it.index();
            assert(all.take(k + 1).drop_last() == all.take(k));
        }
        match SearchFilm::from_detail(fragment) {
            Ok(film) => {
                films.push(film);
            },
            Err(_) => {},
        }
    }
    proof {
        assert(all.take(all.len() as int) == all);
    }
    films
}

impl SearchResults {
    /// No hits of any kind.
    pub fn empty() -> (out: SearchResults)
        ensures
            out.films@.len() == 0,
            out.reviews@.len() == 0,
            out.lists@.len() == 0,
            out.members@.len() == 0,
            out.cast_crew@.len() == 0,
            out.tags@.len() == 0,
            out.stories@.len() == 0,
            out.articles@.len() == 0,
    {
        SearchResults {
            films: Vec::new(),
            reviews: Vec::new(),
            lists: Vec::new(),
            members: Vec::new(),
            cast_crew: Vec::new(),
            tags: Vec::new(),
            stories: Vec::new(),
            articles: Vec::new(),
        }
    }

    /// The hits of a page whose rows are `fragments`, for a search narrowed
    /// to `filter`: the films of the rows where the search shows films, and
    /// nothing where it shows another kind, for which no extractor exists.
    pub fn from_fragments(fragments: Vec<DetailFragment>, filter: Option<&str>) -> (out:
        SearchResults)
        ensures
            views(out.films@) == hits_shown(views(fragments@), slice_text(filter)),
            out.reviews@.len() == 0,
            out.lists@.len() == 0,
            out.members@.len() == 0,
            out.cast_crew@.len() == 0,
            out.tags@.len() == 0,
            out.stories@.len() == 0,
            out.articles@.len() == 0,
    {
        let mut out = SearchResults::empty();
        let films_shown = match filter {
            None => true,
            Some(f) => is_text(&chars_of(f), "films"),
        };
        if films_shown {
            out.films = hits_from_details(fragments);
        }
        out
    }
}

impl Search {
    /// Checks that `filter`, where one is given, names a kind that a search
    /// can be narrowed to.
    pub fn check_filter(filter: Option<&str>) -> (res: Result<(), Error>)
        ensures
            match res {
                Ok(_) => filter is Some ==> listed(SEARCH_FILTERS@, filter->Some_0@),
                Err(e) => filter is Some && !listed(SEARCH_FILTERS@, filter->Some_0@) && e@
                    == ErrorView::Parse("Invalid search filter: "@ + filter->Some_0@),
            },
    {
        match filter {
            None => Ok(()),
            Some(f) => if is_listed(&SEARCH_FILTERS, f) {
                Ok(())
            } else {
                Err(Error::Parse(chain("Invalid search filter: ", f)))
            },
        }
    }

    /// The address of the results of a search for `query`, narrowed to
    /// `filter` where one is given.
    pub fn results_address(query: &str, filter: Option<&str>) -> (url: String)
        ensures
            url@ == results_url(query@, slice_text(filter)),
    {
        let encoded = percent_encode(query);
        let head = chain(DOMAIN, "/s/search/");
        match filter {
            Some(f) => {
                let head = chain(head.as_str(), f);
                let head = chain(head.as_str(), "/");
                chain(head.as_str(), encoded.as_str())
            },
            None => chain(head.as_str(), encoded.as_str()),
        }
    }

    /// Reads the hits of the page `dom` of a search narrowed to
    /// `search_filter`.
    pub fn parse_search_results(dom: &scraper::Html, search_filter: Option<&str>) -> (res: Result<
        SearchResults,
        Error,
    >)
        ensures
            res is Ok,
            views(res->Ok_0.films@) == hits_shown(detail_page(*dom), slice_text(search_filter)),
            res->Ok_0.reviews@.len() == 0,
            res->Ok_0.lists@.len() == 0,
            res->Ok_0.members@.len() == 0,
    {
        Ok(SearchResults::from_fragments(read_details(dom), search_filter))
    }

    /// Reads the film in a hit of a search from its element.
    pub fn parse_film_result(element: &scraper::ElementRef) -> (res: Result<SearchFilm, Error>)
        ensures
            outcome(res) == search_film(detail_fragment_of(*element)),
            res is Ok ==> res->Ok_0.slug@.len() > 0,
    {
        SearchFilm::from_detail(DetailFragment::read(element))
    }

    /// The search for `query`, narrowed to `search_filter`, with the hits of
    /// its first page.
    pub fn from_first_page(
        query: &str,
        search_filter: Option<&str>,
        results: SearchResults,
    ) -> (out: Search)
        ensures
            out.query@ == query@,
            text_of(out.search_filter) == slice_text(search_filter),
            out.url@ == results_url(query@, slice_text(search_filter)),
            out.results == results,
            out.pages_loaded == 1,
    {
        Search {
            query: query.to_owned(),
            search_filter: match search_filter {
                Some(f) => Some(f.to_owned()),
                None => None,
            },
            url: Search::results_address(query, search_filter),
            results,
            pages_loaded: 1,
        }
    }

    /// A run that loads at most `max_pages` further pages of this search's
    /// hits, behind the last page that was loaded.
    pub fn begin_more(&self, max_pages: u32) -> (run: Run<SearchFilm>)
        ensures
            run.cursor.rules() == (StopPolicy {
                max_pages: Some(max_pages),
                ..policy_for(RenderingShape::SearchResult)
            }),
            run.cursor@ == resumed(
                run.cursor.rules(),
                self.pages_loaded as nat,
                self.results.films@.len(),
            ),
            run.cursor.base() == self.url@,
            !run.collected.is_keyed(),
            run.collected.records() == Seq::<SearchFilm>::empty(),
    {
        Run::load_more(
            self.url.as_str(),
            RenderingShape::SearchResult,
            self.pages_loaded,
            self.results.films.len(),
            max_pages,
        )
    }

    /// Takes in the page with the text `body` that was fetched for `run`:
    /// the films among the page's hits go into the run's collection, and
    /// their number decides whether the run goes on.
    pub fn accept_page(&self, run: &mut Run<SearchFilm>, body: &str) -> (decision: Decision)
        ensures
            exists|batch: Seq<SearchFilm>|
                views(batch) == hits_shown(
                    detail_page(parsed(body@)),
                    text_of(self.search_filter),
                ) && final(run).standing() == after_page(
                    old(run).cursor.rules(),
                    old(run).collected.is_keyed(),
                    old(run).standing(),
                    batch,
                ),
            final(run).cursor.rules() == old(run).cursor.rules(),
            final(run).cursor.base() == old(run).cursor.base(),
            final(run).collected.is_keyed() == old(run).collected.is_keyed(),
            final(run).collected.records().len() >= old(run).collected.records().len(),
            decision == match final(run).cursor@.stopped {
                Some(reason) => Decision::Stop(reason),
                None => Decision::Continue,
            },
    {
        let dom = parse_document(body);
        let filter: Option<&str> = match &self.search_filter {
            Some(f) => Some(f.as_str()),
            None => None,
        };
        let page = SearchResults::from_fragments(read_details(&dom), filter);
        let decision = run.accept(page.films);
        decision
    }

    /// Adds the hits that `run` loaded to this search, behind those that it
    /// has. A run that is not over adds nothing: the search changes only by
    /// whole runs.
    pub fn get_more_results(&mut self, run: Run<SearchFilm>) -> (added: bool)
        ensures
            added == (run.cursor@.stopped is Some),
            added ==> final(self).results.films@ == old(self).results.films@
                + run.collected.records() && final(self).pages_loaded == run.cursor@.page,
            !added ==> *final(self) == *old(self),
            final(self).query == old(self).query,
            final(self).url == old(self).url,
            final(self).search_filter == old(self).search_filter,
            final(self).results.films@.len() >= old(self).results.films@.len(),
    {
        if !run.cursor.is_done() {
            return false;
        }
        let page = run.cursor.page();
        let new_films = match run.collected {
            Collection::Ordered(films) => films,
            Collection::Keyed(keyed) => keyed.into_records(),
        };
        extend(&mut self.results.films, new_films);
        self.pages_loaded = page;
        true
    }

    /// A review among the hits of a search; reviews cannot be read yet.
    pub fn parse_review_result() -> (res: Result<SearchReview, Error>)
        ensures
            res is Err,
            res->Err_0@ == ErrorView::Parse("Review parsing not implemented"@),
    {
        Err(Error::parse("Review parsing not implemented"))
    }

    /// A list among the hits of a search; lists cannot be read yet.
    pub fn parse_list_result() -> (res: Result<SearchList, Error>)
        ensures
            res is Err,
            res->Err_0@ == ErrorView::Parse("List parsing not implemented"@),
    {
        Err(Error::parse("List parsing not implemented"))
    }

    /// A member among the hits of a search; members cannot be read yet.
    pub fn parse_member_result() -> (res: Result<SearchMember, Error>)
        ensures
            res is Err,
            res->Err_0@ == ErrorView::Parse("Member parsing not implemented"@),
    {
        Err(Error::parse("Member parsing not implemented"))
    }
}

} // verus!
