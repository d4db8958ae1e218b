//! The films that a user wants to watch.

use vstd::prelude::*;
use crate::collection::{merged, Keyed};
use crate::common::error::Error;
use crate::html::{
    attr_in, each_hit, first_match, read_own_attr, select_all, views, Lookup, LookupView,
};
use crate::models::{WatchlistMovie, WatchlistMovieView};
use crate::utils::transform::{build_film_url, build_user_url, site_path, with_part};

verus! {

/// The films that a user wants to watch.
#[derive(Debug)]
pub struct UserWatchlist {
    username: String,
}

/// What a film's place on a watchlist holds: the slug and the name that its
/// poster carries.
#[derive(Debug, Clone)]
pub struct WatchlistFragment {
    pub slug: Lookup,
    pub name: Lookup,
}

/// A `WatchlistFragment` with its texts as character sequences.
pub struct WatchlistFragmentView {
    pub slug: LookupView,
    pub name: LookupView,
}

impl View for WatchlistFragment {
    type V = WatchlistFragmentView;

    open spec fn view(&self) -> WatchlistFragmentView {
        WatchlistFragmentView { slug: self.slug@, name: self.name@ }
    }
}

/// The film in a place of a watchlist: the poster must carry a name and a
/// slug that is not empty.
pub open spec fn watchlist_movie(f: WatchlistFragmentView) -> Option<WatchlistMovieView> {
    if f.slug is Value && f.name is Value && f.slug->Value_0.len() > 0 {
        Some(
            WatchlistMovieView {
                name: f.name->Value_0,
                slug: f.slug->Value_0,
                url: site_path(seq!["film"@, f.slug->Value_0]),
            },
        )
    } else {
        None
    }
}

/// The films in the places of a watchlist, in their order; a place without
/// a film is left out.
pub open spec fn watchlist_movies(fragments: Seq<WatchlistFragmentView>) -> Seq<
    WatchlistMovieView,
>
    decreases fragments.len(),
{
    if fragments.len() == 0 {
        Seq::empty()
    } else {
        let front = watchlist_movies(fragments.drop_last());
        match watchlist_movie(fragments.last()) {
            Some(movie) => front.push(movie),
            None => front,
        }
    }
}

/// What the place of a watchlist in `element` holds.
pub open spec fn watchlist_fragment_of(element: scraper::ElementRef) -> WatchlistFragmentView {
    WatchlistFragmentView {
        slug: attr_in(element, "div.film-poster"@, "data-film-slug"@),
        name: attr_in(element, "div.film-poster"@, "data-film-name"@),
    }
}

/// What the places of the watchlist on a page hold, in document order.
pub open spec fn watchlist_page(dom: scraper::Html) -> Seq<WatchlistFragmentView> {
    each_hit(
        dom,
        "li.poster-container"@,
        |e: scraper::ElementRef<'static>| watchlist_fragment_of(e),
    )
}

impl WatchlistFragment {
    /// Reads a film's place on a watchlist from its element.
    pub fn read(element: &scraper::ElementRef) -> (out: WatchlistFragment)
        ensures
            out@ == watchlist_fragment_of(*element),
    {
        match first_match(element, "div.film-poster") {
            None => WatchlistFragment { slug: Lookup::NoElement, name: Lookup::NoElement },
            Some(poster) => WatchlistFragment {
                slug: read_own_attr(&poster, "data-film-slug"),
                name: read_own_attr(&poster, "data-film-name"),
            },
        }
    }
}

impl WatchlistMovie {
    /// The film in a place of a watchlist.
    pub fn from_fragment(fragment: WatchlistFragment) -> (out: Option<WatchlistMovie>)
        ensures
            match out {
                Some(movie) => watchlist_movie(fragment@) == Some(movie@),
                None => watchlist_movie(fragment@) is None,
            },
            out is Some ==> out->Some_0.slug@.len() > 0,
    {
        let slug = match fragment.slug {
            Lookup::Value(text) => text,
            _ => { return None; },
        };
        let name = match fragment.name {
            Lookup::Value(text) => text,
            _ => { return None; },
        };
        if slug.as_str().unicode_len() == 0 {
            return None;
        }
        let url = build_film_url(slug.as_str());
        Some(WatchlistMovie { name, slug, url })
    }
}

/// The films in the places of a watchlist, in their order.
pub fn movies_from_fragments(fragments: Vec<WatchlistFragment>) -> (movies: Vec<WatchlistMovie>)
    ensures
        views(movies@) == watchlist_movies(views(fragments@)),
{
    let ghost raw = fragments@;
    let ghost all = views(fragments@);
    let mut movies: Vec<WatchlistMovie> = Vec::new();
    for fragment in it: fragments.into_iter()
        invariant
            it.seq() == raw,
            all == views(raw),
            views(movies@) == watchlist_movies(all.take(it.index())),
    {
        proof {
            let k = it.index();
            assert(all.take(k + 1).drop_last() == all.take(k));
        }
        match WatchlistMovie::from_fragment(fragment) {
            Some(movie) => {
                movies.push(movie);
            },
            None => {},
        }
    }
    proof {
        assert(all.take(all.len() as int) == all);
    }
    movies
}

impl UserWatchlist {
    /// The name of the user.
    pub closed spec fn name(&self) -> Seq<char> {
        self.username@
    }

    /// The pages of the user `username`.
    pub fn new(username: &str) -> (out: Self)
        ensures
            out.name() == username@,
    {
        Self { username: username.to_owned() }
    }

    /// The address of the user's watchlist.
    pub fn watchlist_url(&self) -> (url: String)
        ensures
            url@ == site_path(seq![self.name(), "watchlist"@]),
    {
        let url = build_user_url(self.username.as_str());
        proof {
            assert(seq![self.name(), "watchlist"@].drop_last() == seq![self.name()]);
        }
        with_part(url.as_str(), "watchlist")
    }

    /// The films on a watchlist whose places are `fragments`, keyed by
    /// slug.
    pub fn collect(fragments: Vec<WatchlistFragment>) -> (movies: Keyed<WatchlistMovie>)
        ensures
            exists|batch: Seq<WatchlistMovie>|
                views(batch) == watchlist_movies(views(fragments@)) && movies@ == merged(
                    Seq::<WatchlistMovie>::empty(),
                    batch,
                ),
    {
        let batch = movies_from_fragments(fragments);
        let mut movies: Keyed<WatchlistMovie> = Keyed::new();
        movies.merge(batch);
        movies
    }

    /// Reads the films of the watchlist page `dom`, keyed by slug: the films
    /// in the places of the page, merged in document order.
    pub fn get_watchlist_movies(dom: &scraper::Html) -> (res: Result<Keyed<WatchlistMovie>, Error>)
        ensures
            res is Ok,
            exists|batch: Seq<WatchlistMovie>|
                views(batch) == watchlist_movies(watchlist_page(*dom)) && res->Ok_0@ == merged(
                    Seq::<WatchlistMovie>::empty(),
                    batch,
                ),
    {
        let found = select_all(dom, "li.poster-container");
        let mut fragments: Vec<WatchlistFragment> = Vec::new();
        let mut i: usize = 0;
        while i < found.len()
            invariant
                i <= found.len(),
                fragments@.len() == i,
                forall|k: int|
                    0 <= k < i ==> (#[trigger] fragments@[k])@ == watchlist_fragment_of(found@[k]),
            decreases found.len() - i,
        {
            fragments.push(WatchlistFragment::read(&found[i]));
            i += 1;
        }
        proof {
            assert(views(fragments@) =~= watchlist_page(*dom));
        }
        Ok(UserWatchlist::collect(fragments))
    }
}

} // verus!
