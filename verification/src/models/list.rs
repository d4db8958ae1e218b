//! A list of films that a user has made, its films in their order, and the
//! comments below it.

use vstd::prelude::*;
use crate::collection::targets;
use crate::common::constants::DOMAIN;
use crate::common::error::{Error, ErrorView};
use crate::extract::{film_slug_of, site_address, site_url, slug_from_href, FILM_SEGMENT};
use crate::html::{
    all_inner, each_hit, first_hit, first_inner, first_match, inner_in, outcome, read_all_inner,
    read_first_inner, read_inner, select_all, text_of, views, Lookup, LookupView,
};
use crate::models::films::{grid_fragment_of, GridFragment, GridFragmentView};
use crate::numeric::{parse_scaled, parse_u32, scaled_u32, u32_of};
use crate::text::{
    chars_of, chain, pieces, replace_all, replaced, split, string_of, texts, trim_trailing,
    without_trailing,
};

verus! {

/// One film of a list.
#[derive(Debug, Clone)]
pub struct ListFilm {
    pub title: String,
    pub year: Option<i32>,
    pub slug: String,
    pub url: String,
    pub poster: Option<String>,
    pub director: Option<String>,
    pub position: Option<u32>,
    pub notes: Option<String>,
}

/// A `ListFilm` with its texts as character sequences.
pub struct ListFilmView {
    pub title: Seq<char>,
    pub year: Option<i32>,
    pub slug: Seq<char>,
    pub url: Seq<char>,
    pub poster: Option<Seq<char>>,
    pub director: Option<Seq<char>>,
    pub position: Option<u32>,
    pub notes: Option<Seq<char>>,
}

impl View for ListFilm {
    type V = ListFilmView;

    open spec fn view(&self) -> ListFilmView {
        ListFilmView {
            title: self.title@,
            year: self.year,
            slug: self.slug@,
            url: self.url@,
            poster: text_of(self.poster),
            director: text_of(self.director),
            position: self.position,
            notes: text_of(self.notes),
        }
    }
}

/// A comment below a list.
#[derive(Debug, Clone)]
pub struct ListComment {
    pub author: String,
    pub content: String,
    pub date: String,
    pub likes: u32,
}

/// A `ListComment` with its texts as character sequences.
pub struct ListCommentView {
    pub author: Seq<char>,
    pub content: Seq<char>,
    pub date: Seq<char>,
    pub likes: u32,
}

impl View for ListComment {
    type V = ListCommentView;

    open spec fn view(&self) -> ListCommentView {
        ListCommentView {
            author: self.author@,
            content: self.content@,
            date: self.date@,
            likes: self.likes,
        }
    }
}

/// A list of films.
#[derive(Debug, Clone)]
pub struct List {
    pub title: String,
    pub description: Option<String>,
    pub author: String,
    pub slug: String,
    pub url: String,
    pub film_count: u32,
    pub likes: u32,
    pub comments: u32,
    pub is_ranked: bool,
    pub films: Vec<ListFilm>,
    pub tags: Vec<String>,
    pub created_date: Option<String>,
    pub updated_date: Option<String>,
}

/// A `List` with its texts as character sequences.
pub struct ListView {
    pub title: Seq<char>,
    pub description: Option<Seq<char>>,
    pub author: Seq<char>,
    pub slug: Seq<char>,
    pub url: Seq<char>,
    pub film_count: u32,
    pub likes: u32,
    pub comments: u32,
    pub is_ranked: bool,
    pub films: Seq<ListFilmView>,
    pub tags: Seq<Seq<char>>,
    pub created_date: Option<Seq<char>>,
    pub updated_date: Option<Seq<char>>,
}

impl View for List {
    type V = ListView;

    open spec fn view(&self) -> ListView {
        ListView {
            title: self.title@,
            description: text_of(self.description),
            author: self.author@,
            slug: self.slug@,
            url: self.url@,
            film_count: self.film_count,
            likes: self.likes,
            comments: self.comments,
            is_ranked: self.is_ranked,
            films: views(self.films@),
            tags: views(self.tags@),
            created_date: text_of(self.created_date),
            updated_date: text_of(self.updated_date),
        }
    }
}

/// What a film's entry in a list holds: whether it has a poster at all, and
/// what the poster's first image and first link hold.
#[derive(Debug, Clone)]
pub struct PosterFragment {
    pub has_poster: bool,
    pub inner: GridFragment,
}

/// A `PosterFragment` with its texts as character sequences.
pub struct PosterFragmentView {
    pub has_poster: bool,
    pub inner: GridFragmentView,
}

impl View for PosterFragment {
    type V = PosterFragmentView;

    open spec fn view(&self) -> PosterFragmentView {
        PosterFragmentView { has_poster: self.has_poster, inner: self.inner@ }
    }
}

/// The film in an entry of a list, which stands at `position`. The poster's
/// image gives the title and, where it names one, the poster; the poster's
/// link gives the slug. Without poster, title or slug there is no film.
pub open spec fn list_film(f: PosterFragmentView, position: u32) -> Result<
    ListFilmView,
    ErrorView,
> {
    if !f.has_poster {
        Err(ErrorView::Parse("Poster element not found"@))
    } else if f.inner.title is NoElement {
        Err(ErrorView::Parse("Image element not found"@))
    } else if f.inner.href is NoElement {
        Err(ErrorView::Parse("Link element not found"@))
    } else if f.inner.title is NoValue {
        Err(ErrorView::Parse("Film title not found"@))
    } else if f.inner.href is NoValue {
        Err(ErrorView::Parse("Film href not found"@))
    } else {
        match film_slug_of(f.inner.href->Value_0) {
            None => Err(ErrorView::Parse("Film slug not found"@)),
            Some(slug) => Ok(
                ListFilmView {
                    title: f.inner.title->Value_0,
                    year: None,
                    slug,
                    url: site_url(f.inner.href->Value_0),
                    poster: f.inner.poster.text(),
                    director: None,
                    position: Some(position),
                    notes: None,
                },
            ),
        }
    }
}

/// Reading the same entry of a list twice, for the same position, gives the
/// same film, or the same failure.
pub proof fn lemma_list_extraction_repeats(
    first: Result<ListFilm, Error>,
    second: Result<ListFilm, Error>,
    fragment: PosterFragmentView,
    position: u32,
)
    requires
        outcome(first) == list_film(fragment, position),
        outcome(second) == list_film(fragment, position),
    ensures
        outcome(first) == outcome(second),
{
}

/// The position of the entry behind `index` others, counted from 1.
pub open spec fn position_of(index: nat) -> u32 {
    if index + 1 <= u32::MAX {
        (index + 1) as u32
    } else {
        u32::MAX
    }
}

/// The films in the entries of a list, in their order. Each film keeps the
/// position of its entry; an entry without a film is left out.
pub open spec fn list_films(entries: Seq<PosterFragmentView>) -> Seq<ListFilmView>
    decreases entries.len(),
{
    if entries.len() == 0 {
        Seq::empty()
    } else {
        let front = list_films(entries.drop_last());
        match list_film(entries.last(), position_of((entries.len() - 1) as nat)) {
            Ok(film) => front.push(film),
            Err(_) => front,
        }
    }
}

/// A list has a film for each entry that holds one, and no others.
pub proof fn lemma_list_films_count(entries: Seq<PosterFragmentView>)
    ensures
        list_films(entries).len() <= entries.len(),
        (forall|i: int|
            0 <= i < entries.len() ==> list_film(
                #[trigger] entries[i],
                position_of(i as nat),
            ) is Ok) ==> list_films(entries).len() == entries.len(),
    decreases entries.len(),
{
    if entries.len() > 0 {
        lemma_list_films_count(entries.drop_last());
    }
}

/// The count that a text such as `1.2K` or `1,500` writes. Commas do not
/// count. With a `K` at its end the text writes thousands, and what stands
/// before the `K`s must be a decimal number, of which the part below one
/// unit is cut off. Else the text must be a whole number.
pub open spec fn count_text(text: Seq<char>) -> Option<u32> {
    let cleaned = replaced(text, ","@, ""@);
    if cleaned.len() > 0 && cleaned.last() == 'K' {
        scaled_u32(without_trailing(cleaned, "K"@), 3)
    } else {
        u32_of(cleaned)
    }
}

/// What a list's page holds: title and description, the texts of its
/// counters, its entries and its tags.
#[derive(Debug, Clone)]
pub struct ListPage {
    pub title: Lookup,
    pub description: Lookup,
    pub stats: Vec<String>,
    pub entries: Vec<PosterFragment>,
    pub tags: Vec<String>,
}

/// A `ListPage` with its texts as character sequences.
pub struct ListPageView {
    pub title: LookupView,
    pub description: LookupView,
    pub stats: Seq<Seq<char>>,
    pub entries: Seq<PosterFragmentView>,
    pub tags: Seq<Seq<char>>,
}

impl View for ListPage {
    type V = ListPageView;

    open spec fn view(&self) -> ListPageView {
        ListPageView {
            title: self.title@,
            description: self.description@,
            stats: views(self.stats@),
            entries: views(self.entries@),
            tags: views(self.tags@),
        }
    }
}

/// The number that counter `index` of a list's page shows, read by `read`,
/// or 0 where the page has no such counter or shows no number there.
pub open spec fn counter(
    stats: Seq<Seq<char>>,
    index: int,
    read: spec_fn(Seq<char>) -> Option<u32>,
) -> u32 {
    if 0 <= index < stats.len() && read(stats[index]) is Some {
        read(stats[index])->Some_0
    } else {
        0
    }
}

/// The list that a page shows. A page without a title shows an untitled
/// list. The first counter is the number of films, written out in full; the
/// second and third are likes and comments and may be abbreviated.
pub open spec fn list_of(
    page: ListPageView,
    author: Seq<char>,
    slug: Seq<char>,
    url: Seq<char>,
) -> ListView {
    ListView {
        title: match page.title {
            LookupView::Value(text) => text,
            _ => "Untitled List"@,
        },
        description: page.description.text(),
        author,
        slug,
        url,
        film_count: counter(page.stats, 0, |t: Seq<char>| u32_of(t)),
        likes: counter(page.stats, 1, |t: Seq<char>| count_text(t)),
        comments: counter(page.stats, 2, |t: Seq<char>| count_text(t)),
        is_ranked: false,
        films: list_films(page.entries),
        tags: page.tags,
        created_date: None,
        updated_date: None,
    }
}

/// The author and the slug in the address of a list: cut at its slashes,
/// the address must have six parts at least, of which the fourth is the
/// author and the sixth the slug.
pub open spec fn list_address(url: Seq<char>) -> Result<(Seq<char>, Seq<char>), ErrorView> {
    let parts = pieces(url, "/"@);
    if parts.len() < 6 {
        Err(ErrorView::Parse("Invalid list URL format"@))
    } else {
        Ok((parts[3], parts[5]))
    }
}

/// What a comment's element holds.
#[derive(Debug, Clone)]
pub struct CommentFragment {
    pub author: Lookup,
    pub content: Lookup,
    pub date: Lookup,
}

/// A `CommentFragment` with its texts as character sequences.
pub struct CommentFragmentView {
    pub author: LookupView,
    pub content: LookupView,
    pub date: LookupView,
}

impl View for CommentFragment {
    type V = CommentFragmentView;

    open spec fn view(&self) -> CommentFragmentView {
        CommentFragmentView { author: self.author@, content: self.content@, date: self.date@ }
    }
}

/// The text that was read, or the empty text.
pub open spec fn text_or_empty(l: LookupView) -> Seq<char> {
    match l {
        LookupView::Value(text) => text,
        _ => Seq::empty(),
    }
}

/// The comment in a comment's element; what the element lacks is empty.
pub open spec fn comment_of(f: CommentFragmentView) -> ListCommentView {
    ListCommentView {
        author: text_or_empty(f.author),
        content: text_or_empty(f.content),
        date: text_or_empty(f.date),
        likes: 0,
    }
}

/// The text that was read, or the empty text.
pub fn into_text_or_empty(l: Lookup) -> (out: String)
    ensures
        out@ == text_or_empty(l@),
{
    match l {
        Lookup::Value(text) => text,
        _ => String::new(),
    }
}

/// What the entry of a list in `element` holds: where the entry has a
/// poster, what the poster's image and link hold.
pub open spec fn poster_fragment_of(element: scraper::ElementRef) -> PosterFragmentView {
    match first_hit(element, ".poster"@) {
        None => PosterFragmentView {
            has_poster: false,
            inner: GridFragmentView {
                title: LookupView::NoElement,
                href: LookupView::NoElement,
                poster: LookupView::NoElement,
            },
        },
        Some(poster) => PosterFragmentView { has_poster: true, inner: grid_fragment_of(poster) },
    }
}

/// What the comment in `element` holds.
pub open spec fn comment_fragment_of(element: scraper::ElementRef) -> CommentFragmentView {
    CommentFragmentView {
        author: inner_in(element, ".comment-author"@),
        content: inner_in(element, ".comment-content"@),
        date: inner_in(element, ".comment-date"@),
    }
}

/// What the page of a list holds.
pub open spec fn list_page_of(dom: scraper::Html) -> ListPageView {
    ListPageView {
        title: first_inner(dom, "h1.list-title"@),
        description: first_inner(dom, ".list-description"@),
        stats: all_inner(dom, ".list-stats li"@),
        entries: each_hit(
            dom,
            ".poster-list li"@,
            |e: scraper::ElementRef<'static>| poster_fragment_of(e),
        ),
        tags: all_inner(dom, ".list-tags a"@),
    }
}

/// What the comments on a page hold, in document order.
pub open spec fn comment_page(dom: scraper::Html) -> Seq<CommentFragmentView> {
    each_hit(dom, ".comment"@, |e: scraper::ElementRef<'static>| comment_fragment_of(e))
}

impl PosterFragment {
    /// Reads a film's entry in a list from its element.
    pub fn read(element: &scraper::ElementRef) -> (out: PosterFragment)
        ensures
            out@ == poster_fragment_of(*element),
    {
        match first_match(element, ".poster") {
            None => PosterFragment {
                has_poster: false,
                inner: GridFragment {
                    title: Lookup::NoElement,
                    href: Lookup::NoElement,
                    poster: Lookup::NoElement,
                },
            },
            Some(poster) => PosterFragment { has_poster: true, inner: GridFragment::read(&poster) },
        }
    }
}

impl CommentFragment {
    /// Reads a comment from its element.
    pub fn read(element: &scraper::ElementRef) -> (out: CommentFragment)
        ensures
            out@ == comment_fragment_of(*element),
    {
        CommentFragment {
            author: read_inner(element, ".comment-author"),
            content: read_inner(element, ".comment-content"),
            date: read_inner(element, ".comment-date"),
        }
    }
}

impl ListPage {
    /// Reads what a list's page holds.
    pub fn read(dom: &scraper::Html) -> (out: ListPage)
        ensures
            out@ == list_page_of(*dom),
    {
        let found = select_all(dom, ".poster-list li");
        let mut entries: Vec<PosterFragment> = Vec::new();
        let mut i: usize = 0;
        while i < found.len()
            invariant
                i <= found.len(),
                entries@.len() == i,
                forall|k: int|
                    0 <= k < i ==> (#[trigger] entries@[k])@ == poster_fragment_of(found@[k]),
            decreases found.len() - i,
        {
            entries.push(PosterFragment::read(&found[i]));
            i += 1;
        }
        proof {
            assert(views(entries@) =~= list_page_of(*dom).entries);
        }
        ListPage {
            title: read_first_inner(dom, "h1.list-title"),
            description: read_first_inner(dom, ".list-description"),
            stats: read_all_inner(dom, ".list-stats li"),
            entries,
            tags: read_all_inner(dom, ".list-tags a"),
        }
    }
}

impl ListFilm {
    /// The film in an entry of a list, which stands at `position`.
    pub fn from_entry(fragment: PosterFragment, position: u32) -> (res: Result<ListFilm, Error>)
        ensures
            outcome(res) == list_film(fragment@, position),
            res is Ok ==> res->Ok_0.slug@.len() > 0,
    {
        if !fragment.has_poster {
            return Err(Error::parse("Poster element not found"));
        }
        let title = match fragment.inner.title {
            Lookup::NoElement => { return Err(Error::parse("Image element not found")); },
            Lookup::NoValue => None,
            Lookup::Value(text) => Some(text),
        };
        let href = match fragment.inner.href {
            Lookup::NoElement => { return Err(Error::parse("Link element not found")); },
            Lookup::NoValue => None,
            Lookup::Value(text) => Some(text),
        };
        let title = match title {
            None => { return Err(Error::parse("Film title not found")); },
            Some(text) => text,
        };
        let href = match href {
            None => { return Err(Error::parse("Film href not found")); },
            Some(text) => text,
        };
        let slug = match slug_from_href(href.as_str(), FILM_SEGMENT) {
            None => { return Err(Error::parse("Film slug not found")); },
            Some(slug) => slug,
        };
        Ok(
            ListFilm {
                title,
                year: None,
                slug,
                url: site_address(href.as_str()),
                poster: fragment.inner.poster.into_text(),
                director: None,
                position: Some(position),
                notes: None,
            },
        )
    }
}

impl ListComment {
    /// The comment in a comment's element.
    pub fn from_fragment(fragment: CommentFragment) -> (comment: ListComment)
        ensures
            comment@ == comment_of(fragment@),
    {
        ListComment {
            author: into_text_or_empty(fragment.author),
            content: into_text_or_empty(fragment.content),
            date: into_text_or_empty(fragment.date),
            likes: 0,
        }
    }
}

/// The films in the entries of a list, in their order.
pub fn films_from_entries(entries: Vec<PosterFragment>) -> (films: Vec<ListFilm>)
    ensures
        views(films@) == list_films(views(entries@)),
{
    let ghost all = views(entries@);
    let ghost raw = entries@;
    let count = entries.len();
    let mut films: Vec<ListFilm> = Vec::new();
    let mut index: usize = 0;
    for entry in it: entries.into_iter()
        invariant
            it.seq() == raw,
            raw.len() == count,
            all == views(raw),
            index == it.index(),
            views(films@) == list_films(all.take(index as int)),
    {
        let position: u32 = if index < 0xffff_ffff {
            (index + 1) as u32
        } else {
            u32::MAX
        };
        proof {
            assert(all.take(index + 1).drop_last() == all.take(index as int));
        }
        match ListFilm::from_entry(entry, position) {
            Ok(film) => {
                films.push(film);
            },
            Err(_) => {},
        }
        index += 1;
    }
    proof {
        assert(all.take(all.len() as int) == all);
    }
    films
}

/// The comments in the elements of a page, in their order.
pub open spec fn comments_of(fragments: Seq<CommentFragmentView>) -> Seq<ListCommentView> {
    Seq::new(fragments.len(), |i: int| comment_of(fragments[i]))
}

/// The comments in the elements of a page, in their order.
pub fn comments_from(fragments: Vec<CommentFragment>) -> (comments: Vec<ListComment>)
    ensures
        views(comments@) == comments_of(views(fragments@)),
{
    let ghost raw = fragments@;
    let mut comments: Vec<ListComment> = Vec::new();
    for fragment in it: fragments.into_iter()
        invariant
            it.seq() == raw,
            comments@.len() == it.index(),
            forall|k: int| 0 <= k < comments@.len() ==> comments@[k]@ == comment_of(raw[k]@),
    {
        comments.push(ListComment::from_fragment(fragment));
    }
    comments
}

impl List {
    /// The count that a text such as `1.2K` or `1,500` writes.
    pub fn parse_count_text(text: &str) -> (count: Option<u32>)
        ensures
            count == count_text(text@),
    {
        let cleaned = replace_all(&chars_of(text), &chars_of(","), &chars_of(""));
        if cleaned.len() > 0 && cleaned[cleaned.len() - 1] == 'K' {
            parse_scaled(&trim_trailing(&cleaned, &chars_of("K")), 3)
        } else {
            parse_u32(&cleaned)
        }
    }

    /// The address of the list that `author` made under `slug`.
    pub fn page_url(author: &str, slug: &str) -> (url: String)
        ensures
            url@ == DOMAIN@ + "/"@ + author@ + "/list/"@ + slug@,
    {
        let head = chain(DOMAIN, "/");
        let head = chain(head.as_str(), author);
        let head = chain(head.as_str(), "/list/");
        chain(head.as_str(), slug)
    }

    /// The address of the comments below this list.
    pub fn comments_url(&self) -> (url: String)
        ensures
            url@ == self.url@ + "/comments/"@,
    {
        chain(self.url.as_str(), "/comments/")
    }

    /// The author and the slug in the address of a list.
    pub fn address_parts(url: &str) -> (res: Result<(String, String), Error>)
        ensures
            match res {
                Ok((author, slug)) => list_address(url@) == Ok::<_, ErrorView>((author@, slug@)),
                Err(e) => list_address(url@) == Err::<(Seq<char>, Seq<char>), _>(e@),
            },
    {
        let parts = split(&chars_of(url), &chars_of("/"));
        if parts.len() < 6 {
            return Err(Error::parse("Invalid list URL format"));
        }
        Ok((string_of(&parts[3]), string_of(&parts[5])))
    }

    /// The list that a page shows.
    pub fn from_page(page: ListPage, author: &str, slug: &str, url: &str) -> (list: List)
        ensures
            list@ == list_of(page@, author@, slug@, url@),
    {
        let title = match page.title {
            Lookup::Value(text) => text,
            _ => "Untitled List".to_owned(),
        };
        let film_count = if page.stats.len() > 0 {
            match parse_u32(&chars_of(page.stats[0].as_str())) {
                Some(n) => n,
                None => 0,
            }
        } else {
            0
        };
        let likes = if page.stats.len() > 1 {
            match List::parse_count_text(page.stats[1].as_str()) {
                Some(n) => n,
                None => 0,
            }
        } else {
            0
        };
        let comments = if page.stats.len() > 2 {
            match List::parse_count_text(page.stats[2].as_str()) {
                Some(n) => n,
                None => 0,
            }
        } else {
            0
        };
        let list = List {
            title,
            description: page.description.into_text(),
            author: author.to_owned(),
            slug: slug.to_owned(),
            url: url.to_owned(),
            film_count,
            likes,
            comments,
            is_ranked: false,
            films: films_from_entries(page.entries),
            tags: page.tags,
            created_date: None,
            updated_date: None,
        };
        list
    }

    /// Reads the list that the page `dom` shows.
    pub fn parse_list_data(dom: &scraper::Html, author: &str, slug: &str, url: &str) -> (res:
        Result<List, Error>)
        ensures
            res is Ok,
            res->Ok_0@ == list_of(list_page_of(*dom), author@, slug@, url@),
    {
        let page = ListPage::read(dom);
        Ok(List::from_page(page, author, slug, url))
    }

    /// Reads the film in an entry of a list, which stands at `position`.
    pub fn parse_list_film(element: &scraper::ElementRef, position: u32) -> (res: Result<
        ListFilm,
        Error,
    >)
        ensures
            outcome(res) == list_film(poster_fragment_of(*element), position),
            res is Ok ==> res->Ok_0.slug@.len() > 0,
    {
        ListFilm::from_entry(PosterFragment::read(element), position)
    }

    /// Reads the comment in a comment's element.
    pub fn parse_comment(element: &scraper::ElementRef) -> (res: Result<ListComment, Error>)
        ensures
            res is Ok,
            res->Ok_0@ == comment_of(comment_fragment_of(*element)),
    {
        Ok(ListComment::from_fragment(CommentFragment::read(element)))
    }

    /// Reads the comments that the page `dom` shows, in their order.
    pub fn parse_comments(dom: &scraper::Html) -> (res: Result<Vec<ListComment>, Error>)
        ensures
            res is Ok,
            views(res->Ok_0@) == comments_of(comment_page(*dom)),
    {
        let found = select_all(dom, ".comment");
        let mut fragments: Vec<CommentFragment> = Vec::new();
        let mut i: usize = 0;
        while i < found.len()
            invariant
                i <= found.len(),
                fragments@.len() == i,
                forall|k: int|
                    0 <= k < i ==> (#[trigger] fragments@[k])@ == comment_fragment_of(found@[k]),
            decreases found.len() - i,
        {
            fragments.push(CommentFragment::read(&found[i]));
            i += 1;
        }
        Ok(comments_from(fragments))
    }

    /// The first film of the list that stands at `position`.
    pub fn get_film_by_position(&self, position: u32) -> (found: Option<&ListFilm>)
        ensures
            match found {
                Some(film) => exists|i: int|
                    0 <= i < self.films@.len() && self.films@[i] == *film
                        && self.films@[i].position == Some(position) && forall|j: int|
                        0 <= j < i ==> self.films@[j].position != Some(position),
                None => forall|i: int|
                    0 <= i < self.films@.len() ==> self.films@[i].position != Some(position),
            },
    {
        let mut i: usize = 0;
        while i < self.films.len()
            invariant
                i <= self.films.len(),
                forall|j: int| 0 <= j < i ==> self.films@[j].position != Some(position),
            decreases self.films.len() - i,
        {
            let hit = match self.films[i].position {
                Some(p) => p == position,
                None => false,
            };
            if hit {
                return Some(&self.films[i]);
            }
            i += 1;
        }
        None
    }

    /// The films of the list from the year `year`, in their order.
    pub fn get_films_by_year(&self, year: i32) -> (out: Vec<&ListFilm>)
        ensures
            targets(out@) == self.films@.filter(|f: ListFilm| f.year == Some(year)),
    {
        let ghost pred = |f: ListFilm| f.year == Some(year);
        let mut out: Vec<&ListFilm> = Vec::new();
        let mut i: usize = 0;
        while i < self.films.len()
            invariant
                i <= self.films.len(),
                pred == (|f: ListFilm| f.year == Some(year)),
                targets(out@) == self.films@.take(i as int).filter(pred),
            decreases self.films.len() - i,
        {
            let film = &self.films[i];
            proof {
                reveal(Seq::filter);
                assert(self.films@.take(i + 1).drop_last() == self.films@.take(i as int));
            }
            let hit = match film.year {
                Some(y) => y == year,
                None => false,
            };
            if hit {
                out.push(film);
            }
            i += 1;
        }
        proof {
            assert(self.films@.take(self.films.len() as int) == self.films@);
        }
        out
    }
}

} // verus!
