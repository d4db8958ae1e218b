//! A user's diary: the films that they watched, day by day.

use vstd::prelude::*;
use crate::common::error::{Error, ErrorView};

use crate::extract::{film_slug_of, slug_from_href, FILM_SEGMENT};
use crate::html::{
    attr_in, each_hit, inner_in, outcome, read_attr, read_inner, select_all, views, Lookup,
    LookupView,
};
use crate::models::movie::Movie;
use crate::models::{enriched, DiaryMovieEntry, DiaryMovieEntryView};
use crate::numeric::{decimal_string, decimal_text, parse_u32, u32_of};
use crate::text::{chars_of, chain, pieces, split, texts};
use crate::utils::transform::{build_diary_url, date_path, site_path, with_part};

verus! {

/// A user's diary.
#[derive(Debug)]
pub struct UserDiary {
    username: String,
}

/// How many entries of a diary are filled in from the pages of their films.
pub const ENRICH_LIMIT: usize = 10;

/// What a row of a diary holds: the text and the target of the film's link,
/// and the date that the calendar link carries.
#[derive(Debug, Clone)]
pub struct DiaryFragment {
    pub name: Lookup,
    pub href: Lookup,
    pub date: Lookup,
}

/// A `DiaryFragment` with its texts as character sequences.
pub struct DiaryFragmentView {
    pub name: LookupView,
    pub href: LookupView,
    pub date: LookupView,
}

impl View for DiaryFragment {
    type V = DiaryFragmentView;

    open spec fn view(&self) -> DiaryFragmentView {
        DiaryFragmentView { name: self.name@, href: self.href@, date: self.date@ }
    }
}

/// Month and day of a date such as `2024-03-15`: the second and the third
/// of the parts between its dashes, each where it is a number. A row
/// without a date, or with a date of fewer than three parts, shows neither.
pub open spec fn month_and_day(date: LookupView) -> (Option<u32>, Option<u32>) {
    match date {
        LookupView::Value(text) => {
            let parts = pieces(text, "-"@);
            if parts.len() >= 3 {
                (u32_of(parts[1]), u32_of(parts[2]))
            } else {
                (None, None)
            }
        },
        _ => (None, None),
    }
}

/// The entry in a row of a diary. The film's link must be there, with its
/// text as the name and a slug in its target; the date is taken where the
/// row has one. Nothing else is known of the film.
pub open spec fn diary_entry(f: DiaryFragmentView) -> Result<DiaryMovieEntryView, ErrorView> {
    if !(f.name is Value) {
        Err(ErrorView::Parse("Film link not found"@))
    } else if !(f.href is Value) || film_slug_of(f.href->Value_0) is None {
        Err(ErrorView::Parse("Film slug not found"@))
    } else {
        Ok(
            DiaryMovieEntryView {
                name: f.name->Value_0,
                slug: film_slug_of(f.href->Value_0)->Some_0,
                title: f.name->Value_0,
                year: None,
                director: None,
                genres: Seq::empty(),
                runtime: None,
                rating: None,
                description: None,
                month: month_and_day(f.date).0,
                day: month_and_day(f.date).1,
            },
        )
    }
}

/// Reading the same row of a diary twice gives the same entry, or the same
/// failure.
pub proof fn lemma_diary_extraction_repeats(
    first: Result<DiaryMovieEntry, Error>,
    second: Result<DiaryMovieEntry, Error>,
    fragment: DiaryFragmentView,
)
    requires
        outcome(first) == diary_entry(fragment),
        outcome(second) == diary_entry(fragment),
    ensures
        outcome(first) == outcome(second),
{
}

/// The entries in the rows of a diary, in their order; a row without an
/// entry is left out.
pub open spec fn diary_entries(fragments: Seq<DiaryFragmentView>) -> Seq<DiaryMovieEntryView>
    decreases fragments.len(),
{
    if fragments.len() == 0 {
        Seq::empty()
    } else {
        let front = diary_entries(fragments.drop_last());
        match diary_entry(fragments.last()) {
            Ok(entry) => front.push(entry),
            Err(_) => front,
        }
    }
}

/// Month and day of a date such as `2024-03-15`.
pub fn read_month_and_day(date: Lookup) -> (out: (Option<u32>, Option<u32>))
    ensures
        out == month_and_day(date@),
{
    match date {
        Lookup::Value(text) => {
            let parts = split(&chars_of(text.as_str()), &chars_of("-"));
            if parts.len() >= 3 {
                (parse_u32(&parts[1]), parse_u32(&parts[2]))
            } else {
                (None, None)
            }
        },
        _ => (None, None),
    }
}

/// What the row of a diary in `element` holds.
pub open spec fn diary_fragment_of(element: scraper::ElementRef) -> DiaryFragmentView {
    DiaryFragmentView {
        name: inner_in(element, "h3.headline-3 a"@),
        href: attr_in(element, "h3.headline-3 a"@, "href"@),
        date: attr_in(element, "td.td-calendar-date a"@, "data-date"@),
    }
}

/// What the rows of the diary on a page hold, in document order.
pub open spec fn diary_page(dom: scraper::Html) -> Seq<DiaryFragmentView> {
    each_hit(dom, "tr.diary-entry-row"@, |e: scraper::ElementRef<'static>| diary_fragment_of(e))
}

impl DiaryFragment {
    /// Reads a row of a diary from its element.
    pub fn read(element: &scraper::ElementRef) -> (out: DiaryFragment)
        ensures
            out@ == diary_fragment_of(*element),
    {
        DiaryFragment {
            name: read_inner(element, "h3.headline-3 a"),
            href: read_attr(element, "h3.headline-3 a", "href"),
            date: read_attr(element, "td.td-calendar-date a", "data-date"),
        }
    }
}

impl DiaryMovieEntry {
    /// The entry in a row of a diary.
    pub fn from_row(fragment: DiaryFragment) -> (res: Result<DiaryMovieEntry, Error>)
        ensures
            outcome(res) == diary_entry(fragment@),
            res is Ok ==> res->Ok_0.slug@.len() > 0,
    {
        let name = match fragment.name {
            Lookup::Value(text) => text,
            _ => { return Err(Error::parse("Film link not found")); },
        };
        let href = match fragment.href {
            Lookup::Value(text) => text,
            _ => { return Err(Error::parse("Film slug not found")); },
        };
        let slug = match slug_from_href(href.as_str(), FILM_SEGMENT) {
            Some(slug) => slug,
            None => { return Err(Error::parse("Film slug not found")); },
        };
        let (month, day) = read_month_and_day(fragment.date);
        let title = name.clone();
        let entry = DiaryMovieEntry {
            name,
            slug,
            title,
            year: None,
            director: None,
            genres: Vec::new(),
            runtime: None,
            rating: None,
            description: None,
            month,
            day,
        };
        proof {
            assert(entry@.genres == Seq::<Seq<char>>::empty());
        }
        Ok(entry)
    }
}

/// The entries in the rows of a diary, in their order.
pub fn entries_from_rows(fragments: Vec<DiaryFragment>) -> (entries: Vec<DiaryMovieEntry>)
    ensures
        views(entries@) == diary_entries(views(fragments@)),
        forall|i: int| 0 <= i < entries@.len() ==> (#[trigger] entries@[i]).slug@.len() > 0,
{
    let ghost raw = fragments@;
    let ghost all = views(fragments@);
    let mut entries: Vec<DiaryMovieEntry> = Vec::new();
    for fragment in it: fragments.into_iter()
        invariant
            it.seq() == raw,
            all == views(raw),
            views(entries@) == diary_entries(all.take(it.index())),
            forall|i: int| 0 <= i < entries@.len() ==> (#[trigger] entries@[i]).slug@.len() > 0,
    {
        proof {
            let k = it.index();
            assert(all.take(k + 1).drop_last() == all.take(k));
        }
        match DiaryMovieEntry::from_row(fragment) {
            Ok(entry) => {
                entries.push(entry);
            },
            Err(_) => {},
        }
    }
    proof {
        assert(all.take(all.len() as int) == all);
    }
    entries
}

impl UserDiary {
    /// The name of the user.
    pub closed spec fn name(&self) -> Seq<char> {
        self.username@
    }

    /// The pages of the user `username`.
    pub fn new(username: &str) -> (out: Self)
        ensures
            out.name() == username@,
    {
        Self { username: username.to_owned() }
    }

    /// The address of the diary, narrowed to a year, a month or a day where
    /// these are given, and of page `page` of it where one is given.
    pub fn diary_url(
        &self,
        year: Option<i32>,
        month: Option<u32>,
        day: Option<u32>,
        page: Option<u32>,
    ) -> (url: String)
        ensures
            url@ == site_path(seq![self.name(), "films"@, "diary"@]) + date_path(year, month, day)
                + match page {
                Some(p) => "page/"@ + decimal_text(p as nat) + "/"@,
                None => Seq::empty(),
            },
    {
        let url = build_diary_url(self.username.as_str(), year, month, day);
        match page {
            Some(p) => {
                let head = chain(url.as_str(), "page/");
                let out = with_part(head.as_str(), decimal_string(p as u64).as_str());
                out
            },
            None => {
                url
            },
        }
    }

    /// The address of the user's review of the year `year`.
    pub fn wrapped_url(&self, year: i32) -> (url: String)
        ensures
            url@ == site_path(seq![self.name(), "films"@, "diary"@]) + date_path(
                Some(year),
                None,
                None,
            ) + "wrapped/"@,
    {
        let url = build_diary_url(self.username.as_str(), Some(year), None, None);
        chain(url.as_str(), "wrapped/")
    }

    /// Reads the entries of the diary page `dom`, in their order. Every
    /// entry has a slug; a row without an entry is left out.
    pub fn get_diary_entries(dom: &scraper::Html) -> (res: Result<Vec<DiaryMovieEntry>, Error>)
        ensures
            res is Ok,
            views(res->Ok_0@) == diary_entries(diary_page(*dom)),
            forall|i: int|
                0 <= i < res->Ok_0@.len() ==> (#[trigger] res->Ok_0@[i]).slug@.len() > 0,
    {
        let found = select_all(dom, "tr.diary-entry-row");
        let mut fragments: Vec<DiaryFragment> = Vec::new();
        let mut i: usize = 0;
        while i < found.len()
            invariant
                i <= found.len(),
                fragments@.len() == i,
                forall|k: int|
                    0 <= k < i ==> (#[trigger] fragments@[k])@ == diary_fragment_of(found@[k]),
            decreases found.len() - i,
        {
            fragments.push(DiaryFragment::read(&found[i]));
            i += 1;
        }
        proof {
            assert(views(fragments@) =~= diary_page(*dom));
        }
        Ok(entries_from_rows(fragments))
    }

    /// The slugs of the films whose pages are to be fetched to fill in the
    /// entries: those of the first entries, up to the limit.
    pub fn enrichment_slugs(entries: &Vec<DiaryMovieEntry>) -> (slugs: Vec<String>)
        ensures
            slugs@.len() == if entries@.len() < ENRICH_LIMIT {
                entries@.len()
            } else {
                ENRICH_LIMIT as nat
            },
            forall|i: int| 0 <= i < slugs@.len() ==> (#[trigger] slugs@[i])@ == entries@[i].slug@,
    {
        let mut slugs: Vec<String> = Vec::new();
        let mut i: usize = 0;
        while i < entries.len() && i < ENRICH_LIMIT
            invariant
                i <= entries.len(),
                i <= ENRICH_LIMIT,
                slugs@.len() == i,
                forall|k: int| 0 <= k < i ==> (#[trigger] slugs@[k])@ == entries@[k].slug@,
            decreases entries.len() - i,
        {
            slugs.push(entries[i].slug.clone());
            i += 1;
        }
        slugs
    }

    /// Fills in entry `index` from the page of its film, where the entry is
    /// one of those that are filled in. The other entries stay as they are.
    pub fn apply_enrichment(
        entries: &mut Vec<DiaryMovieEntry>,
        index: usize,
        movie: &Movie,
    ) -> (done: bool)
        ensures
            done == (index < old(entries)@.len() && index < ENRICH_LIMIT),
            final(entries)@.len() == old(entries)@.len(),
            forall|i: int|
                0 <= i < old(entries)@.len() && i != index ==> final(entries)@[i] == old(
                    entries,
                )@[i],
            done ==> final(entries)@[index as int]@ == enriched(
                old(entries)@[index as int]@,
                *movie,
            ),
            !done ==> final(entries)@ == old(entries)@,
    {
        if index >= entries.len() || index >= ENRICH_LIMIT {
            return false;
        }
        let entry = entries.remove(index);
        entries.insert(index, entry.enrich(movie));
        true
    }
}

} // verus!
