//! Records of any kind, for runs that are told the layout of their listing
//! instead of the type of its records.

use vstd::prelude::*;
use crate::collection::Slugged;
use crate::engine::{Decision, RenderingShape};
use crate::html::{parse_document, parsed, views};
use crate::models::films::{
    detail_films, detail_page, grid_films, grid_page, read_details, FilmEntry, FilmEntryView,
    Films,
};
use crate::models::search::{hits_from_details, search_films, SearchFilm, SearchFilmView};
use crate::models::{DiaryMovieEntry, DiaryMovieEntryView};
use crate::pages::user_diary::{diary_entries, diary_page, UserDiary};
use crate::run::{after_page, Run};

verus! {

/// One scraped entity of a listing.
#[derive(Debug, Clone)]
pub enum Record {
    /// A film of a grid or of a list with details.
    Film(FilmEntry),
    /// A film among the hits of a search.
    Hit(SearchFilm),
    /// A film in a diary.
    Diary(DiaryMovieEntry),
}

/// A `Record` with its texts as character sequences.
pub enum RecordView {
    Film(FilmEntryView),
    Hit(SearchFilmView),
    Diary(DiaryMovieEntryView),
}

impl View for Record {
    type V = RecordView;

    open spec fn view(&self) -> RecordView {
        match self {
            Record::Film(film) => RecordView::Film(film@),
            Record::Hit(hit) => RecordView::Hit(hit@),
            Record::Diary(entry) => RecordView::Diary(entry@),
        }
    }
}

impl Slugged for Record {
    open spec fn key(&self) -> Seq<char> {
        match self {
            Record::Film(film) => film.slug@,
            Record::Hit(hit) => hit.slug@,
            Record::Diary(entry) => entry.slug@,
        }
    }

    fn slug(&self) -> (s: &String) {
        match self {
            Record::Film(film) => &film.slug,
            Record::Hit(hit) => &hit.slug,
            Record::Diary(entry) => &entry.slug,
        }
    }
}

/// The records on a page of a listing in the layout `shape`: the films of
/// the grid, the films of the list with details, the films among the hits,
/// or the entries of the diary.
pub open spec fn page_records(dom: scraper::Html, shape: RenderingShape) -> Seq<RecordView> {
    match shape {
        RenderingShape::Grid => {
            let films = grid_films(grid_page(dom));
            Seq::new(films.len(), |i: int| RecordView::Film(films[i]))
        },
        RenderingShape::List => {
            let films = detail_films(detail_page(dom));
            Seq::new(films.len(), |i: int| RecordView::Film(films[i]))
        },
        RenderingShape::SearchResult => {
            let hits = search_films(detail_page(dom));
            Seq::new(hits.len(), |i: int| RecordView::Hit(hits[i]))
        },
        RenderingShape::DiaryRow => {
            let entries = diary_entries(diary_page(dom));
            Seq::new(entries.len(), |i: int| RecordView::Diary(entries[i]))
        },
    }
}

/// Films as records.
fn films_as_records(films: Vec<FilmEntry>) -> (out: Vec<Record>)
    ensures
        views(out@) == Seq::new(films@.len(), |i: int| RecordView::Film(films@[i]@)),
{
    let ghost all = films@;
    let mut out: Vec<Record> = Vec::new();
    for film in it: films.into_iter()
        invariant
            it.seq() == all,
            out@.len() == it.index(),
            forall|k: int|
                0 <= k < out@.len() ==> (#[trigger] out@[k])@ == RecordView::Film(all[k]@),
    {
        out.push(Record::Film(film));
    }
    out
}

/// Hits as records.
fn hits_as_records(hits: Vec<SearchFilm>) -> (out: Vec<Record>)
    ensures
        views(out@) == Seq::new(hits@.len(), |i: int| RecordView::Hit(hits@[i]@)),
{
    let ghost all = hits@;
    let mut out: Vec<Record> = Vec::new();
    for hit in it: hits.into_iter()
        invariant
            it.seq() == all,
            out@.len() == it.index(),
            forall|k: int|
                0 <= k < out@.len() ==> (#[trigger] out@[k])@ == RecordView::Hit(all[k]@),
    {
        out.push(Record::Hit(hit));
    }
    out
}

/// Diary entries as records.
fn entries_as_records(entries: Vec<DiaryMovieEntry>) -> (out: Vec<Record>)
    ensures
        views(out@) == Seq::new(entries@.len(), |i: int| RecordView::Diary(entries@[i]@)),
{
    let ghost all = entries@;
    let mut out: Vec<Record> = Vec::new();
    for entry in it: entries.into_iter()
        invariant
            it.seq() == all,
            out@.len() == it.index(),
            forall|k: int|
                0 <= k < out@.len() ==> (#[trigger] out@[k])@ == RecordView::Diary(all[k]@),
    {
        out.push(Record::Diary(entry));
    }
    out
}

/// Reads the records of the page `dom` of a listing in the layout `shape`,
/// in document order. A fragment that holds no record is left out; it is no
/// failure of the page.
pub fn extract_records(dom: &scraper::Html, shape: RenderingShape) -> (records: Vec<Record>)
    ensures
        views(records@) == page_records(*dom, shape),
{
    match shape {
        RenderingShape::Grid => {
            let films = Films::extract_horizontal_movies(dom);
            films_as_records(films)
        },
        RenderingShape::List => {
            let films = Films::extract_vertical_movies(dom);
            films_as_records(films)
        },
        RenderingShape::SearchResult => {
            let hits = hits_from_details(read_details(dom));
            hits_as_records(hits)
        },
        RenderingShape::DiaryRow => {
            let entries = match UserDiary::get_diary_entries(dom) {
                Ok(entries) => entries,
                Err(_) => Vec::new(),
            };
            entries_as_records(entries)
        },
    }
}

/// Takes in the page with the text `body` that was fetched for `run`, a run
/// over a listing in the layout `shape`: the records on the page go into the
/// run's collection, and their number decides whether the run goes on.
pub fn accept_page(run: &mut Run<Record>, shape: RenderingShape, body: &str) -> (decision: Decision)
    ensures
        exists|batch: Seq<Record>|
            views(batch) == page_records(parsed(body@), shape) && final(run).standing()
                == after_page(
                old(run).cursor.rules(),
                old(run).collected.is_keyed(),
                old(run).standing(),
                batch,
            ),
        final(run).cursor.rules() == old(run).cursor.rules(),
        final(run).cursor.base() == old(run).cursor.base(),
        final(run).collected.is_keyed() == old(run).collected.is_keyed(),
        final(run).collected.records().len() >= old(run).collected.records().len(),
        decision == match final(run).cursor@.stopped {
            Some(reason) => Decision::Stop(reason),
            None => Decision::Continue,
        },
{
    let dom = parse_document(body);
    let batch = extract_records(&dom, shape);
    let decision = run.accept(batch);
    decision
}

} // verus!
