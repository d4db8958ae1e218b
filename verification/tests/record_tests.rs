use rustboxd::collection::Collection;
use rustboxd::engine::{Decision, RenderingShape, StopReason};
use rustboxd::record::{accept_page, extract_records, Record};
use rustboxd::run::Run;
use scraper::Html;

fn diary_rows(page: u32, count: usize) -> String {
    let mut body = String::from("<table><tbody>");
    for i in 0..count {
        body.push_str(&format!(
            "<tr class=\"diary-entry-row\"><td class=\"td-calendar-date\">\
             <a data-date=\"2024-02-{:02}\">d</a></td>\
             <td><h3 class=\"headline-3\"><a href=\"/film/p{}-{}/\">Film</a></h3></td></tr>",
            i % 28 + 1,
            page,
            i
        ));
    }
    body.push_str("</tbody></table>");
    body
}

const MIXED: &str = "<ul><li class=\"poster-container\"><img alt=\"Heat\" src=\"h.jpg\">\
     <a href=\"/film/heat/\"></a></li></ul>\
     <div class=\"film-detail\"><h2 class=\"film-title\"><a href=\"/film/ran/\">Ran</a></h2>\
     <span class=\"film-year\">1985</span></div>\
     <table><tr class=\"diary-entry-row\"><td class=\"td-calendar-date\">\
     <a data-date=\"2024-03-15\">15</a></td>\
     <td><h3 class=\"headline-3\"><a href=\"/film/ikiru/\">Ikiru</a></h3></td></tr></table>";

#[test]
fn the_layout_selects_the_extractor() {
    let dom = Html::parse_document(MIXED);
    let grid = extract_records(&dom, RenderingShape::Grid);
    assert_eq!(grid.len(), 1);
    assert!(matches!(&grid[0], Record::Film(f) if f.slug == "heat" && f.year.is_none()));
    let list = extract_records(&dom, RenderingShape::List);
    assert_eq!(list.len(), 1);
    assert!(matches!(&list[0], Record::Film(f) if f.slug == "ran" && f.year == Some(1985)));
    let hits = extract_records(&dom, RenderingShape::SearchResult);
    assert_eq!(hits.len(), 1);
    assert!(matches!(&hits[0], Record::Hit(h) if h.slug == "ran" && h.title == "Ran"));
    let diary = extract_records(&dom, RenderingShape::DiaryRow);
    assert_eq!(diary.len(), 1);
    assert!(matches!(
        &diary[0],
        Record::Diary(e) if e.slug == "ikiru" && e.month == Some(3) && e.day == Some(15)
    ));
}

#[test]
fn a_run_over_a_diary_keeps_every_row() {
    let mut run: Run<Record> = Run::start("https://letterboxd.com/bob/films/diary", RenderingShape::DiaryRow);
    assert_eq!(
        run.next_url(),
        Some("https://letterboxd.com/bob/films/diary/page/1".to_string())
    );
    assert_eq!(
        accept_page(&mut run, RenderingShape::DiaryRow, &diary_rows(1, 50)),
        Decision::Continue
    );
    assert_eq!(
        accept_page(&mut run, RenderingShape::DiaryRow, &diary_rows(1, 49)),
        Decision::Stop(StopReason::ShortPage)
    );
    let collected = run.finish();
    assert!(matches!(collected, Collection::Ordered(_)));
    assert_eq!(collected.len(), 99);
}

#[test]
fn a_run_over_a_list_merges_by_slug() {
    let mut run: Run<Record> = Run::start("u", RenderingShape::List);
    assert_eq!(
        accept_page(&mut run, RenderingShape::List, MIXED),
        Decision::Stop(StopReason::ShortPage)
    );
    let collected = run.finish();
    assert!(matches!(collected, Collection::Keyed(_)));
    assert_eq!(collected.len(), 1);
}
