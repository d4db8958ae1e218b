use rustboxd::collection::Collection;
use rustboxd::engine::{
    page_address, Cursor, Decision, FetchFailure, Phase, RenderingShape, StopPolicy, StopReason,
    SAFETY_CEILING,
};
use rustboxd::models::films::FilmEntry;
use rustboxd::models::search::SearchFilm;
use rustboxd::run::{Outcome, Run};
use rustboxd::Error;

fn film(slug: &str) -> FilmEntry {
    FilmEntry {
        title: slug.to_uppercase(),
        year: None,
        slug: slug.to_string(),
        url: format!("https://letterboxd.com/film/{}/", slug),
        poster: None,
        rating: None,
        director: None,
        watched: None,
        liked: None,
        in_watchlist: None,
    }
}

fn hit(slug: &str) -> SearchFilm {
    SearchFilm {
        title: slug.to_uppercase(),
        year: None,
        slug: slug.to_string(),
        url: format!("https://letterboxd.com/film/{}/", slug),
        poster: None,
        rating: None,
        director: None,
    }
}

fn films(page: usize, count: usize) -> Vec<FilmEntry> {
    (0..count).map(|i| film(&format!("film-{}-{}", page, i))).collect()
}

fn policy(full_page_size: usize, ceiling: usize, max_pages: Option<u32>) -> StopPolicy {
    StopPolicy { full_page_size, ceiling, max_pages }
}

#[test]
fn full_page_sizes_by_layout() {
    assert_eq!(RenderingShape::Grid.expected_full_page_size(), 72);
    assert_eq!(RenderingShape::List.expected_full_page_size(), 20);
    assert_eq!(RenderingShape::SearchResult.expected_full_page_size(), 20);
    assert_eq!(RenderingShape::DiaryRow.expected_full_page_size(), 50);
    assert!(
        RenderingShape::Grid.expected_full_page_size()
            > RenderingShape::List.expected_full_page_size()
    );
    assert_eq!(SAFETY_CEILING, 1000);
}

#[test]
fn a_fresh_cursor_asks_for_page_one() {
    let cursor = Cursor::start("https://letterboxd.com/bob/ajax/films", policy(20, 1000, None));
    assert_eq!(cursor.url(), "https://letterboxd.com/bob/ajax/films");
    assert_eq!(cursor.policy(), policy(20, 1000, None));
    assert_eq!(cursor.page(), 0);
    assert_eq!(cursor.pages_fetched(), 0);
    assert_eq!(cursor.cumulative(), 0);
    assert_eq!(cursor.stopped(), None);
    assert!(!cursor.is_done());
    assert_eq!(cursor.next_page(), Some(1));
    assert_eq!(
        cursor.next_url(),
        Some("https://letterboxd.com/bob/ajax/films/page/1".to_string())
    );
}

#[test]
fn page_addresses() {
    assert_eq!(page_address("https://x/y", 1), "https://x/y/page/1");
    assert_eq!(page_address("https://x/y", 120), "https://x/y/page/120");
    assert_eq!(page_address("", 0), "/page/0");
}

#[test]
fn a_short_page_ends_the_run() {
    let mut cursor = Cursor::start("u", policy(20, 1000, None));
    assert_eq!(cursor.record_page(20), Decision::Continue);
    assert_eq!(cursor.next_page(), Some(2));
    assert_eq!(cursor.record_page(15), Decision::Stop(StopReason::ShortPage));
    assert_eq!(cursor.page(), 2);
    assert_eq!(cursor.page_item_count(), 15);
    assert_eq!(cursor.cumulative(), 35);
    assert_eq!(cursor.next_page(), None);
    assert_eq!(cursor.next_url(), None);
}

#[test]
fn a_short_page_ends_the_run_whatever_the_other_rules_are() {
    for ceiling in [0usize, 10, 15, 16, 1000, usize::MAX] {
        for max_pages in [None, Some(1u32), Some(5), Some(u32::MAX)] {
            let mut cursor = Cursor::start("u", policy(20, ceiling, max_pages));
            assert_eq!(cursor.record_page(15), Decision::Stop(StopReason::ShortPage));
            assert_eq!(cursor.page(), 1);
            assert!(cursor.is_done());
        }
    }
}

#[test]
fn an_empty_page_counts_as_a_short_page() {
    let mut cursor = Cursor::start("u", policy(20, 1000, None));
    assert_eq!(cursor.record_page(0), Decision::Stop(StopReason::ShortPage));
    assert_eq!(cursor.cumulative(), 0);
}

#[test]
fn full_pages_stop_at_the_ceiling() {
    let mut cursor = Cursor::start("u", policy(20, 1000, None));
    let mut pages = 0;
    loop {
        pages += 1;
        assert!(pages <= 50, "the run went past the ceiling");
        match cursor.record_page(20) {
            Decision::Continue => assert!(cursor.cumulative() < 1000),
            Decision::Stop(reason) => {
                assert_eq!(reason, StopReason::Ceiling);
                break;
            }
        }
    }
    assert_eq!(pages, 50);
    assert_eq!(cursor.page(), 50);
    assert_eq!(cursor.cumulative(), 1000);
}

#[test]
fn the_ceiling_is_passed_by_less_than_one_page() {
    let mut cursor = Cursor::start("u", policy(20, 1000, None));
    let mut last = 0;
    while !cursor.is_done() {
        last = 30;
        cursor.record_page(last);
    }
    assert_eq!(cursor.stopped(), Some(StopReason::Ceiling));
    assert_eq!(cursor.page(), 34);
    assert_eq!(cursor.cumulative(), 1020);
    assert!(cursor.cumulative() < 1000 + last);
}

#[test]
fn the_page_limit_ends_the_run() {
    let mut cursor = Cursor::start("u", policy(20, 1000, Some(3)));
    assert_eq!(cursor.record_page(20), Decision::Continue);
    assert_eq!(cursor.record_page(20), Decision::Continue);
    assert_eq!(cursor.record_page(20), Decision::Stop(StopReason::PageLimit));
    assert_eq!(cursor.page(), 3);
}

#[test]
fn a_page_limit_of_zero_fetches_nothing() {
    let cursor = Cursor::start("u", policy(20, 1000, Some(0)));
    assert_eq!(cursor.stopped(), Some(StopReason::PageLimit));
    assert_eq!(cursor.next_url(), None);
}

#[test]
fn a_run_that_is_over_stays_as_it_is() {
    let mut cursor = Cursor::start("u", policy(20, 1000, None));
    cursor.record_page(3);
    assert_eq!(cursor.record_page(20), Decision::Stop(StopReason::ShortPage));
    assert_eq!(cursor.page(), 1);
    assert_eq!(cursor.cumulative(), 3);
    assert_eq!(cursor.page_item_count(), 3);
}

#[test]
fn a_resumed_cursor_goes_on_behind_the_last_page() {
    let mut cursor = Cursor::resume("u", policy(20, 1000, Some(2)), 4, 80);
    assert_eq!(cursor.page(), 4);
    assert_eq!(cursor.cumulative(), 80);
    assert_eq!(cursor.next_url(), Some("u/page/5".to_string()));
    assert_eq!(cursor.record_page(20), Decision::Continue);
    assert_eq!(cursor.next_url(), Some("u/page/6".to_string()));
    assert_eq!(cursor.record_page(20), Decision::Stop(StopReason::PageLimit));
    assert_eq!(cursor.page(), 6);
    assert_eq!(cursor.pages_fetched(), 2);
    assert_eq!(cursor.cumulative(), 120);
}

#[test]
fn no_page_follows_the_last_page_number() {
    let cursor = Cursor::resume("u", policy(20, 1000, None), u32::MAX, 0);
    assert_eq!(cursor.stopped(), Some(StopReason::PageLimit));
    let mut cursor = Cursor::resume("u", policy(1, usize::MAX, None), u32::MAX - 1, 0);
    assert_eq!(cursor.record_page(5), Decision::Stop(StopReason::PageLimit));
    assert_eq!(cursor.page(), u32::MAX);
}

#[test]
fn the_count_of_records_saturates() {
    let mut cursor = Cursor::resume("u", policy(1, usize::MAX, None), 1, usize::MAX - 1);
    assert_eq!(cursor.record_page(5), Decision::Stop(StopReason::Ceiling));
    assert_eq!(cursor.cumulative(), usize::MAX);
}

#[test]
fn a_run_over_a_grid_is_keyed_and_replaces_duplicates() {
    let mut run: Run<FilmEntry> = Run::start("base", RenderingShape::Grid);
    assert_eq!(run.next_url(), Some("base/page/1".to_string()));
    let mut first = films(1, 71);
    first.push(FilmEntry { title: "Old".to_string(), ..film("twice") });
    assert_eq!(run.accept(first), Decision::Continue);
    assert_eq!(run.collected.len(), 72);
    let second = vec![FilmEntry { title: "New".to_string(), ..film("twice") }, film("other")];
    assert_eq!(run.accept(second), Decision::Stop(StopReason::ShortPage));
    let collected = run.finish();
    assert!(matches!(collected, Collection::Keyed(_)));
    assert_eq!(collected.len(), 73);
    let records = collected.as_vec();
    assert_eq!(records[71].slug, "twice");
    assert_eq!(records[71].title, "New");
    assert_eq!(records[72].slug, "other");
}

#[test]
fn a_run_over_search_hits_keeps_order_and_duplicates() {
    let mut run: Run<SearchFilm> = Run::start("base", RenderingShape::SearchResult);
    let first: Vec<SearchFilm> = (0..20).map(|_| hit("same")).collect();
    assert_eq!(run.accept(first), Decision::Continue);
    assert_eq!(run.accept(vec![hit("same"), hit("b")]), Decision::Stop(StopReason::ShortPage));
    let collected = run.finish();
    assert!(matches!(collected, Collection::Ordered(_)));
    assert_eq!(collected.len(), 22);
    assert_eq!(collected.as_vec()[21].slug, "b");
}

#[test]
fn collections_never_shrink_from_page_to_page() {
    let mut keyed: Run<FilmEntry> = Run::with_policy("u", true, policy(2, 1000, None));
    let mut ordered: Run<FilmEntry> = Run::with_policy("u", false, policy(2, 1000, None));
    let pages = vec![
        vec![film("a"), film("b")],
        vec![film("a"), film("a")],
        vec![film("c"), film("b"), film("d")],
        vec![film("d")],
    ];
    let mut keyed_sizes = vec![];
    let mut ordered_sizes = vec![];
    for page in pages {
        let before_keyed = keyed.collected.len();
        let before_ordered = ordered.collected.len();
        let slugs_before: Vec<String> =
            keyed.collected.as_vec().iter().map(|f| f.slug.clone()).collect();
        keyed.accept(page.clone());
        ordered.accept(page);
        assert!(keyed.collected.len() >= before_keyed);
        assert!(ordered.collected.len() >= before_ordered);
        for slug in slugs_before {
            assert!(keyed.collected.as_vec().iter().any(|f| f.slug == slug));
        }
        keyed_sizes.push(keyed.collected.len());
        ordered_sizes.push(ordered.collected.len());
    }
    assert_eq!(keyed_sizes, vec![2, 2, 4, 4]);
    assert_eq!(ordered_sizes, vec![2, 4, 7, 8]);
}

#[test]
fn a_failed_fetch_ends_the_run_without_records() {
    let run: Run<FilmEntry> = Run::with_policy("base", true, policy(10, 1000, None));
    let outcome = run.replay(vec![Ok(films(1, 10)), Err(FetchFailure::Forbidden)]);
    match outcome {
        Outcome::Failed(error) => assert!(matches!(error, Error::PrivateRoute)),
        other => panic!("expected a failure, got {:?}", other),
    }
}

#[test]
fn a_missing_page_fails_with_its_address() {
    let run: Run<FilmEntry> = Run::with_policy("base", true, policy(10, 1000, None));
    let outcome = run.replay(vec![Ok(films(1, 10)), Ok(films(2, 10)), Err(FetchFailure::NotFound)]);
    match outcome {
        Outcome::Failed(Error::PageLoad { url, message }) => {
            assert_eq!(url, "base/page/3");
            assert_eq!(message, "Page not found");
        }
        other => panic!("expected a failure, got {:?}", other),
    }
}

#[test]
fn a_transport_failure_keeps_its_detail() {
    let run: Run<FilmEntry> = Run::with_policy("base", true, policy(10, 1000, None));
    let outcome = run.replay(vec![Err(FetchFailure::Transport("timed out".to_string()))]);
    match outcome {
        Outcome::Failed(Error::PageLoad { url, message }) => {
            assert_eq!(url, "base/page/1");
            assert_eq!(message, "timed out");
        }
        other => panic!("expected a failure, got {:?}", other),
    }
}

#[test]
fn a_failure_behind_the_end_of_the_run_is_never_seen() {
    let run: Run<FilmEntry> = Run::with_policy("base", true, policy(10, 1000, None));
    let outcome = run.replay(vec![Ok(films(1, 4)), Err(FetchFailure::Forbidden)]);
    match outcome {
        Outcome::Complete(collected) => assert_eq!(collected.len(), 4),
        other => panic!("expected a complete run, got {:?}", other),
    }
}

#[test]
fn a_replay_that_runs_out_of_pages_is_unfinished() {
    let run: Run<FilmEntry> = Run::with_policy("base", true, policy(10, 1000, None));
    match run.replay(vec![Ok(films(1, 10))]) {
        Outcome::Unfinished(run) => {
            assert_eq!(run.collected.len(), 10);
            assert_eq!(run.next_url(), Some("base/page/2".to_string()));
        }
        other => panic!("expected an unfinished run, got {:?}", other),
    }
}

#[test]
fn failing_a_run_gives_the_error_of_the_next_page() {
    let mut run: Run<FilmEntry> = Run::with_policy("base", true, policy(2, 1000, None));
    run.accept(vec![film("a"), film("b")]);
    let error = run.fail(FetchFailure::NotFound);
    assert!(matches!(error, Error::PageLoad { ref url, .. } if url == "base/page/2"));
}

#[test]
fn loading_more_collects_the_new_records_only() {
    let mut run: Run<SearchFilm> = Run::load_more("s", RenderingShape::SearchResult, 1, 20, 2);
    assert_eq!(run.next_url(), Some("s/page/2".to_string()));
    assert_eq!(run.collected.len(), 0);
    let page: Vec<SearchFilm> = (0..20).map(|i| hit(&format!("p2-{}", i))).collect();
    assert_eq!(run.accept(page), Decision::Continue);
    let page: Vec<SearchFilm> = (0..20).map(|i| hit(&format!("p3-{}", i))).collect();
    assert_eq!(run.accept(page), Decision::Stop(StopReason::PageLimit));
    assert_eq!(run.cursor.page(), 3);
    assert_eq!(run.cursor.cumulative(), 60);
    assert_eq!(run.collected.len(), 40);
}

#[test]
fn the_phases_of_a_run() {
    let mut cursor = Cursor::start("u", policy(20, 1000, None));
    assert_eq!(cursor.phase(), Phase::Fetching(1));
    cursor.record_page(20);
    assert_eq!(cursor.phase(), Phase::Fetching(2));
    cursor.record_page(1);
    assert_eq!(cursor.phase(), Phase::Done(StopReason::ShortPage));
}
