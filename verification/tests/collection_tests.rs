use rustboxd::collection::{extend, select_where, Collection, Keyed};
use rustboxd::models::films::{FilmEntry, FilmFilter, Films};
use rustboxd::models::WatchlistMovie;

fn movie(slug: &str, name: &str) -> WatchlistMovie {
    WatchlistMovie {
        name: name.to_string(),
        slug: slug.to_string(),
        url: format!("https://letterboxd.com/film/{}/", slug),
    }
}

fn film(slug: &str, year: Option<i32>, rating: Option<u32>) -> FilmEntry {
    FilmEntry {
        title: slug.to_string(),
        year,
        slug: slug.to_string(),
        url: String::new(),
        poster: None,
        rating,
        director: None,
        watched: None,
        liked: None,
        in_watchlist: None,
    }
}

#[test]
fn a_new_keyed_collection_is_empty() {
    let keyed: Keyed<WatchlistMovie> = Keyed::new();
    assert_eq!(keyed.len(), 0);
    assert!(keyed.is_empty());
    assert!(!keyed.contains_key(&"a".to_string()));
    assert!(keyed.get(&"a".to_string()).is_none());
    assert_eq!(keyed.position(&"a".to_string()), None);
}

#[test]
fn inserting_under_a_new_slug_appends() {
    let mut keyed = Keyed::new();
    keyed.insert_or_replace(movie("a", "A"));
    keyed.insert_or_replace(movie("b", "B"));
    assert_eq!(keyed.len(), 2);
    assert!(!keyed.is_empty());
    assert_eq!(keyed.position(&"b".to_string()), Some(1));
    assert_eq!(keyed.get(&"a".to_string()).unwrap().name, "A");
    assert!(keyed.contains_key(&"b".to_string()));
    assert!(!keyed.contains_key(&"c".to_string()));
}

#[test]
fn inserting_under_a_known_slug_replaces_in_place() {
    let mut keyed = Keyed::new();
    keyed.insert_or_replace(movie("a", "first"));
    keyed.insert_or_replace(movie("b", "B"));
    keyed.insert_or_replace(movie("a", "second"));
    assert_eq!(keyed.len(), 2);
    let records = keyed.records();
    assert_eq!(records[0].slug, "a");
    assert_eq!(records[0].name, "second");
    assert_eq!(records[1].slug, "b");
}

#[test]
fn merging_goes_record_by_record() {
    let mut keyed = Keyed::new();
    keyed.insert_or_replace(movie("a", "A"));
    keyed.merge(vec![movie("b", "B1"), movie("a", "A2"), movie("b", "B2"), movie("c", "C")]);
    let names: Vec<&str> = keyed.records().iter().map(|m| m.name.as_str()).collect();
    assert_eq!(names, vec!["A2", "B2", "C"]);
    let records = keyed.into_records();
    assert_eq!(records.len(), 3);
}

#[test]
fn extending_appends_in_order() {
    let mut target = vec![1, 2];
    extend(&mut target, vec![3, 2, 1]);
    assert_eq!(target, vec![1, 2, 3, 2, 1]);
    extend(&mut target, vec![]);
    assert_eq!(target.len(), 5);
}

#[test]
fn collections_absorb_by_their_kind() {
    let mut keyed: Collection<WatchlistMovie> = Collection::new(true);
    let mut ordered: Collection<WatchlistMovie> = Collection::new(false);
    let batch = vec![movie("a", "1"), movie("a", "2")];
    keyed.absorb(batch.clone());
    ordered.absorb(batch);
    assert_eq!(keyed.len(), 1);
    assert_eq!(keyed.as_vec()[0].name, "2");
    assert_eq!(ordered.len(), 2);
    assert_eq!(ordered.as_vec()[0].name, "1");
}

#[test]
fn select_where_hands_out_references_in_order() {
    let items = vec![5, 8, 1, 12, 8];
    let picked = select_where(&items, |n: &i32| *n >= 8);
    assert_eq!(picked, vec![&8, &12, &8]);
    assert!(std::ptr::eq(picked[0], &items[1]));
    assert_eq!(items.len(), 5);
    let none = select_where(&items, |n: &i32| *n > 100);
    assert!(none.is_empty());
}

fn sample_films() -> Films {
    let mut collected: Collection<FilmEntry> = Collection::new(true);
    collected.absorb(vec![
        film("a", Some(1999), Some(450)),
        FilmEntry { watched: Some(true), liked: Some(true), ..film("b", Some(2001), Some(300)) },
        FilmEntry { in_watchlist: Some(true), liked: Some(false), ..film("c", None, None) },
        FilmEntry { watched: Some(true), ..film("d", Some(1999), Some(350)) },
    ]);
    Films::from_collection("https://letterboxd.com/bob/films/", collected)
}

fn slugs(films: &[&FilmEntry]) -> Vec<String> {
    films.iter().map(|f| f.slug.clone()).collect()
}

#[test]
fn films_from_a_collection() {
    let films = sample_films();
    assert_eq!(films.url, "https://letterboxd.com/bob/films/");
    assert_eq!(films.ajax_url, "https://letterboxd.com/bob/ajax/films/");
    assert_eq!(films.count, 4);
    assert_eq!(films.movies.len(), 4);
}

#[test]
fn films_from_an_ordered_collection_are_merged_by_slug() {
    let mut collected: Collection<FilmEntry> = Collection::new(false);
    collected.absorb(vec![film("a", Some(1), None), film("b", None, None), film("a", Some(2), None)]);
    let films = Films::from_collection("x", collected);
    assert_eq!(films.count, 2);
    assert_eq!(films.movies.records()[0].year, Some(2));
    assert_eq!(films.ajax_url, "x/ajax");
}

#[test]
fn films_by_year() {
    let films = sample_films();
    assert_eq!(slugs(&films.filter_by_year(1999)), vec!["a", "d"]);
    assert_eq!(slugs(&films.filter_by_year(2001)), vec!["b"]);
    assert!(films.filter_by_year(1900).is_empty());
    assert_eq!(films.count, 4);
}

#[test]
fn films_by_rating() {
    let films = sample_films();
    assert_eq!(slugs(&films.filter_by_rating(350)), vec!["a", "d"]);
    assert_eq!(slugs(&films.filter_by_rating(0)), vec!["a", "b", "d"]);
    assert_eq!(slugs(&films.filter_by_rating(450)), vec!["a"]);
    assert!(films.filter_by_rating(451).is_empty());
}

#[test]
fn films_by_flag() {
    let films = sample_films();
    assert_eq!(slugs(&films.get_watched()), vec!["b", "d"]);
    assert_eq!(slugs(&films.get_liked()), vec!["b"]);
    assert_eq!(slugs(&films.get_in_watchlist()), vec!["c"]);
    assert_eq!(slugs(&films.select(FilmFilter::Year(2001))), vec!["b"]);
}

#[test]
fn filters_hand_out_the_collection_s_own_records() {
    let films = sample_films();
    let picked = films.filter_by_year(2001);
    assert!(std::ptr::eq(picked[0], &films.movies.records()[1]));
}

#[test]
fn films_by_a_test_of_the_caller() {
    let films = sample_films();
    let picked = films.select_where(|f: &FilmEntry| f.slug.as_str() > "b");
    assert_eq!(slugs(&picked), vec!["c", "d"]);
    assert!(films.select_where(|_f: &FilmEntry| false).is_empty());
    assert_eq!(films.select_where(|_f: &FilmEntry| true).len(), 4);
}

#[test]
fn collections_take_single_records_by_their_kind() {
    let mut keyed: Collection<WatchlistMovie> = Collection::new(true);
    let mut ordered: Collection<WatchlistMovie> = Collection::new(false);
    for (slug, name) in [("a", "1"), ("b", "2"), ("a", "3")] {
        keyed.add(movie(slug, name));
        ordered.add(movie(slug, name));
    }
    let names = |c: &Collection<WatchlistMovie>| -> Vec<String> {
        c.as_vec().iter().map(|m| m.name.clone()).collect()
    };
    assert_eq!(names(&keyed), vec!["3", "2"]);
    assert_eq!(names(&ordered), vec!["1", "2", "3"]);
}
