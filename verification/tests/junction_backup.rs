use tomex::backup::{
    find_first_with_id, has_pair, ids_to_insert, plan_link_restore, sort_by_first, sort_by_id,
    RestoreError, State,
};
use tomex::catalog::default_moods;
use tomex::ids::Uuid;
use tomex::junction::{contains_record, indices_missing_from, plan_link_update, BookGenre, LinkPlan};
use tomex::names::RecordKind;
use tomex::records::{Author, Book, Genre};
use tomex::text::Text;

fn genre(id: u128, name: &str) -> Genre {
    Genre { id: Uuid(id), name: Text(name.to_string()), deleted: false }
}

#[test]
fn link_update_plans() {
    let old = Some(vec![genre(1, "Fantasy"), genre(2, "Horror")]);
    let new = Some(vec![genre(2, "Horror"), genre(3, "Travel")]);
    match plan_link_update(&old, &new) {
        LinkPlan::Apply { insert, remove } => {
            assert_eq!(insert, vec![1]);
            assert_eq!(remove, vec![0]);
        }
        LinkPlan::RemoveAllExisting => panic!("expected a plan to apply"),
    }
    assert!(matches!(plan_link_update(&old, &None), LinkPlan::RemoveAllExisting));
    match plan_link_update(&None, &new) {
        LinkPlan::Apply { insert, remove } => {
            assert_eq!(insert, vec![0, 1]);
            assert!(remove.is_empty());
        }
        LinkPlan::RemoveAllExisting => panic!("expected a plan to apply"),
    }
}

#[test]
fn unchanged_links_plan_nothing() {
    let same = Some(vec![genre(1, "Fantasy"), genre(2, "Horror")]);
    match plan_link_update(&same, &same) {
        LinkPlan::Apply { insert, remove } => {
            assert!(insert.is_empty());
            assert!(remove.is_empty());
        }
        LinkPlan::RemoveAllExisting => panic!("expected a plan to apply"),
    }
}

#[test]
fn record_membership() {
    let v = vec![genre(1, "Fantasy"), genre(2, "Horror")];
    assert!(contains_record(&v, &genre(2, "Horror")));
    assert!(!contains_record(&v, &genre(2, "horror")));
    let w = vec![genre(2, "Horror")];
    assert_eq!(indices_missing_from(&v, &w), vec![0]);
}

fn empty_state() -> State {
    State {
        moods: vec![],
        paces: vec![],
        genres: vec![],
        languages: vec![],
        publishers: vec![],
        books: vec![],
        editions: vec![],
        authors: vec![],
        reviews: vec![],
        edition_reviews: vec![],
        progress: vec![],
        bindings: vec![],
        edition_formats: vec![],
        book_authors: vec![],
        book_genres: vec![],
        edition_languages: vec![],
        edition_publishers: vec![],
        review_moods: vec![],
    }
}

#[test]
fn fresh_databases() {
    let mut s = empty_state();
    assert!(!s.is_fresh());
    s.authors.push(Author::unknown());
    s.moods = default_moods();
    assert!(s.is_fresh());
    assert!(State::check_restorable_into(&s).is_ok());
    s.books.push(Book::created(Uuid(1), Text("Dune".to_string()), None, None));
    assert!(!s.is_fresh());
    let err = State::check_restorable_into(&s).unwrap_err();
    assert!(matches!(err, RestoreError::NotFresh));
    assert_eq!(err.message(), "Database seems to hold data, refusing to overwrite.");
}

#[test]
fn sorting_a_backup() {
    let mut s = empty_state();
    s.genres = vec![genre(3, "c"), genre(1, "a"), genre(2, "b"), genre(1, "a2")];
    s.book_genres = vec![
        BookGenre { book_id: Uuid(9), genre_id: Uuid(1) },
        BookGenre { book_id: Uuid(4), genre_id: Uuid(2) },
        BookGenre { book_id: Uuid(9), genre_id: Uuid(0) },
    ];
    s.sort();
    let names: Vec<&str> = s.genres.iter().map(|g| g.name.0.as_str()).collect();
    assert_eq!(names, vec!["a", "a2", "b", "c"]);
    assert_eq!(s.book_genres[0].book_id, Uuid(4));
    assert_eq!(s.book_genres[1].genre_id, Uuid(1));
    assert_eq!(s.book_genres[2].genre_id, Uuid(0));
    let sorted = sort_by_id(vec![genre(2, "b"), genre(1, "a")]);
    assert_eq!(sorted[0].id, Uuid(1));
    let links = sort_by_first(vec![BookGenre { book_id: Uuid(2), genre_id: Uuid(1) }]);
    assert_eq!(links.len(), 1);
}

#[test]
fn restore_lookups() {
    let genres = vec![genre(1, "a"), genre(2, "b"), genre(1, "again")];
    assert_eq!(find_first_with_id(&genres, Uuid(1)), Some(0));
    assert_eq!(find_first_with_id(&genres, Uuid(7)), None);
    assert_eq!(ids_to_insert(&genres, &vec![Uuid(2)]), vec![0, 2]);
    assert!(has_pair(&vec![(Uuid(1), Uuid(2))], Uuid(1), Uuid(2)));
    assert!(!has_pair(&vec![(Uuid(1), Uuid(2))], Uuid(2), Uuid(1)));
}

#[test]
fn restore_links_until_a_record_is_missing() {
    let books = vec![Book::created(Uuid(10), Text("Dune".to_string()), None, None)];
    let genres = vec![genre(1, "a"), genre(2, "b")];
    let links = vec![
        BookGenre { book_id: Uuid(10), genre_id: Uuid(2) },
        BookGenre { book_id: Uuid(10), genre_id: Uuid(1) },
        BookGenre { book_id: Uuid(10), genre_id: Uuid(5) },
        BookGenre { book_id: Uuid(10), genre_id: Uuid(1) },
    ];
    let existing = vec![(Uuid(10), Uuid(1))];
    let plan = plan_link_restore(&links, &existing, &books, &genres, RecordKind::Book, RecordKind::Genre);
    assert_eq!(plan.inserts, vec![(0, 1)]);
    match plan.error {
        Some(RestoreError::Missing { kind, id }) => {
            assert_eq!(kind, RecordKind::Genre);
            assert_eq!(id, Uuid(5));
            let e = RestoreError::Missing { kind, id };
            assert_eq!(
                e.message(),
                "Inconsistency in database, couldn't find genre with id 00000000-0000-0000-0000-000000000005"
            );
        }
        _ => panic!("expected a missing genre"),
    }
}

#[test]
fn restore_links_all_present() {
    let books = vec![Book::created(Uuid(10), Text("Dune".to_string()), None, None)];
    let genres = vec![genre(1, "a")];
    let links = vec![BookGenre { book_id: Uuid(10), genre_id: Uuid(1) }];
    let plan = plan_link_restore(&links, &vec![], &books, &genres, RecordKind::Book, RecordKind::Genre);
    assert_eq!(plan.inserts, vec![(0, 0)]);
    assert!(plan.error.is_none());
}
