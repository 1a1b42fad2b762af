use tomex::commands::sort_strings;
use tomex::export::{date_slashed, editions_read, find_first_finish, Export, ReadSpan};
use tomex::ids::Uuid;
use tomex::progress::{PagesProgress, Progress};
use tomex::records::{Mood, Review};
use tomex::sort::{stable_sort_by_key, string_le};
use tomex::text::Text;
use tomex::timestamp::Timestamp;

const DAY: i64 = 86_400_000;

fn at(ms: i64) -> Timestamp {
    Timestamp::from_millis(ms).unwrap()
}

fn progress(id: u128, edition: u128, day: i64, p: PagesProgress) -> Progress {
    Progress::created(Uuid(id), Uuid(edition), at(day * DAY), p)
}

#[test]
fn stable_sort_keeps_ties_in_order() {
    let v = vec![(3i64, 'a'), (1, 'b'), (3, 'c'), (2, 'd'), (1, 'e')];
    let sorted = stable_sort_by_key(v);
    assert_eq!(sorted, vec![(1, 'b'), (1, 'e'), (2, 'd'), (3, 'a'), (3, 'c')]);
    assert!(stable_sort_by_key(Vec::<(i64, u8)>::new()).is_empty());
}

#[test]
fn string_order_is_by_characters() {
    assert!(string_le(&"Dark".to_string(), &"Dark".to_string()));
    assert!(string_le(&"Dar".to_string(), &"Dark".to_string()));
    assert!(!string_le(&"b".to_string(), &"a".to_string()));
    assert!(string_le(&"Z".to_string(), &"a".to_string()));
    let sorted = sort_strings(vec!["query".to_string(), "add book".to_string(), "add".to_string()]);
    assert_eq!(sorted, vec!["add", "add book", "query"]);
}

#[test]
fn progress_sorted_by_time() {
    let v = vec![
        progress(1, 9, 5, PagesProgress::Finished),
        progress(2, 9, 1, PagesProgress::Started),
        progress(3, 9, 3, PagesProgress::Pages(10)),
        progress(4, 9, 1, PagesProgress::Pages(2)),
    ];
    let ids: Vec<u128> = Progress::sort_for_display(v).iter().map(|p| p.id.0).collect();
    assert_eq!(ids, vec![2, 4, 3, 1]);
}

fn mood(id: u128, name: &str) -> Mood {
    Mood { id: Uuid(id), name: Text(name.to_string()), deleted: false }
}

#[test]
fn moods_sorted_by_name() {
    let v = vec![mood(1, "Tense"), mood(2, "Dark"), mood(3, "Funny"), mood(4, "Dark")];
    let ids: Vec<u128> = Mood::sort_for_display(v).iter().map(|m| m.id.0).collect();
    assert_eq!(ids, vec![2, 4, 3, 1]);
}

#[test]
fn reviews_sorted_by_last_update() {
    let book = tomex::records::Book::created(Uuid(1), Text("Dune".to_string()), None, None);
    let a = Review::created(Uuid(1), &book, None, None, None, at(30 * DAY));
    let b = Review::created(Uuid(2), &book, None, None, None, at(10 * DAY));
    let c = Review::created(Uuid(3), &book, None, None, None, at(20 * DAY));
    let ids: Vec<u128> = Review::sort_for_display(vec![a, b, c]).iter().map(|r| r.id.0).collect();
    assert_eq!(ids, vec![2, 3, 1]);
}

#[test]
fn read_spans_from_progress() {
    let v = vec![
        progress(1, 7, 1, PagesProgress::Started),
        progress(2, 8, 2, PagesProgress::Started),
        progress(3, 7, 3, PagesProgress::Started),
        progress(4, 7, 4, PagesProgress::Finished),
        progress(5, 7, 6, PagesProgress::Finished),
        progress(6, 9, 7, PagesProgress::Finished),
    ];
    assert_eq!(find_first_finish(&v, Uuid(7)), Some(3));
    assert_eq!(find_first_finish(&v, Uuid(8)), None);
    let spans = editions_read(&v);
    assert_eq!(
        spans,
        vec![ReadSpan { edition_id: Uuid(7), started: at(3 * DAY), finished: at(4 * DAY) }]
    );
}

#[test]
fn read_spans_in_order_of_first_start() {
    let v = vec![
        progress(1, 8, 1, PagesProgress::Started),
        progress(2, 7, 2, PagesProgress::Started),
        progress(3, 7, 3, PagesProgress::Finished),
        progress(4, 8, 4, PagesProgress::Finished),
    ];
    let spans = editions_read(&v);
    let editions: Vec<u128> = spans.iter().map(|s| s.edition_id.0).collect();
    assert_eq!(editions, vec![8, 7]);
    assert!(editions_read(&vec![]).is_empty());
}

#[test]
fn export_row() {
    let span = ReadSpan { edition_id: Uuid(7), started: at(0), finished: at(19_478 * DAY) };
    let row = Export::for_read_edition(&Some(Text("9781492067665".to_string())), &span);
    assert_eq!(row.isbn.as_deref(), Some("=\"\""));
    assert_eq!(row.isbn13.as_deref(), Some("=\"9781492067665\""));
    assert_eq!(row.date_read.as_deref(), Some("2023/05/01"));
    assert_eq!(row.date_added.as_deref(), Some("1970/01/01"));
    assert_eq!(row.exclusive_shelf.as_deref(), Some("read"));
    assert!(row.title.is_none());
    assert_eq!(row.owned_copies, "");
    let no_isbn = Export::for_read_edition(&None, &span);
    assert_eq!(no_isbn.isbn13.as_deref(), Some("=\"\""));
    assert_eq!(date_slashed(&at(-DAY)), "1969/12/31");
}
