use tomex::forms::{
    none_if_empty, predefined_text, recommend_default, selected_indices, EditionReviewAnswers,
    ProgressChoice,
};
use tomex::ids::Uuid;
use tomex::progress::{PagesProgress, Progress};
use tomex::records::{Author, AuthorError, Book, Edition, EditionReview, Genre, Mood, Pace, Review};
use tomex::text::Text;
use tomex::timestamp::{OptionalTimestamp, Timestamp};

fn text(s: &str) -> Text {
    Text(s.to_string())
}

fn genre(id: u128, name: &str) -> Genre {
    Genre { id: Uuid(id), name: text(name), deleted: false }
}

fn book() -> Book {
    Book::created(Uuid(1), text("Dracula"), None, None)
}

fn at(ms: i64) -> Timestamp {
    Timestamp::from_millis(ms).unwrap()
}

#[test]
fn prompt_defaults() {
    assert!(recommend_default(None));
    assert!(!recommend_default(Some(false)));
    assert_eq!(predefined_text(&None), "");
    assert_eq!(predefined_text(&Some(text("Great"))), "Great");
    assert!(none_if_empty::<u8>(Some(vec![])).is_none());
    assert_eq!(none_if_empty(Some(vec![1u8])), Some(vec![1u8]));
    assert!(none_if_empty::<u8>(None).is_none());
}

#[test]
fn genres_marked_as_selected() {
    let all = vec![genre(1, "Fantasy"), genre(2, "Horror"), genre(3, "Travel")];
    let current = Some(vec![genre(3, "Travel"), genre(1, "Fantasy")]);
    assert_eq!(selected_indices(&all, &current), vec![0, 2]);
    assert_eq!(selected_indices(&all, &None), Vec::<usize>::new());
    let renamed = Some(vec![genre(2, "Scary")]);
    assert_eq!(selected_indices(&all, &renamed), Vec::<usize>::new());
}

#[test]
fn book_creation_and_update() {
    let author = Author::created(Uuid(9), Some(text("Bram Stoker")));
    let b = Book::created(Uuid(1), text("Dracula"), Some(author), Some(vec![]));
    assert_eq!(b.authors.as_ref().unwrap().len(), 1);
    assert!(b.genres.is_none());
    assert!(b.release_date.0.is_none());
    let released = OptionalTimestamp(Some(at(1000)));
    let b2 = b.updated(text("Dracula (1897)"), released, Some(vec![genre(1, "Horror")]));
    assert_eq!(b2.title.0, "Dracula (1897)");
    assert_eq!(b2.id, Uuid(1));
    assert_eq!(b2.genres.as_ref().unwrap().len(), 1);
    assert_eq!(b2.release_date, released);
}

#[test]
fn review_update_keeps_pace_when_none_chosen() {
    let pace = Pace { id: Uuid(5), name: text("Slow"), deleted: false };
    let r = Review::created(Uuid(2), &book(), Some(80), Some(true), Some(pace), at(10));
    assert_eq!(r.pace_id, Some(Uuid(5)));
    assert_eq!(r.timestamp_created, at(10));
    assert_eq!(r.book_title.0, "Dracula");
    let moods = Some(vec![Mood { id: Uuid(6), name: text("Dark"), deleted: false }]);
    let u = r.updated(Some(90), None, None, Some(text("Spooky")), moods, text("Dracula"), at(20));
    assert_eq!(u.pace_id, Some(Uuid(5)));
    assert_eq!(u.rating, Some(90));
    assert_eq!(u.recommend, None);
    assert_eq!(u.timestamp_created, at(10));
    assert_eq!(u.timestamp_updated, at(20));
    assert_eq!(u.moods.as_ref().unwrap().len(), 1);
}

fn edition() -> Edition {
    Edition::created(Uuid(4), &book(), None, None, Some(text("9781492067665")), Some(418), None)
}

#[test]
fn edition_review_lifecycle() {
    let e = edition();
    let r = EditionReview::created(Uuid(8), &e, Some(70), None, at(1));
    assert_eq!(r.edition_id, Uuid(4));
    assert!(r.cover_rating.is_none());
    let answers = EditionReviewAnswers {
        rating: Some(75),
        recommend: Some(true),
        content: None,
        cover_rating: Some(100),
        cover_text: Some(text("Lovely")),
        typesetting_rating: None,
        typesetting_text: None,
        material_rating: Some(50),
        material_text: None,
        price_rating: None,
        price_text: None,
    };
    let u = r.updated(answers, text("Dracula"), at(2));
    assert_eq!(u.rating, Some(75));
    assert_eq!(u.cover_rating, Some(100));
    assert_eq!(u.material_rating, Some(50));
    assert_eq!(u.timestamp_created, at(1));
    assert_eq!(u.timestamp_updated, at(2));
    assert_eq!(u.id, Uuid(8));
}

#[test]
fn edition_creation_and_update() {
    let e = edition();
    assert_eq!(e.book_id, Uuid(1));
    assert_eq!(e.book_title.0, "Dracula");
    assert!(e.format_id.is_none());
    let u = e.updated(Some(text("Norton")), None, None, None, None, None, None, text("Dracula"));
    assert_eq!(u.pages, Some(418));
    assert_eq!(u.edition_title.as_ref().unwrap().0, "Norton");
    assert!(u.isbn.is_none());
}

#[test]
fn progress_choices() {
    let labels: Vec<&str> = ProgressChoice::all().iter().map(|c| c.label()).collect();
    assert_eq!(labels, vec!["Start reading book", "Input current page number", "Finish reading book"]);
    assert_eq!(PagesProgress::from_choice(ProgressChoice::Pages, 12), PagesProgress::Pages(12));
    assert_eq!(PagesProgress::from_choice(ProgressChoice::Finish, 12), PagesProgress::Finished);
    let p = Progress::created(Uuid(1), Uuid(4), at(5), PagesProgress::Started);
    assert!(!p.deleted);
    let q = p.updated(at(6), PagesProgress::Pages(3));
    assert_eq!(q.id, Uuid(1));
    assert_eq!(q.timestamp, at(6));
}

#[test]
fn author_updates() {
    let a = Author::created(Uuid(3), Some(text("Stoker")));
    let u = a.updated(Some(text("Bram Stoker")), None, None).unwrap();
    assert_eq!(u.name.unwrap().0, "Bram Stoker");
    assert!(matches!(
        Author::unknown().updated(None, None, None),
        Err(AuthorError::UpdateSpecial)
    ));
}

#[test]
fn renaming_named_records() {
    let g = genre(12, "Fantsy").renamed(text("Fantasy"));
    assert_eq!(g.id, Uuid(0));
    assert_eq!(g.name.0, "Fantasy");
    let m = Mood::created(Uuid(12), text("Drak")).renamed(text("Dark"));
    assert_eq!(m.id, Uuid(12));
}
