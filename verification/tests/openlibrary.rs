use tomex::ids::Uuid;
use tomex::openlib_schema::edition::{Author as EditionAuthor, Edition as OpenLibEdition, Work};
use tomex::openlibrary::{
    build_edition, edition_from_open_library, edition_to_authors_urls, edition_to_book_url,
    isbn_to_edition_url, release_date_from, OpenLibraryError,
};
use tomex::queries::{handled_message, isbn_from_request, RequestError};
use tomex::records::Book;
use tomex::text::Text;
use tomex::timestamp::OptionalTimestamp;

fn dracula() -> Book {
    Book::created(Uuid(1), Text("Dracula".to_string()), None, None)
}

#[test]
fn open_library_addresses() {
    assert_eq!(isbn_to_edition_url("9781492067665"), "https://openlibrary.org/isbn/9781492067665.json");
    let mut e = OpenLibEdition::default();
    assert_eq!(edition_to_book_url(&e).unwrap_err(), OpenLibraryError::NoLinkedBook);
    e.works = Some(vec![]);
    assert_eq!(edition_to_book_url(&e).unwrap_err(), OpenLibraryError::NoLinkedBook);
    e.works = Some(vec![Work { key: "/works/OL1W".to_string() }, Work { key: "/works/OL2W".to_string() }]);
    assert_eq!(edition_to_book_url(&e).unwrap(), "https://openlibrary.org/works/OL1W.json");
    assert_eq!(edition_to_authors_urls(&e).unwrap_err(), OpenLibraryError::NoAuthors);
    e.authors = Some(vec![
        EditionAuthor { key: "/authors/OL1A".to_string() },
        EditionAuthor { key: "/authors/OL2A".to_string() },
    ]);
    assert_eq!(
        edition_to_authors_urls(&e).unwrap(),
        vec!["https://openlibrary.org/authors/OL1A.json", "https://openlibrary.org/authors/OL2A.json"]
    );
    assert_eq!(OpenLibraryError::NoLinkedBook.message(), "Couldn't find any books linked to this edition");
    assert_eq!(OpenLibraryError::NoAuthors.message(), "No authors found on OpenLibrary");
}

#[test]
fn editions_from_open_library() {
    let mut e = OpenLibEdition::default();
    e.title = Some("Dracula".to_string());
    e.number_of_pages = Some(418);
    let edition = edition_from_open_library(e, dracula(), "9781492067665", Uuid(5), OptionalTimestamp(None));
    assert_eq!(edition.id, Uuid(5));
    assert_eq!(edition.book_id, Uuid(1));
    assert!(edition.edition_title.is_none());
    assert_eq!(edition.isbn.as_ref().unwrap().0, "9781492067665");
    assert_eq!(edition.pages, Some(418));
    assert_eq!(edition.book_title.0, "Dracula");

    let mut e2 = OpenLibEdition::default();
    e2.title = Some("Dracula: Norton Critical Edition".to_string());
    let edition2 = edition_from_open_library(e2, dracula(), "x", Uuid(6), OptionalTimestamp(None));
    assert_eq!(edition2.edition_title.unwrap().0, "Dracula: Norton Critical Edition");
}

#[test]
fn built_editions_parse_publish_dates() {
    let mut e = OpenLibEdition::default();
    e.publish_date = Some("2019-07-09".to_string());
    let built = build_edition(e, dracula(), "9781492067665");
    let released = built.release_date.0.expect("a release date");
    assert!(released.millis() >= 1_562_544_000_000 - 86_400_000);
    assert!(released.millis() <= 1_562_630_400_000 + 86_400_000);

    let mut undated = OpenLibEdition::default();
    undated.publish_date = None;
    assert!(build_edition(undated, dracula(), "1").release_date.0.is_none());

    let a = build_edition(OpenLibEdition::default(), dracula(), "1");
    let b = build_edition(OpenLibEdition::default(), dracula(), "1");
    assert_ne!(a.id, b.id);
}

#[test]
fn release_dates() {
    assert_eq!(release_date_from(None), OptionalTimestamp(None));
    assert_eq!(release_date_from(Some(i64::MAX)), OptionalTimestamp(None));
    assert_eq!(release_date_from(Some(1000)).0.unwrap().millis(), 1000);
}

#[test]
fn isbn_requests() {
    assert_eq!(isbn_from_request(None).unwrap_err(), RequestError::NotAnIsbn);
    assert_eq!(isbn_from_request(Some("12")).unwrap_err(), RequestError::NotAnIsbn);
    let isbn = isbn_from_request(Some("978-1-4920-6766-5")).unwrap();
    assert_eq!(handled_message(&isbn), "Handling of 9781492067665 complete.");
    assert_eq!(RequestError::NotAnIsbn.status(), 418);
    assert_eq!(RequestError::Failed.status(), 500);
}
