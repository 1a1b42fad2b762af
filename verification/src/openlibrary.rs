use vstd::prelude::*;
use vstd::string::StringExecFns;

use crate::ids::{random_uuid, Uuid};
use crate::openlib_schema::edition::Edition as OpenLibEdition;
use crate::records::{opt_text_view, Book, Edition};
use crate::text::{opt_string_view, Text};
use crate::timestamp::{millis_representable, parse_date_text, OptionalTimestamp, Timestamp};

verus! {

/// The address of the Open Library record of the edition with an ISBN.
pub open spec fn isbn_url(isbn: Seq<char>) -> Seq<char> {
    "https://openlibrary.org/isbn/"@ + isbn + ".json"@
}

/// The address of the Open Library record with a key such as `/works/OL1W`.
pub open spec fn key_url(key: Seq<char>) -> Seq<char> {
    "https://openlibrary.org"@ + key + ".json"@
}

/// Why an Open Library edition could not be followed further.
#[derive(Clone, Copy, Debug, PartialEq, Eq, Structural)]
pub enum OpenLibraryError {
    /// The edition names no work.
    NoLinkedBook,
    /// The edition names no authors.
    NoAuthors,
}

impl OpenLibraryError {
    /// The message reported for the error.
    pub fn message(&self) -> (s: String)
        ensures
            self is NoLinkedBook ==> s@ == "Couldn't find any books linked to this edition"@,
            self is NoAuthors ==> s@ == "No authors found on OpenLibrary"@,
    {
        match self {
            OpenLibraryError::NoLinkedBook => "Couldn't find any books linked to this edition".to_string(),
            OpenLibraryError::NoAuthors => "No authors found on OpenLibrary".to_string(),
        }
    }
}

/// `prefix`, then `middle`, then `suffix`.
fn concat3(prefix: &str, middle: &str, suffix: &str) -> (s: String)
    ensures
        s@ == prefix@ + middle@ + suffix@,
{
    let mut s = prefix.to_string();
    s.append(middle);
    s.append(suffix);
    s
}

/// The address to fetch the edition with an ISBN from.
pub fn isbn_to_edition_url(isbn: &str) -> (s: String)
    ensures
        s@ == isbn_url(isbn@),
{
    concat3("https://openlibrary.org/isbn/", isbn, ".json")
}

/// The address to fetch the work of an edition from: that of the first work
/// the edition names.
pub fn edition_to_book_url(edition: &OpenLibEdition) -> (r: Result<String, OpenLibraryError>)
    ensures
        match edition.works {
            Some(works) if works.len() > 0 => r matches Ok(s) && s@ == key_url(works[0].key@),
            _ => r == Err::<String, OpenLibraryError>(OpenLibraryError::NoLinkedBook),
        },
{
    match &edition.works {
        Some(works) => {
            if works.len() > 0 {
                Ok(concat3("https://openlibrary.org", works[0].key.as_str(), ".json"))
            } else {
                Err(OpenLibraryError::NoLinkedBook)
            }
        },
        None => Err(OpenLibraryError::NoLinkedBook),
    }
}

/// The addresses to fetch the authors of an edition from, in the order the
/// edition names them.
pub fn edition_to_authors_urls(edition: &OpenLibEdition) -> (r: Result<
    Vec<String>,
    OpenLibraryError,
>)
    ensures
        match edition.authors {
            Some(authors) => r matches Ok(urls) && urls.len() == authors.len() && forall|i: int|
                0 <= i < authors.len() ==> #[trigger] urls[i]@ == key_url(authors[i].key@),
            None => r == Err::<Vec<String>, OpenLibraryError>(OpenLibraryError::NoAuthors),
        },
{
    match &edition.authors {
        None => Err(OpenLibraryError::NoAuthors),
        Some(authors) => {
            let mut urls: Vec<String> = Vec::new();
            let mut i: usize = 0;
            while i < authors.len()
                invariant
                    i <= authors.len(),
                    urls.len() == i,
                    forall|j: int| 0 <= j < i ==> #[trigger] urls[j]@ == key_url(authors[j].key@),
                decreases authors.len() - i,
            {
                urls.push(concat3("https://openlibrary.org", authors[i].key.as_str(), ".json"));
                i = i + 1;
            }
            Ok(urls)
        },
    }
}

/// The release date of an edition from the parsed publish date: missing when
/// the date could not be read or lies outside what a timestamp can hold.
pub fn release_date_from(parsed: Option<i64>) -> (r: OptionalTimestamp)
    ensures
        match parsed {
            Some(m) => millis_representable(m) ==> r@ == Some(m),
            None => r@ is None,
        },
        parsed matches Some(m) && !millis_representable(m) ==> r@ is None,
{
    match parsed {
        Some(m) => OptionalTimestamp(Timestamp::from_millis(m)),
        None => OptionalTimestamp(None),
    }
}

/// The edition title to keep: none when Open Library's title is the title of
/// the book itself.
pub open spec fn kept_edition_title(title: Option<Seq<char>>, book_title: Seq<char>) -> Option<
    Seq<char>,
> {
    if title == Some(book_title) {
        None
    } else {
        title
    }
}

/// An edition of `book` made from an Open Library edition, with the given
/// identifier and release date.
pub fn edition_from_open_library(
    edition: OpenLibEdition,
    book: Book,
    isbn: &str,
    id: Uuid,
    release_date: OptionalTimestamp,
) -> (r: Edition)
    ensures
        r.id == id,
        r.book_id == book.id,
        opt_text_view(r.edition_title) == kept_edition_title(
            opt_string_view(edition.title),
            book.title@,
        ),
        r.edition_description is None,
        opt_text_view(r.isbn) == Some(isbn@),
        r.pages == edition.number_of_pages,
        r.languages is None,
        r.release_date@ == release_date@,
        r.format_id is None,
        r.format is None,
        r.height is None,
        r.width is None,
        r.thickness is None,
        r.weight is None,
        r.binding_id is None,
        r.binding is None,
        r.publishers is None,
        r.cover is None,
        r.reviews is None,
        r.progress is None,
        !r.deleted,
        r.book_title@ == book.title@,
{
    let edition_title = match edition.title {
        Some(t) => {
            if t == book.title.0 {
                None
            } else {
                Some(Text(t))
            }
        },
        None => None,
    };
    Edition {
        id,
        book_id: book.id,
        edition_title,
        edition_description: None,
        isbn: Some(Text(isbn.to_string())),
        pages: edition.number_of_pages,
        languages: None,
        release_date,
        format_id: None,
        format: None,
        height: None,
        width: None,
        thickness: None,
        weight: None,
        binding_id: None,
        binding: None,
        publishers: None,
        cover: None,
        reviews: None,
        progress: None,
        deleted: false,
        book_title: book.title,
    }
}

/// An edition of `book` made from an Open Library edition, with a fresh
/// random identifier and the publish date as read by `dateparser`.
pub fn build_edition(edition: OpenLibEdition, book: Book, isbn: &str) -> (r: Edition)
    ensures
        r.book_id == book.id,
        opt_text_view(r.edition_title) == kept_edition_title(
            opt_string_view(edition.title),
            book.title@,
        ),
        r.edition_description is None,
        opt_text_view(r.isbn) == Some(isbn@),
        r.pages == edition.number_of_pages,
        r.languages is None,
        edition.publish_date is None ==> r.release_date@ is None,
        r.format_id is None,
        r.format is None,
        r.height is None,
        r.width is None,
        r.thickness is None,
        r.weight is None,
        r.binding_id is None,
        r.binding is None,
        r.publishers is None,
        r.cover is None,
        r.reviews is None,
        r.progress is None,
        !r.deleted,
        r.book_title@ == book.title@,
{
    let release_date = match &edition.publish_date {
        Some(date) => release_date_from(parse_date_text(date.as_str())),
        None => OptionalTimestamp(None),
    };
    let id = random_uuid();
    edition_from_open_library(edition, book, isbn, id, release_date)
}

} // verus!
