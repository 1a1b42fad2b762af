use vstd::prelude::*;

use crate::ids::{Id, Uuid};
use crate::junction::SameRecord;
use crate::progress::Progress;
use crate::text::{text_eq, Text};
use crate::timestamp::{OptionalTimestamp, Timestamp};

verus! {

/// A mood a book can set, such as "Dark" or "Hopeful".
#[derive(Debug)]
pub struct Mood {
    pub id: Uuid,
    pub name: Text,
    pub deleted: bool,
}

impl View for Mood {
    type V = (u128, Seq<char>, bool);

    open spec fn view(&self) -> (u128, Seq<char>, bool) {
        (self.id.0, self.name@, self.deleted)
    }
}

impl SameRecord for Mood {
    fn same_record(&self, other: &Self) -> (r: bool) {
        self.id.0 == other.id.0 && text_eq(&self.name, &other.name) && self.deleted
            == other.deleted
    }
}

impl Clone for Mood {
    fn clone(&self) -> (r: Self)
        ensures
            r@ == self@,
    {
        Mood { id: self.id, name: self.name.clone(), deleted: self.deleted }
    }
}

/// The pace of a book, such as "Slow" or "Fast".
#[derive(Debug)]
pub struct Pace {
    pub id: Uuid,
    pub name: Text,
    pub deleted: bool,
}

impl View for Pace {
    type V = (u128, Seq<char>, bool);

    open spec fn view(&self) -> (u128, Seq<char>, bool) {
        (self.id.0, self.name@, self.deleted)
    }
}

impl SameRecord for Pace {
    fn same_record(&self, other: &Self) -> (r: bool) {
        self.id.0 == other.id.0 && text_eq(&self.name, &other.name) && self.deleted
            == other.deleted
    }
}

impl Clone for Pace {
    fn clone(&self) -> (r: Self)
        ensures
            r@ == self@,
    {
        Pace { id: self.id, name: self.name.clone(), deleted: self.deleted }
    }
}

/// A genre a book belongs to.
#[derive(Debug)]
pub struct Genre {
    pub id: Uuid,
    pub name: Text,
    pub deleted: bool,
}

impl View for Genre {
    type V = (u128, Seq<char>, bool);

    open spec fn view(&self) -> (u128, Seq<char>, bool) {
        (self.id.0, self.name@, self.deleted)
    }
}

impl SameRecord for Genre {
    fn same_record(&self, other: &Self) -> (r: bool) {
        self.id.0 == other.id.0 && text_eq(&self.name, &other.name) && self.deleted
            == other.deleted
    }
}

impl Clone for Genre {
    fn clone(&self) -> (r: Self)
        ensures
            r@ == self@,
    {
        Genre { id: self.id, name: self.name.clone(), deleted: self.deleted }
    }
}

/// A language an edition is written in.
#[derive(Debug)]
pub struct Language {
    pub id: Uuid,
    pub name: Text,
    pub deleted: bool,
}

impl View for Language {
    type V = (u128, Seq<char>, bool);

    open spec fn view(&self) -> (u128, Seq<char>, bool) {
        (self.id.0, self.name@, self.deleted)
    }
}

impl SameRecord for Language {
    fn same_record(&self, other: &Self) -> (r: bool) {
        self.id.0 == other.id.0 && text_eq(&self.name, &other.name) && self.deleted
            == other.deleted
    }
}

impl Clone for Language {
    fn clone(&self) -> (r: Self)
        ensures
            r@ == self@,
    {
        Language { id: self.id, name: self.name.clone(), deleted: self.deleted }
    }
}

/// A publisher of editions.
#[derive(Debug)]
pub struct Publisher {
    pub id: Uuid,
    pub name: Text,
    pub deleted: bool,
}

impl View for Publisher {
    type V = (u128, Seq<char>, bool);

    open spec fn view(&self) -> (u128, Seq<char>, bool) {
        (self.id.0, self.name@, self.deleted)
    }
}

impl SameRecord for Publisher {
    fn same_record(&self, other: &Self) -> (r: bool) {
        self.id.0 == other.id.0 && text_eq(&self.name, &other.name) && self.deleted
            == other.deleted
    }
}

impl Clone for Publisher {
    fn clone(&self) -> (r: Self)
        ensures
            r@ == self@,
    {
        Publisher { id: self.id, name: self.name.clone(), deleted: self.deleted }
    }
}

/// How the pages of an edition are bound together.
#[derive(Debug)]
pub struct Binding {
    pub id: Uuid,
    pub name: Text,
    pub deleted: bool,
}

impl View for Binding {
    type V = (u128, Seq<char>, bool);

    open spec fn view(&self) -> (u128, Seq<char>, bool) {
        (self.id.0, self.name@, self.deleted)
    }
}

impl SameRecord for Binding {
    fn same_record(&self, other: &Self) -> (r: bool) {
        self.id.0 == other.id.0 && text_eq(&self.name, &other.name) && self.deleted
            == other.deleted
    }
}

impl Clone for Binding {
    fn clone(&self) -> (r: Self)
        ensures
            r@ == self@,
    {
        Binding { id: self.id, name: self.name.clone(), deleted: self.deleted }
    }
}

/// The format of an edition, such as "Paperback" or "Ebook".
#[derive(Debug)]
pub struct EditionFormat {
    pub id: Uuid,
    pub name: Text,
    pub deleted: bool,
}

impl View for EditionFormat {
    type V = (u128, Seq<char>, bool);

    open spec fn view(&self) -> (u128, Seq<char>, bool) {
        (self.id.0, self.name@, self.deleted)
    }
}

impl SameRecord for EditionFormat {
    fn same_record(&self, other: &Self) -> (r: bool) {
        self.id.0 == other.id.0 && text_eq(&self.name, &other.name) && self.deleted
            == other.deleted
    }
}

impl Clone for EditionFormat {
    fn clone(&self) -> (r: Self)
        ensures
            r@ == self@,
    {
        EditionFormat { id: self.id, name: self.name.clone(), deleted: self.deleted }
    }
}

/// An author. The one "special" author, with the nil identifier, stands for
/// an unknown author.
#[derive(Debug)]
pub struct Author {
    pub id: Uuid,
    pub name: Option<Text>,
    pub date_born: OptionalTimestamp,
    pub date_died: OptionalTimestamp,
    pub deleted: bool,
    pub special: bool,
}

/// The value of an optional text.
pub open spec fn opt_text_view(t: Option<Text>) -> Option<Seq<char>> {
    match t {
        Some(x) => Some(x@),
        None => None,
    }
}

/// Whether two optional texts are equal.
pub fn opt_text_eq(a: &Option<Text>, b: &Option<Text>) -> (r: bool)
    ensures
        r == (opt_text_view(*a) == opt_text_view(*b)),
{
    match (a, b) {
        (Some(x), Some(y)) => text_eq(x, y),
        (None, None) => true,
        _ => false,
    }
}

/// Whether two optional timestamps are equal.
pub fn opt_timestamp_eq(a: &OptionalTimestamp, b: &OptionalTimestamp) -> (r: bool)
    ensures
        r == (a@ == b@),
{
    match (a.0, b.0) {
        (Some(x), Some(y)) => x.millis() == y.millis(),
        (None, None) => true,
        _ => false,
    }
}

impl View for Author {
    type V = (u128, Option<Seq<char>>, Option<i64>, Option<i64>, bool, bool);

    open spec fn view(&self) -> (u128, Option<Seq<char>>, Option<i64>, Option<i64>, bool, bool) {
        (
            self.id.0,
            opt_text_view(self.name),
            self.date_born@,
            self.date_died@,
            self.deleted,
            self.special,
        )
    }
}

impl SameRecord for Author {
    fn same_record(&self, other: &Self) -> (r: bool) {
        self.id.0 == other.id.0 && opt_text_eq(&self.name, &other.name) && opt_timestamp_eq(
            &self.date_born,
            &other.date_born,
        ) && opt_timestamp_eq(&self.date_died, &other.date_died) && self.deleted == other.deleted
            && self.special == other.special
    }
}

impl Clone for Author {
    fn clone(&self) -> (r: Self)
        ensures
            r@ == self@,
    {
        let name = match &self.name {
            Some(t) => Some(t.clone()),
            None => None,
        };
        Author {
            id: self.id,
            name,
            date_born: self.date_born,
            date_died: self.date_died,
            deleted: self.deleted,
            special: self.special,
        }
    }
}

/// The stored form of the special record that stands for an unknown author:
/// the nil identifier, no name, no dates.
pub open spec fn unknown_author_view() -> (u128, Option<Seq<char>>, Option<i64>, Option<i64>, bool, bool) {
    (0, None, None, None, false, true)
}

/// Why an author record cannot be changed.
#[derive(Clone, Copy, Debug, PartialEq, Eq, Structural)]
pub enum AuthorError {
    /// Special authors cannot be updated.
    UpdateSpecial,
    /// Special authors cannot be removed by the user.
    RemoveSpecial,
    /// A special author other than the unknown author.
    UnknownSpecial,
}

/// The author a stored row reads back as.
pub open spec fn author_from_stored(
    id: u128,
    name: Option<Seq<char>>,
    date_born: Option<i64>,
    date_died: Option<i64>,
    deleted: bool,
) -> (u128, Option<Seq<char>>, Option<i64>, Option<i64>, bool, bool) {
    if id == 0 {
        unknown_author_view()
    } else {
        (id, name, date_born, date_died, deleted, false)
    }
}

impl AuthorError {
    /// The message reported for the error.
    pub fn message(&self) -> (s: String)
        ensures
            self is UpdateSpecial ==> s@ == "Can't update special author"@,
            self is RemoveSpecial ==> s@ == "Can't remove special author manually"@,
            self is UnknownSpecial ==> s@ == "Unkown special author"@,
    {
        match self {
            AuthorError::UpdateSpecial => "Can't update special author".to_string(),
            AuthorError::RemoveSpecial => "Can't remove special author manually".to_string(),
            AuthorError::UnknownSpecial => "Unkown special author".to_string(),
        }
    }
}

impl Author {
    /// The special record that stands for an unknown author, stored when the
    /// database is created.
    pub fn unknown() -> (r: Author)
        ensures
            r@ == unknown_author_view(),
    {
        Author {
            id: Uuid(0),
            name: None,
            date_born: OptionalTimestamp(None),
            date_died: OptionalTimestamp(None),
            deleted: false,
            special: true,
        }
    }

    /// The author read from a stored row: the row with the nil identifier is
    /// the unknown author, whatever else it holds; any other row is an
    /// ordinary author.
    pub fn from_stored(
        id: Uuid,
        name: Option<Text>,
        date_born: OptionalTimestamp,
        date_died: OptionalTimestamp,
        deleted: bool,
    ) -> (r: Author)
        ensures
            r@ == author_from_stored(id.0, opt_text_view(name), date_born@, date_died@, deleted),
    {
        if id.0 == 0 {
            Author::unknown()
        } else {
            Author { id, name, date_born, date_died, deleted, special: false }
        }
    }

    /// Whether the author may be updated: special authors may not.
    pub fn check_updatable(&self) -> (r: Result<(), AuthorError>)
        ensures
            self.special ==> r == Err::<(), AuthorError>(AuthorError::UpdateSpecial),
            !self.special ==> r is Ok,
    {
        if self.special {
            Err(AuthorError::UpdateSpecial)
        } else {
            Ok(())
        }
    }

    /// Whether the author may be removed by the user: special authors may not.
    pub fn check_removable(&self) -> (r: Result<(), AuthorError>)
        ensures
            self.special ==> r == Err::<(), AuthorError>(AuthorError::RemoveSpecial),
            !self.special ==> r is Ok,
    {
        if self.special {
            Err(AuthorError::RemoveSpecial)
        } else {
            Ok(())
        }
    }
}

/// Storing an author (identifier, name, dates, deletion mark) and reading it
/// back gives the same author, for the unknown author and for every ordinary
/// author whose identifier is not nil.
pub proof fn lemma_author_round_trip(a: (u128, Option<Seq<char>>, Option<i64>, Option<i64>, bool, bool))
    requires
        a == unknown_author_view() || (!a.5 && a.0 != 0),
    ensures
        author_from_stored(a.0, a.1, a.2, a.3, a.4) == a,
{
}

/// A book: a work that can have several editions.
#[derive(Clone, Debug)]
pub struct Book {
    pub id: Uuid,
    pub title: Text,
    pub authors: Option<Vec<Author>>,
    pub release_date: OptionalTimestamp,
    pub editions: Option<Vec<Edition>>,
    pub reviews: Option<Vec<Review>>,
    pub genres: Option<Vec<Genre>>,
    pub deleted: bool,
}

/// One edition of a book.
#[derive(Clone, Debug)]
pub struct Edition {
    pub id: Uuid,
    pub book_id: Uuid,
    pub edition_title: Option<Text>,
    pub edition_description: Option<Text>,
    pub isbn: Option<Text>,
    pub pages: Option<u32>,
    pub languages: Option<Vec<Language>>,
    pub release_date: OptionalTimestamp,
    pub format_id: Option<Uuid>,
    pub format: Option<EditionFormat>,
    pub height: Option<u32>,
    pub width: Option<u32>,
    pub thickness: Option<u32>,
    pub weight: Option<u32>,
    pub binding_id: Option<Uuid>,
    pub binding: Option<Binding>,
    pub publishers: Option<Vec<Publisher>>,
    pub cover: Option<String>,
    pub reviews: Option<Vec<EditionReview>>,
    pub progress: Option<Vec<Progress>>,
    pub deleted: bool,
    pub book_title: Text,
}

/// A review of a book.
#[derive(Clone, Debug)]
pub struct Review {
    pub id: Uuid,
    pub book_id: Uuid,
    pub rating: Option<u32>,
    pub recommend: Option<bool>,
    pub content: Option<Text>,
    pub timestamp_created: Timestamp,
    pub timestamp_updated: Timestamp,
    pub pace_id: Option<Uuid>,
    pub pace: Option<Pace>,
    pub deleted: bool,
    pub book_title: Text,
    pub moods: Option<Vec<Mood>>,
}

/// A review of one edition of a book: of the text and of the physical book.
#[derive(Clone, Debug)]
pub struct EditionReview {
    pub id: Uuid,
    pub edition_id: Uuid,
    pub rating: Option<u32>,
    pub recommend: Option<bool>,
    pub content: Option<Text>,
    pub cover_rating: Option<u32>,
    pub cover_text: Option<Text>,
    pub typesetting_rating: Option<u32>,
    pub typesetting_text: Option<Text>,
    pub material_rating: Option<u32>,
    pub material_text: Option<Text>,
    pub price_rating: Option<u32>,
    pub price_text: Option<Text>,
    pub timestamp_created: Timestamp,
    pub timestamp_updated: Timestamp,
    pub deleted: bool,
    pub book_title: Text,
}

/// What was paid for an edition, and when.
#[derive(Clone, Debug)]
pub struct Price {
    pub value: Text,
    pub timestamp: OptionalTimestamp,
}

impl Id for Mood {
    open spec fn id_view(&self) -> u128 {
        self.id.0
    }

    fn id(&self) -> (r: Uuid) {
        self.id
    }
}

impl Id for Pace {
    open spec fn id_view(&self) -> u128 {
        self.id.0
    }

    fn id(&self) -> (r: Uuid) {
        self.id
    }
}

impl Id for Genre {
    open spec fn id_view(&self) -> u128 {
        self.id.0
    }

    fn id(&self) -> (r: Uuid) {
        self.id
    }
}

impl Id for Language {
    open spec fn id_view(&self) -> u128 {
        self.id.0
    }

    fn id(&self) -> (r: Uuid) {
        self.id
    }
}

impl Id for Publisher {
    open spec fn id_view(&self) -> u128 {
        self.id.0
    }

    fn id(&self) -> (r: Uuid) {
        self.id
    }
}

impl Id for Binding {
    open spec fn id_view(&self) -> u128 {
        self.id.0
    }

    fn id(&self) -> (r: Uuid) {
        self.id
    }
}

impl Id for EditionFormat {
    open spec fn id_view(&self) -> u128 {
        self.id.0
    }

    fn id(&self) -> (r: Uuid) {
        self.id
    }
}

impl Id for Author {
    open spec fn id_view(&self) -> u128 {
        self.id.0
    }

    fn id(&self) -> (r: Uuid) {
        self.id
    }
}

impl Id for Book {
    open spec fn id_view(&self) -> u128 {
        self.id.0
    }

    fn id(&self) -> (r: Uuid) {
        self.id
    }
}

impl Id for Edition {
    open spec fn id_view(&self) -> u128 {
        self.id.0
    }

    fn id(&self) -> (r: Uuid) {
        self.id
    }
}

impl Id for Review {
    open spec fn id_view(&self) -> u128 {
        self.id.0
    }

    fn id(&self) -> (r: Uuid) {
        self.id
    }
}

impl Id for EditionReview {
    open spec fn id_view(&self) -> u128 {
        self.id.0
    }

    fn id(&self) -> (r: Uuid) {
        self.id
    }
}

} // verus!
