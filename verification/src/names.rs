use vstd::prelude::*;
use vstd::string::StringExecFns;

use crate::progress::Progress;
use crate::records::{
    Author, Binding, Book, Edition, EditionFormat, EditionReview, Genre, Language, Mood, Pace,
    Publisher, Review,
};

verus! {

/// The kinds of record kept in the database, one table each.
#[derive(Clone, Copy, Debug, PartialEq, Eq, Structural)]
pub enum RecordKind {
    Author,
    Binding,
    Book,
    Edition,
    EditionFormat,
    EditionReview,
    Genre,
    Language,
    Mood,
    Pace,
    Progress,
    Publisher,
    Review,
}

/// The singular name of a kind: the lower-cased name of its type.
pub open spec fn singular_name(k: RecordKind) -> Seq<char> {
    match k {
        RecordKind::Author => "author"@,
        RecordKind::Binding => "binding"@,
        RecordKind::Book => "book"@,
        RecordKind::Edition => "edition"@,
        RecordKind::EditionFormat => "editionformat"@,
        RecordKind::EditionReview => "editionreview"@,
        RecordKind::Genre => "genre"@,
        RecordKind::Language => "language"@,
        RecordKind::Mood => "mood"@,
        RecordKind::Pace => "pace"@,
        RecordKind::Progress => "progress"@,
        RecordKind::Publisher => "publisher"@,
        RecordKind::Review => "review"@,
    }
}

impl RecordKind {
    /// The singular name, e.g. `book`.
    pub fn name_singular(&self) -> (s: &'static str)
        ensures
            s@ == singular_name(*self),
    {
        match self {
            RecordKind::Author => "author",
            RecordKind::Binding => "binding",
            RecordKind::Book => "book",
            RecordKind::Edition => "edition",
            RecordKind::EditionFormat => "editionformat",
            RecordKind::EditionReview => "editionreview",
            RecordKind::Genre => "genre",
            RecordKind::Language => "language",
            RecordKind::Mood => "mood",
            RecordKind::Pace => "pace",
            RecordKind::Progress => "progress",
            RecordKind::Publisher => "publisher",
            RecordKind::Review => "review",
        }
    }

    /// The plural name: the singular name followed by `s`.
    pub fn name_plural(&self) -> (s: String)
        ensures
            s@ == singular_name(*self) + "s"@,
    {
        let mut s = self.name_singular().to_string();
        s.append("s");
        s
    }

    /// The name of the table that holds records of this kind: the plural name.
    pub fn table_name(&self) -> (s: String)
        ensures
            s@ == singular_name(*self) + "s"@,
    {
        self.name_plural()
    }
}

/// Records kept in a table of their own, named after their kind.
pub trait Names {
    /// The kind of the records.
    spec fn record_kind() -> RecordKind;

    /// The kind of the records, which gives their singular and plural names
    /// and the name of their table.
    fn kind() -> (k: RecordKind)
        ensures
            k == Self::record_kind(),
    ;
}

impl Names for Author {
    open spec fn record_kind() -> RecordKind {
        RecordKind::Author
    }

    fn kind() -> (k: RecordKind) {
        RecordKind::Author
    }
}

impl Names for Binding {
    open spec fn record_kind() -> RecordKind {
        RecordKind::Binding
    }

    fn kind() -> (k: RecordKind) {
        RecordKind::Binding
    }
}

impl Names for Book {
    open spec fn record_kind() -> RecordKind {
        RecordKind::Book
    }

    fn kind() -> (k: RecordKind) {
        RecordKind::Book
    }
}

impl Names for Edition {
    open spec fn record_kind() -> RecordKind {
        RecordKind::Edition
    }

    fn kind() -> (k: RecordKind) {
        RecordKind::Edition
    }
}

impl Names for EditionFormat {
    open spec fn record_kind() -> RecordKind {
        RecordKind::EditionFormat
    }

    fn kind() -> (k: RecordKind) {
        RecordKind::EditionFormat
    }
}

impl Names for EditionReview {
    open spec fn record_kind() -> RecordKind {
        RecordKind::EditionReview
    }

    fn kind() -> (k: RecordKind) {
        RecordKind::EditionReview
    }
}

impl Names for Genre {
    open spec fn record_kind() -> RecordKind {
        RecordKind::Genre
    }

    fn kind() -> (k: RecordKind) {
        RecordKind::Genre
    }
}

impl Names for Language {
    open spec fn record_kind() -> RecordKind {
        RecordKind::Language
    }

    fn kind() -> (k: RecordKind) {
        RecordKind::Language
    }
}

impl Names for Mood {
    open spec fn record_kind() -> RecordKind {
        RecordKind::Mood
    }

    fn kind() -> (k: RecordKind) {
        RecordKind::Mood
    }
}

impl Names for Pace {
    open spec fn record_kind() -> RecordKind {
        RecordKind::Pace
    }

    fn kind() -> (k: RecordKind) {
        RecordKind::Pace
    }
}

impl Names for Progress {
    open spec fn record_kind() -> RecordKind {
        RecordKind::Progress
    }

    fn kind() -> (k: RecordKind) {
        RecordKind::Progress
    }
}

impl Names for Publisher {
    open spec fn record_kind() -> RecordKind {
        RecordKind::Publisher
    }

    fn kind() -> (k: RecordKind) {
        RecordKind::Publisher
    }
}

impl Names for Review {
    open spec fn record_kind() -> RecordKind {
        RecordKind::Review
    }

    fn kind() -> (k: RecordKind) {
        RecordKind::Review
    }
}

/// The junction tables, each linking records of two kinds.
#[derive(Clone, Copy, Debug, PartialEq, Eq, Structural)]
pub enum JunctionKind {
    BookAuthor,
    BookGenre,
    EditionLanguage,
    EditionPublisher,
    ReviewMood,
}

/// The two kinds a junction table links.
pub open spec fn junction_sides(j: JunctionKind) -> (RecordKind, RecordKind) {
    match j {
        JunctionKind::BookAuthor => (RecordKind::Book, RecordKind::Author),
        JunctionKind::BookGenre => (RecordKind::Book, RecordKind::Genre),
        JunctionKind::EditionLanguage => (RecordKind::Edition, RecordKind::Language),
        JunctionKind::EditionPublisher => (RecordKind::Edition, RecordKind::Publisher),
        JunctionKind::ReviewMood => (RecordKind::Review, RecordKind::Mood),
    }
}

impl JunctionKind {
    /// The two kinds this junction table links.
    pub fn sides(&self) -> (r: (RecordKind, RecordKind))
        ensures
            r == junction_sides(*self),
    {
        match self {
            JunctionKind::BookAuthor => (RecordKind::Book, RecordKind::Author),
            JunctionKind::BookGenre => (RecordKind::Book, RecordKind::Genre),
            JunctionKind::EditionLanguage => (RecordKind::Edition, RecordKind::Language),
            JunctionKind::EditionPublisher => (RecordKind::Edition, RecordKind::Publisher),
            JunctionKind::ReviewMood => (RecordKind::Review, RecordKind::Mood),
        }
    }

    /// The table name: the two singular names joined by `_`.
    pub fn table_name(&self) -> (s: String)
        ensures
            s@ == singular_name(junction_sides(*self).0) + "_"@ + singular_name(
                junction_sides(*self).1,
            ),
    {
        let (a, b) = self.sides();
        let mut s = a.name_singular().to_string();
        s.append("_");
        s.append(b.name_singular());
        s
    }
}

} // verus!
