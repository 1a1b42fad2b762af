use vstd::prelude::*;

use crate::ids::Uuid;
use crate::junction::{holds_record, positions, SameRecord};
use crate::progress::{PagesProgress, Progress};
use crate::records::{
    opt_text_view, Author, AuthorError, Binding, Book, Edition, EditionFormat, EditionReview,
    Genre, Language, Mood, Pace, Publisher, Review,
};
use crate::text::Text;
use crate::timestamp::{OptionalTimestamp, Timestamp};

verus! {

/// The answer offered first when asking whether to recommend something: the
/// previous answer, or yes when there is none.
pub fn recommend_default(previous: Option<bool>) -> (r: bool)
    ensures
        r == match previous {
            Some(b) => b,
            None => true,
        },
{
    match previous {
        Some(b) => b,
        None => true,
    }
}

/// The text put in the editor when asking for a text again: the previous
/// text, or nothing.
pub fn predefined_text(previous: &Option<Text>) -> (r: &str)
    ensures
        r@ == match previous {
            Some(t) => t@,
            None => ""@,
        },
{
    match previous {
        Some(t) => t.0.as_str(),
        None => "",
    }
}

/// A selection of nothing counts as no selection.
pub fn none_if_empty<T>(v: Option<Vec<T>>) -> (r: Option<Vec<T>>)
    ensures
        match v {
            Some(x) => if x.len() == 0 {
                r is None
            } else {
                r == Some(x)
            },
            None => r is None,
        },
{
    match v {
        Some(x) => if x.len() == 0 {
            None
        } else {
            Some(x)
        },
        None => None,
    }
}

/// `idx` lists, in increasing order, exactly the positions of the records of
/// `from` whose value some record of `other` holds.
pub open spec fn selects_present<B: View>(idx: Seq<int>, from: Seq<B>, other: Seq<B>) -> bool {
    &&& forall|i: int, j: int| 0 <= i < j < idx.len() ==> idx[i] < idx[j]
    &&& forall|i: int|
        0 <= i < idx.len() ==> 0 <= #[trigger] idx[i] < from.len() && holds_record(
            other,
            from[idx[i]]@,
        )
    &&& forall|k: int|
        0 <= k < from.len() && #[trigger] holds_record(other, from[k]@) ==> idx.contains(k)
}

/// The positions, among all records offered, of those currently selected:
/// the choices to mark in a multiple selection. None without a selection.
pub fn selected_indices<B: SameRecord>(all: &Vec<B>, current: &Option<Vec<B>>) -> (idx: Vec<
    usize,
>)
    ensures
        match current {
            Some(c) => selects_present(positions(idx@), all@, c@),
            None => idx@.len() == 0,
        },
{
    let current = match current {
        Some(c) => c,
        None => {
            return Vec::new();
        },
    };
    let mut idx: Vec<usize> = Vec::new();
    let mut i: usize = 0;
    while i < all.len()
        invariant
            i <= all.len(),
            forall|a: int, b: int| 0 <= a < b < idx.len() ==> idx@[a] < idx@[b],
            forall|a: int|
                0 <= a < idx.len() ==> #[trigger] idx@[a] < i && holds_record(
                    current@,
                    all@[idx@[a] as int]@,
                ),
            forall|k: int|
                0 <= k < i && #[trigger] holds_record(current@, all@[k]@) ==> positions(
                    idx@,
                ).contains(k),
        decreases all.len() - i,
    {
        let ghost before = idx@;
        let found = crate::junction::contains_record(current, &all[i]);
        if found {
            idx.push(i);
        }
        assert forall|k: int|
            0 <= k < i + 1 && #[trigger] holds_record(current@, all@[k]@) implies positions(
            idx@,
        ).contains(k) by {
            if k == i as int {
                assert(positions(idx@)[idx.len() - 1] == k);
            } else {
                let m = choose|m: int| 0 <= m < before.len() && positions(before)[m] == k;
                assert(positions(idx@)[m] == k);
            }
        }
        i = i + 1;
    }
    idx
}

/// The choices offered when recording how far a book has been read.
#[derive(Clone, Copy, Debug, PartialEq, Eq, Structural)]
pub enum ProgressChoice {
    Start,
    Pages,
    Finish,
}

/// The text of a choice.
pub open spec fn choice_label(c: ProgressChoice) -> Seq<char> {
    match c {
        ProgressChoice::Start => "Start reading book"@,
        ProgressChoice::Pages => "Input current page number"@,
        ProgressChoice::Finish => "Finish reading book"@,
    }
}

impl ProgressChoice {
    /// The choices, in the order they are offered.
    pub fn all() -> (r: Vec<ProgressChoice>)
        ensures
            r@ == seq![ProgressChoice::Start, ProgressChoice::Pages, ProgressChoice::Finish],
    {
        let r = vec![ProgressChoice::Start, ProgressChoice::Pages, ProgressChoice::Finish];
        proof {
            assert(r@ =~= seq![ProgressChoice::Start, ProgressChoice::Pages, ProgressChoice::Finish]);
        }
        r
    }

    /// The text of the choice.
    pub fn label(&self) -> (s: &'static str)
        ensures
            s@ == choice_label(*self),
    {
        match self {
            ProgressChoice::Start => "Start reading book",
            ProgressChoice::Pages => "Input current page number",
            ProgressChoice::Finish => "Finish reading book",
        }
    }
}

impl PagesProgress {
    /// The progress a choice records; `page` is the page reached, asked for
    /// only with the choice to give one.
    pub fn from_choice(choice: ProgressChoice, page: u32) -> (r: PagesProgress)
        ensures
            r == match choice {
                ProgressChoice::Start => PagesProgress::Started,
                ProgressChoice::Pages => PagesProgress::Pages(page),
                ProgressChoice::Finish => PagesProgress::Finished,
            },
    {
        match choice {
            ProgressChoice::Start => PagesProgress::Started,
            ProgressChoice::Pages => PagesProgress::Pages(page),
            ProgressChoice::Finish => PagesProgress::Finished,
        }
    }
}

impl Review {
    /// A new review of `book`, created now, without text or moods.
    pub fn created(
        id: Uuid,
        book: &Book,
        rating: Option<u32>,
        recommend: Option<bool>,
        pace: Option<Pace>,
        now: Timestamp,
    ) -> (r: Review)
        ensures
            r.id == id,
            r.book_id == book.id,
            r.rating == rating,
            r.recommend == recommend,
            r.content is None,
            r.timestamp_created == now,
            r.timestamp_updated == now,
            r.pace_id == (match pace {
                Some(p) => Some(p.id),
                None => None::<Uuid>,
            }),
            r.pace == pace,
            !r.deleted,
            r.book_title@ == book.title@,
            r.moods is None,
    {
        let pace_id = match &pace {
            Some(p) => Some(p.id),
            None => None,
        };
        Review {
            id,
            book_id: book.id,
            rating,
            recommend,
            content: None,
            timestamp_created: now,
            timestamp_updated: now,
            pace_id,
            pace,
            deleted: false,
            book_title: book.title.clone(),
            moods: None,
        }
    }

    /// The review with the answers given when editing it: the pace is kept
    /// when none was chosen, the title follows the book, and the review
    /// counts as updated now.
    pub fn updated(
        self,
        rating: Option<u32>,
        recommend: Option<bool>,
        pace: Option<Pace>,
        content: Option<Text>,
        moods: Option<Vec<Mood>>,
        book_title: Text,
        now: Timestamp,
    ) -> (r: Review)
        ensures
            r.id == self.id,
            r.book_id == self.book_id,
            r.rating == rating,
            r.recommend == recommend,
            r.content == content,
            r.timestamp_created == self.timestamp_created,
            r.timestamp_updated == now,
            r.pace == (match pace {
                Some(p) => Some(p),
                None => self.pace,
            }),
            r.pace_id == (match r.pace {
                Some(p) => Some(p.id),
                None => None::<Uuid>,
            }),
            r.deleted == self.deleted,
            r.book_title == book_title,
            r.moods == moods,
    {
        let pace = match pace {
            Some(p) => Some(p),
            None => self.pace,
        };
        let pace_id = match &pace {
            Some(p) => Some(p.id),
            None => None,
        };
        Review {
            id: self.id,
            book_id: self.book_id,
            rating,
            recommend,
            content,
            timestamp_created: self.timestamp_created,
            timestamp_updated: now,
            pace_id,
            pace,
            deleted: self.deleted,
            book_title,
            moods,
        }
    }
}

/// The answers given when editing a review of an edition.
pub struct EditionReviewAnswers {
    pub rating: Option<u32>,
    pub recommend: Option<bool>,
    pub content: Option<Text>,
    pub cover_rating: Option<u32>,
    pub cover_text: Option<Text>,
    pub typesetting_rating: Option<u32>,
    pub typesetting_text: Option<Text>,
    pub material_rating: Option<u32>,
    pub material_text: Option<Text>,
    pub price_rating: Option<u32>,
    pub price_text: Option<Text>,
}

impl EditionReview {
    /// A new review of `edition`, created now, with a rating and
    /// recommendation only.
    pub fn created(
        id: Uuid,
        edition: &Edition,
        rating: Option<u32>,
        recommend: Option<bool>,
        now: Timestamp,
    ) -> (r: EditionReview)
        ensures
            r.id == id,
            r.edition_id == edition.id,
            r.rating == rating,
            r.recommend == recommend,
            r.content is None,
            r.cover_rating is None,
            r.cover_text is None,
            r.typesetting_rating is None,
            r.typesetting_text is None,
            r.material_rating is None,
            r.material_text is None,
            r.price_rating is None,
            r.price_text is None,
            r.timestamp_created == now,
            r.timestamp_updated == now,
            !r.deleted,
            r.book_title@ == edition.book_title@,
    {
        EditionReview {
            id,
            edition_id: edition.id,
            rating,
            recommend,
            content: None,
            cover_rating: None,
            cover_text: None,
            typesetting_rating: None,
            typesetting_text: None,
            material_rating: None,
            material_text: None,
            price_rating: None,
            price_text: None,
            timestamp_created: now,
            timestamp_updated: now,
            deleted: false,
            book_title: edition.book_title.clone(),
        }
    }

    /// The review with the answers given when editing it: every rating and
    /// text is replaced, the title follows the edition, and the review counts
    /// as updated now.
    pub fn updated(self, answers: EditionReviewAnswers, book_title: Text, now: Timestamp) -> (r:
        EditionReview)
        ensures
            r.id == self.id,
            r.edition_id == self.edition_id,
            r.rating == answers.rating,
            r.recommend == answers.recommend,
            r.content == answers.content,
            r.cover_rating == answers.cover_rating,
            r.cover_text == answers.cover_text,
            r.typesetting_rating == answers.typesetting_rating,
            r.typesetting_text == answers.typesetting_text,
            r.material_rating == answers.material_rating,
            r.material_text == answers.material_text,
            r.price_rating == answers.price_rating,
            r.price_text == answers.price_text,
            r.timestamp_created == self.timestamp_created,
            r.timestamp_updated == now,
            r.deleted == self.deleted,
            r.book_title == book_title,
    {
        EditionReview {
            id: self.id,
            edition_id: self.edition_id,
            rating: answers.rating,
            recommend: answers.recommend,
            content: answers.content,
            cover_rating: answers.cover_rating,
            cover_text: answers.cover_text,
            typesetting_rating: answers.typesetting_rating,
            typesetting_text: answers.typesetting_text,
            material_rating: answers.material_rating,
            material_text: answers.material_text,
            price_rating: answers.price_rating,
            price_text: answers.price_text,
            timestamp_created: self.timestamp_created,
            timestamp_updated: now,
            deleted: self.deleted,
            book_title,
        }
    }
}

impl Progress {
    /// A new progress update for an edition.
    pub fn created(
        id: Uuid,
        edition_id: Uuid,
        timestamp: Timestamp,
        pages_progress: PagesProgress,
    ) -> (r: Progress)
        ensures
            r == (Progress { id, edition_id, timestamp, pages_progress, deleted: false }),
    {
        Progress { id, edition_id, timestamp, pages_progress, deleted: false }
    }

    /// The progress update with a new moment and progress.
    pub fn updated(&self, timestamp: Timestamp, pages_progress: PagesProgress) -> (r: Progress)
        ensures
            r == (Progress { timestamp, pages_progress, ..*self }),
    {
        Progress { timestamp, pages_progress, ..*self }
    }
}

impl Author {
    /// A new ordinary author, with a name if one was given and no dates.
    pub fn created(id: Uuid, name: Option<Text>) -> (r: Author)
        ensures
            r.id == id,
            r.name == name,
            r.date_born@ is None,
            r.date_died@ is None,
            !r.deleted,
            !r.special,
    {
        Author {
            id,
            name,
            date_born: OptionalTimestamp(None),
            date_died: OptionalTimestamp(None),
            deleted: false,
            special: false,
        }
    }

    /// The author with a new name and dates; special authors cannot be
    /// updated.
    pub fn updated(
        self,
        name: Option<Text>,
        date_born: Option<Timestamp>,
        date_died: Option<Timestamp>,
    ) -> (r: Result<Author, AuthorError>)
        ensures
            self.special ==> (r matches Err(e) && e == AuthorError::UpdateSpecial),
            !self.special ==> (r matches Ok(a) && a.id == self.id && a.name == name
                && a.date_born == OptionalTimestamp(date_born) && a.date_died == OptionalTimestamp(
                date_died,
            ) && a.deleted == self.deleted && !a.special),
    {
        if self.special {
            return Err(AuthorError::UpdateSpecial);
        }
        Ok(
            Author {
                id: self.id,
                name,
                date_born: OptionalTimestamp(date_born),
                date_died: OptionalTimestamp(date_died),
                deleted: self.deleted,
                special: false,
            },
        )
    }
}

impl Book {
    /// A new book with a title, the author chosen (if any) and the genres
    /// chosen (none when the selection was empty), not yet released.
    pub fn created(id: Uuid, title: Text, author: Option<Author>, genres: Option<Vec<Genre>>) -> (r:
        Book)
        ensures
            r.id == id,
            r.title == title,
            match author {
                Some(a) => r.authors matches Some(v) && v@ == seq![a],
                None => r.authors is None,
            },
            r.release_date@ is None,
            r.editions is None,
            r.reviews is None,
            match genres {
                Some(g) => if g.len() == 0 {
                    r.genres is None
                } else {
                    r.genres == Some(g)
                },
                None => r.genres is None,
            },
            !r.deleted,
    {
        let authors = match author {
            Some(a) => {
                let mut v: Vec<Author> = Vec::new();
                v.push(a);
                proof {
                    assert(v@ =~= seq![a]);
                }
                Some(v)
            },
            None => None,
        };
        Book {
            id,
            title,
            authors,
            release_date: OptionalTimestamp(None),
            editions: None,
            reviews: None,
            genres: none_if_empty(genres),
            deleted: false,
        }
    }

    /// The book with a new title, release date and genres (none when the
    /// selection was empty); the rest is kept.
    pub fn updated(self, title: Text, release_date: OptionalTimestamp, genres: Option<Vec<Genre>>) -> (r:
        Book)
        ensures
            r.id == self.id,
            r.title == title,
            r.authors == self.authors,
            r.release_date == release_date,
            r.editions == self.editions,
            r.reviews == self.reviews,
            match genres {
                Some(g) => if g.len() == 0 {
                    r.genres is None
                } else {
                    r.genres == Some(g)
                },
                None => r.genres is None,
            },
            r.deleted == self.deleted,
    {
        Book {
            id: self.id,
            title,
            authors: self.authors,
            release_date,
            editions: self.editions,
            reviews: self.reviews,
            genres: none_if_empty(genres),
            deleted: self.deleted,
        }
    }
}

impl Edition {
    /// A new edition of `book` from the answers given: titles, ISBN, pages
    /// and format; nothing else is known yet.
    pub fn created(
        id: Uuid,
        book: &Book,
        edition_title: Option<Text>,
        edition_description: Option<Text>,
        isbn: Option<Text>,
        pages: Option<u32>,
        format: Option<EditionFormat>,
    ) -> (r: Edition)
        ensures
            r.id == id,
            r.book_id == book.id,
            r.edition_title == edition_title,
            r.edition_description == edition_description,
            r.isbn == isbn,
            r.pages == pages,
            r.languages is None,
            r.release_date@ is None,
            r.format_id == (match format {
                Some(f) => Some(f.id),
                None => None::<Uuid>,
            }),
            r.format == format,
            r.height is None,
            r.width is None,
            r.thickness is None,
            r.weight is None,
            r.binding_id is None,
            r.binding is None,
            r.publishers is None,
            r.cover is None,
            r.reviews is None,
            r.progress is None,
            !r.deleted,
            r.book_title@ == book.title@,
    {
        let format_id = match &format {
            Some(f) => Some(f.id),
            None => None,
        };
        Edition {
            id,
            book_id: book.id,
            edition_title,
            edition_description,
            isbn,
            pages,
            languages: None,
            release_date: OptionalTimestamp(None),
            format_id,
            format,
            height: None,
            width: None,
            thickness: None,
            weight: None,
            binding_id: None,
            binding: None,
            publishers: None,
            cover: None,
            reviews: None,
            progress: None,
            deleted: false,
            book_title: book.title.clone(),
        }
    }

    /// The edition with the answers given when editing it: a format or
    /// binding is kept when none was chosen, and the title follows the book.
    pub fn updated(
        self,
        edition_title: Option<Text>,
        edition_description: Option<Text>,
        isbn: Option<Text>,
        languages: Option<Vec<Language>>,
        publishers: Option<Vec<Publisher>>,
        format: Option<EditionFormat>,
        binding: Option<Binding>,
        book_title: Text,
    ) -> (r: Edition)
        ensures
            r.id == self.id,
            r.book_id == self.book_id,
            r.edition_title == edition_title,
            r.edition_description == edition_description,
            r.isbn == isbn,
            r.pages == self.pages,
            r.languages == languages,
            r.release_date == self.release_date,
            r.format == (match format {
                Some(f) => Some(f),
                None => self.format,
            }),
            r.format_id == (match r.format {
                Some(f) => Some(f.id),
                None => None::<Uuid>,
            }),
            r.height == self.height,
            r.width == self.width,
            r.thickness == self.thickness,
            r.weight == self.weight,
            r.binding == (match binding {
                Some(b) => Some(b),
                None => self.binding,
            }),
            r.binding_id == (match r.binding {
                Some(b) => Some(b.id),
                None => None::<Uuid>,
            }),
            r.publishers == publishers,
            r.cover == self.cover,
            r.reviews == self.reviews,
            r.progress == self.progress,
            r.deleted == self.deleted,
            r.book_title == book_title,
    {
        let format = match format {
            Some(f) => Some(f),
            None => self.format,
        };
        let format_id = match &format {
            Some(f) => Some(f.id),
            None => None,
        };
        let binding = match binding {
            Some(b) => Some(b),
            None => self.binding,
        };
        let binding_id = match &binding {
            Some(b) => Some(b.id),
            None => None,
        };
        Edition {
            id: self.id,
            book_id: self.book_id,
            edition_title,
            edition_description,
            isbn,
            pages: self.pages,
            languages,
            release_date: self.release_date,
            format_id,
            format,
            height: self.height,
            width: self.width,
            thickness: self.thickness,
            weight: self.weight,
            binding_id,
            binding,
            publishers,
            cover: self.cover,
            reviews: self.reviews,
            progress: self.progress,
            deleted: self.deleted,
            book_title,
        }
    }
}

impl Mood {
    /// A new mood with a name.
    pub fn created(id: Uuid, name: Text) -> (r: Mood)
        ensures
            r@ == (id.0, name@, false),
    {
        Mood { id, name, deleted: false }
    }

    /// The mood with a new name; the rest is kept.
    pub fn renamed(self, name: Text) -> (r: Mood)
        ensures
            r@ == (self.id.0, name@, self.deleted),
    {
        Mood { name, ..self }
    }
}

impl Pace {
    /// A new pace with a name.
    pub fn created(id: Uuid, name: Text) -> (r: Pace)
        ensures
            r@ == (id.0, name@, false),
    {
        Pace { id, name, deleted: false }
    }

    /// The edited pace: the new name, the nil identifier (the record is
    /// stored under its old identifier), the deletion mark kept.
    pub fn renamed(self, name: Text) -> (r: Pace)
        ensures
            r@ == (0u128, name@, self.deleted),
    {
        Pace { id: Uuid(0), name, deleted: self.deleted }
    }
}

impl Genre {
    /// A new genre with a name.
    pub fn created(id: Uuid, name: Text) -> (r: Genre)
        ensures
            r@ == (id.0, name@, false),
    {
        Genre { id, name, deleted: false }
    }

    /// The edited genre: the new name, the nil identifier (the record is
    /// stored under its old identifier), the deletion mark kept.
    pub fn renamed(self, name: Text) -> (r: Genre)
        ensures
            r@ == (0u128, name@, self.deleted),
    {
        Genre { id: Uuid(0), name, deleted: self.deleted }
    }
}

impl Language {
    /// A new language with a name.
    pub fn created(id: Uuid, name: Text) -> (r: Language)
        ensures
            r@ == (id.0, name@, false),
    {
        Language { id, name, deleted: false }
    }

    /// The edited language: the new name, the nil identifier (the record is
    /// stored under its old identifier), the deletion mark kept.
    pub fn renamed(self, name: Text) -> (r: Language)
        ensures
            r@ == (0u128, name@, self.deleted),
    {
        Language { id: Uuid(0), name, deleted: self.deleted }
    }
}

impl Publisher {
    /// A new publisher with a name.
    pub fn created(id: Uuid, name: Text) -> (r: Publisher)
        ensures
            r@ == (id.0, name@, false),
    {
        Publisher { id, name, deleted: false }
    }

    /// The edited publisher: the new name, the nil identifier (the record is
    /// stored under its old identifier), the deletion mark kept.
    pub fn renamed(self, name: Text) -> (r: Publisher)
        ensures
            r@ == (0u128, name@, self.deleted),
    {
        Publisher { id: Uuid(0), name, deleted: self.deleted }
    }
}

impl Binding {
    /// A new binding with a name.
    pub fn created(id: Uuid, name: Text) -> (r: Binding)
        ensures
            r@ == (id.0, name@, false),
    {
        Binding { id, name, deleted: false }
    }

    /// The edited binding: the new name, the nil identifier (the record is
    /// stored under its old identifier), the deletion mark kept.
    pub fn renamed(self, name: Text) -> (r: Binding)
        ensures
            r@ == (0u128, name@, self.deleted),
    {
        Binding { id: Uuid(0), name, deleted: self.deleted }
    }
}

impl EditionFormat {
    /// A new format with a name.
    pub fn created(id: Uuid, name: Text) -> (r: EditionFormat)
        ensures
            r@ == (id.0, name@, false),
    {
        EditionFormat { id, name, deleted: false }
    }

    /// The edited format: the new name, the nil identifier (the record is
    /// stored under its old identifier), the deletion mark kept.
    pub fn renamed(self, name: Text) -> (r: EditionFormat)
        ensures
            r@ == (0u128, name@, self.deleted),
    {
        EditionFormat { id: Uuid(0), name, deleted: self.deleted }
    }
}

} // verus!
