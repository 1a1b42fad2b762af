use vstd::prelude::*;
use vstd::string::StringExecFns;

use crate::ids::{uuid_hyphenated, Id, Uuid};
use crate::junction::{
    BookAuthor, BookGenre, EditionLanguage, EditionPublisher, Link, ReviewMood,
};
use crate::names::{singular_name, RecordKind};
use crate::progress::{strip_keys, unkeyed, Progress};
use crate::records::{
    Author, Binding, Book, Edition, EditionFormat, EditionReview, Genre, Language, Mood, Pace,
    Publisher, Review,
};
use crate::sort::{
    key_equiv, keys_ordered, lemma_stable_sorted_is_sorted_permutation, lemma_stable_sorted_keeps_order,
    stable_sort_by_key, stable_sorted,
};

verus! {

/// The entire contents of the database, as written to and read from a backup.
pub struct State {
    pub moods: Vec<Mood>,
    pub paces: Vec<Pace>,
    pub genres: Vec<Genre>,
    pub languages: Vec<Language>,
    pub publishers: Vec<Publisher>,
    pub books: Vec<Book>,
    pub editions: Vec<Edition>,
    pub authors: Vec<Author>,
    pub reviews: Vec<Review>,
    pub edition_reviews: Vec<EditionReview>,
    pub progress: Vec<Progress>,
    pub bindings: Vec<Binding>,
    pub edition_formats: Vec<EditionFormat>,
    pub book_authors: Vec<BookAuthor>,
    pub book_genres: Vec<BookGenre>,
    pub edition_languages: Vec<EditionLanguage>,
    pub edition_publishers: Vec<EditionPublisher>,
    pub review_moods: Vec<ReviewMood>,
}

/// Records paired with their identifier.
pub open spec fn keyed_by_id<T: Id>(s: Seq<T>) -> Seq<(u128, T)> {
    s.map_values(|x: T| (x.id_view(), x))
}

/// Links paired with the identifier of their first record.
pub open spec fn keyed_by_first<L: Link>(s: Seq<L>) -> Seq<(u128, L)> {
    s.map_values(|x: L| (x.a_view(), x))
}

/// The records in stable order of identifier.
pub open spec fn sorted_by_id<T: Id>(s: Seq<T>) -> Seq<T> {
    unkeyed(stable_sorted(keyed_by_id(s)))
}

/// The links in stable order of the identifier of their first record.
pub open spec fn sorted_by_first<L: Link>(s: Seq<L>) -> Seq<L> {
    unkeyed(stable_sorted(keyed_by_first(s)))
}

/// Dropping the keys commutes with keeping the elements of one key, when each
/// element's key says whether `g` keeps it.
proof fn lemma_unkeyed_filter<T>(ks: Seq<(u128, T)>, k: u128, g: spec_fn(T) -> bool)
    requires
        forall|i: int| 0 <= i < ks.len() ==> g(#[trigger] ks[i].1) == (ks[i].0 == k),
    ensures
        unkeyed(ks).filter(g) == unkeyed(ks.filter(key_equiv(k))),
    decreases ks.len(),
{
    reveal(Seq::filter);
    if ks.len() > 0 {
        let k2 = ks.drop_last();
        lemma_unkeyed_filter(k2, k, g);
        assert(unkeyed(ks).drop_last() =~= unkeyed(k2));
        assert(g(ks[ks.len() - 1].1) == (ks.last().0 == k));
        let f = key_equiv::<u128, T>(k);
        if f(ks.last()) {
            assert(unkeyed(k2.filter(f).push(ks.last())) =~= unkeyed(k2.filter(f)).push(ks.last().1));
        }
    }
}

/// Every element of the stable sort of `ks` is an element of `ks`.
proof fn lemma_sorted_elements<T>(ks: Seq<(u128, T)>, i: int)
    requires
        0 <= i < stable_sorted(ks).len(),
    ensures
        exists|j: int| 0 <= j < ks.len() && #[trigger] ks[j] == stable_sorted(ks)[i],
{
    lemma_stable_sorted_is_sorted_permutation(ks);
    let x = stable_sorted(ks)[i];
    assert(stable_sorted(ks).to_multiset().count(x) > 0) by {
        broadcast use vstd::seq_lib::group_to_multiset_ensures;
        assert(stable_sorted(ks).contains(x));
    }
    assert(ks.contains(x)) by {
        broadcast use vstd::seq_lib::group_to_multiset_ensures;
    }
}

/// Sorting records by identifier orders them by identifier and keeps the
/// records that share an identifier in the order they came in.
pub proof fn lemma_sorted_by_id_is_stable<T: Id>(s: Seq<T>, id: u128)
    ensures
        forall|i: int, j: int|
            0 <= i < j < sorted_by_id(s).len() ==> (#[trigger] sorted_by_id(s)[i]).id_view()
                <= (#[trigger] sorted_by_id(s)[j]).id_view(),
        sorted_by_id(s).filter(|x: T| x.id_view() == id) == s.filter(|x: T| x.id_view() == id),
{
    let ks = keyed_by_id(s);
    let ss = stable_sorted(ks);
    let g = |x: T| x.id_view() == id;
    lemma_stable_sorted_is_sorted_permutation(ks);
    lemma_stable_sorted_keeps_order(ks, id);
    assert forall|i: int| 0 <= i < ss.len() implies g(#[trigger] ss[i].1) == (ss[i].0 == id) by {
        lemma_sorted_elements(ks, i);
    }
    lemma_unkeyed_filter(ss, id, g);
    lemma_unkeyed_filter(ks, id, g);
    assert(unkeyed(ks) =~= s);
    assert forall|i: int, j: int| 0 <= i < j < sorted_by_id(s).len() implies (
    #[trigger] sorted_by_id(s)[i]).id_view() <= (#[trigger] sorted_by_id(s)[j]).id_view() by {
        lemma_sorted_elements(ks, i);
        lemma_sorted_elements(ks, j);
        assert(ss[i].0 <= ss[j].0);
    }
}

/// Sorting links by their first record orders them by that record and keeps
/// the links of one first record in the order they came in.
pub proof fn lemma_sorted_by_first_is_stable<L: Link>(s: Seq<L>, id: u128)
    ensures
        forall|i: int, j: int|
            0 <= i < j < sorted_by_first(s).len() ==> (#[trigger] sorted_by_first(s)[i]).a_view()
                <= (#[trigger] sorted_by_first(s)[j]).a_view(),
        sorted_by_first(s).filter(|x: L| x.a_view() == id) == s.filter(|x: L| x.a_view() == id),
{
    let ks = keyed_by_first(s);
    let ss = stable_sorted(ks);
    let g = |x: L| x.a_view() == id;
    lemma_stable_sorted_is_sorted_permutation(ks);
    lemma_stable_sorted_keeps_order(ks, id);
    assert forall|i: int| 0 <= i < ss.len() implies g(#[trigger] ss[i].1) == (ss[i].0 == id) by {
        lemma_sorted_elements(ks, i);
    }
    lemma_unkeyed_filter(ss, id, g);
    lemma_unkeyed_filter(ks, id, g);
    assert(unkeyed(ks) =~= s);
    assert forall|i: int, j: int| 0 <= i < j < sorted_by_first(s).len() implies (
    #[trigger] sorted_by_first(s)[i]).a_view() <= (#[trigger] sorted_by_first(s)[j]).a_view() by {
        lemma_sorted_elements(ks, i);
        lemma_sorted_elements(ks, j);
        assert(ss[i].0 <= ss[j].0);
    }
}

/// Orders records by identifier; records with the same identifier keep
/// their order.
pub fn sort_by_id<T: Id>(v: Vec<T>) -> (r: Vec<T>)
    ensures
        r@ == sorted_by_id(v@),
{
    let mut input = v;
    let ghost given = input@;
    let mut keyed: Vec<(u128, T)> = Vec::new();
    while input.len() > 0
        invariant
            keyed.len() + input.len() == given.len(),
            input@ == given.skip(keyed.len() as int),
            keyed@ == keyed_by_id(given.take(keyed.len() as int)),
        decreases input.len(),
    {
        let ghost k = keyed.len();
        let x = input.remove(0);
        let id = x.id();
        keyed.push((id.0, x));
        proof {
            assert(input@ =~= given.skip(k + 1));
            assert(keyed_by_id(given.take(k + 1)) =~= keyed_by_id(given.take(k as int)).push(
                (given[k as int].id_view(), given[k as int]),
            ));
        }
    }
    proof {
        assert(given.take(given.len() as int) =~= given);
    }
    strip_keys(stable_sort_by_key(keyed))
}

/// Orders links by the identifier of their first record; links with the same
/// first record keep their order.
pub fn sort_by_first<L: Link>(v: Vec<L>) -> (r: Vec<L>)
    ensures
        r@ == sorted_by_first(v@),
{
    let mut input = v;
    let ghost given = input@;
    let mut keyed: Vec<(u128, L)> = Vec::new();
    while input.len() > 0
        invariant
            keyed.len() + input.len() == given.len(),
            input@ == given.skip(keyed.len() as int),
            keyed@ == keyed_by_first(given.take(keyed.len() as int)),
        decreases input.len(),
    {
        let ghost k = keyed.len();
        let x = input.remove(0);
        let id = x.get_id_a();
        keyed.push((id.0, x));
        proof {
            assert(input@ =~= given.skip(k + 1));
            assert(keyed_by_first(given.take(k + 1)) =~= keyed_by_first(
                given.take(k as int),
            ).push((given[k as int].a_view(), given[k as int])));
        }
    }
    proof {
        assert(given.take(given.len() as int) =~= given);
    }
    strip_keys(stable_sort_by_key(keyed))
}

/// Whether the database holds nothing but the data a new database starts
/// with: no books, editions, reviews, edition reviews or progress updates,
/// and only the one default author.
pub open spec fn fresh_counts(
    books: nat,
    editions: nat,
    authors: nat,
    reviews: nat,
    edition_reviews: nat,
    progress: nat,
) -> bool {
    books == 0 && editions == 0 && authors == 1 && reviews == 0 && edition_reviews == 0 && progress
        == 0
}

/// A database counts as fresh exactly when it has no books, editions,
/// reviews, edition reviews or progress updates and exactly one author, the
/// default one: a second author, or none, means it holds data.
pub proof fn lemma_fresh_means_only_the_default_author(
    books: nat,
    editions: nat,
    authors: nat,
    reviews: nat,
    edition_reviews: nat,
    progress: nat,
)
    ensures
        fresh_counts(books, editions, authors, reviews, edition_reviews, progress) <==> (books == 0
            && editions == 0 && authors == 1 && reviews == 0 && edition_reviews == 0 && progress
            == 0),
        authors != 1 ==> !fresh_counts(books, editions, authors, reviews, edition_reviews, progress),
        authors == 2 ==> !fresh_counts(0, 0, authors, 0, 0, 0),
{
}

/// Why a backup cannot be restored.
#[derive(Debug)]
pub enum RestoreError {
    /// The database already holds data.
    NotFresh,
    /// A link refers to a record that the backup does not hold.
    Missing { kind: RecordKind, id: Uuid },
}

impl RestoreError {
    /// The message reported for the error.
    pub fn message(&self) -> (s: String)
        ensures
            self is NotFresh ==> s@ == "Database seems to hold data, refusing to overwrite."@,
            self matches RestoreError::Missing { kind, id } ==> s@
                == "Inconsistency in database, couldn't find "@ + singular_name(*kind)
                + " with id "@ + uuid_hyphenated(id.0),
    {
        match self {
            RestoreError::NotFresh => "Database seems to hold data, refusing to overwrite.".to_string(),
            RestoreError::Missing { kind, id } => {
                let mut s = "Inconsistency in database, couldn't find ".to_string();
                s.append(kind.name_singular());
                s.append(" with id ");
                let t = id.to_string();
                s.append(t.as_str());
                s
            },
        }
    }
}

impl State {
    /// Orders every table: records by identifier, links by the identifier of
    /// their first record, keeping the order of equal keys.
    pub fn sort(&mut self)
        ensures
            final(self).moods@ == sorted_by_id(old(self).moods@),
            final(self).paces@ == sorted_by_id(old(self).paces@),
            final(self).genres@ == sorted_by_id(old(self).genres@),
            final(self).languages@ == sorted_by_id(old(self).languages@),
            final(self).publishers@ == sorted_by_id(old(self).publishers@),
            final(self).books@ == sorted_by_id(old(self).books@),
            final(self).editions@ == sorted_by_id(old(self).editions@),
            final(self).authors@ == sorted_by_id(old(self).authors@),
            final(self).reviews@ == sorted_by_id(old(self).reviews@),
            final(self).edition_reviews@ == sorted_by_id(old(self).edition_reviews@),
            final(self).progress@ == sorted_by_id(old(self).progress@),
            final(self).bindings@ == sorted_by_id(old(self).bindings@),
            final(self).edition_formats@ == sorted_by_id(old(self).edition_formats@),
            final(self).book_authors@ == sorted_by_first(old(self).book_authors@),
            final(self).book_genres@ == sorted_by_first(old(self).book_genres@),
            final(self).edition_languages@ == sorted_by_first(old(self).edition_languages@),
            final(self).edition_publishers@ == sorted_by_first(old(self).edition_publishers@),
            final(self).review_moods@ == sorted_by_first(old(self).review_moods@),
    {
        let mut t = Vec::new();
        std::mem::swap(&mut t, &mut self.moods);
        self.moods = sort_by_id(t);
        let mut t = Vec::new();
        std::mem::swap(&mut t, &mut self.paces);
        self.paces = sort_by_id(t);
        let mut t = Vec::new();
        std::mem::swap(&mut t, &mut self.genres);
        self.genres = sort_by_id(t);
        let mut t = Vec::new();
        std::mem::swap(&mut t, &mut self.languages);
        self.languages = sort_by_id(t);
        let mut t = Vec::new();
        std::mem::swap(&mut t, &mut self.publishers);
        self.publishers = sort_by_id(t);
        let mut t = Vec::new();
        std::mem::swap(&mut t, &mut self.books);
        self.books = sort_by_id(t);
        let mut t = Vec::new();
        std::mem::swap(&mut t, &mut self.editions);
        self.editions = sort_by_id(t);
        let mut t = Vec::new();
        std::mem::swap(&mut t, &mut self.authors);
        self.authors = sort_by_id(t);
        let mut t = Vec::new();
        std::mem::swap(&mut t, &mut self.reviews);
        self.reviews = sort_by_id(t);
        let mut t = Vec::new();
        std::mem::swap(&mut t, &mut self.edition_reviews);
        self.edition_reviews = sort_by_id(t);
        let mut t = Vec::new();
        std::mem::swap(&mut t, &mut self.progress);
        self.progress = sort_by_id(t);
        let mut t = Vec::new();
        std::mem::swap(&mut t, &mut self.bindings);
        self.bindings = sort_by_id(t);
        let mut t = Vec::new();
        std::mem::swap(&mut t, &mut self.edition_formats);
        self.edition_formats = sort_by_id(t);
        let mut t = Vec::new();
        std::mem::swap(&mut t, &mut self.book_authors);
        self.book_authors = sort_by_first(t);
        let mut t = Vec::new();
        std::mem::swap(&mut t, &mut self.book_genres);
        self.book_genres = sort_by_first(t);
        let mut t = Vec::new();
        std::mem::swap(&mut t, &mut self.edition_languages);
        self.edition_languages = sort_by_first(t);
        let mut t = Vec::new();
        std::mem::swap(&mut t, &mut self.edition_publishers);
        self.edition_publishers = sort_by_first(t);
        let mut t = Vec::new();
        std::mem::swap(&mut t, &mut self.review_moods);
        self.review_moods = sort_by_first(t);
    }

    /// Whether the state is that of a database that has just been created
    /// (a guess from the number of books, editions, authors, reviews, edition
    /// reviews and progress updates).
    pub fn is_fresh(&self) -> (r: bool)
        ensures
            r == fresh_counts(
                self.books.len() as nat,
                self.editions.len() as nat,
                self.authors.len() as nat,
                self.reviews.len() as nat,
                self.edition_reviews.len() as nat,
                self.progress.len() as nat,
            ),
            r ==> self.authors.len() == 1,
            r <==> (self.books.len() == 0 && self.editions.len() == 0 && self.authors.len() == 1
                && self.reviews.len() == 0 && self.edition_reviews.len() == 0
                && self.progress.len() == 0),
    {
        self.books.len() == 0 && self.editions.len() == 0 && self.authors.len() == 1
            && self.reviews.len() == 0 && self.edition_reviews.len() == 0 && self.progress.len()
            == 0
    }

    /// A backup may only be restored into a database that is still fresh.
    pub fn check_restorable_into(current: &State) -> (r: Result<(), RestoreError>)
        ensures
            r is Ok <==> fresh_counts(
                current.books.len() as nat,
                current.editions.len() as nat,
                current.authors.len() as nat,
                current.reviews.len() as nat,
                current.edition_reviews.len() as nat,
                current.progress.len() as nat,
            ),
            r matches Err(e) ==> e is NotFresh,
            current.authors.len() != 1 ==> r == Err::<(), RestoreError>(RestoreError::NotFresh),
            current.books.len() != 0 ==> r == Err::<(), RestoreError>(RestoreError::NotFresh),
            r is Ok <==> (current.books.len() == 0 && current.editions.len() == 0
                && current.authors.len() == 1 && current.reviews.len() == 0
                && current.edition_reviews.len() == 0 && current.progress.len() == 0),
    {
        if current.is_fresh() {
            Ok(())
        } else {
            Err(RestoreError::NotFresh)
        }
    }
}

/// Whether `id` is among the identifiers `ids`.
pub open spec fn has_id(ids: Seq<Uuid>, id: u128) -> bool {
    exists|j: int| 0 <= j < ids.len() && #[trigger] ids[j].0 == id
}

/// Positions, in increasing order, of the records whose identifier is not
/// among `existing`: the records a restore still has to insert.
pub fn ids_to_insert<T: Id>(records: &Vec<T>, existing: &Vec<Uuid>) -> (idx: Vec<usize>)
    ensures
        forall|a: int, b: int| 0 <= a < b < idx.len() ==> idx@[a] < idx@[b],
        forall|a: int|
            0 <= a < idx.len() ==> #[trigger] idx@[a] < records.len() && !has_id(
                existing@,
                records@[idx@[a] as int].id_view(),
            ),
        forall|k: int|
            0 <= k < records.len() && !has_id(existing@, #[trigger] records@[k].id_view())
                ==> idx@.contains(k as usize),
{
    let mut idx: Vec<usize> = Vec::new();
    let mut i: usize = 0;
    while i < records.len()
        invariant
            i <= records.len(),
            forall|a: int, b: int| 0 <= a < b < idx.len() ==> idx@[a] < idx@[b],
            forall|a: int|
                0 <= a < idx.len() ==> #[trigger] idx@[a] < i && !has_id(
                    existing@,
                    records@[idx@[a] as int].id_view(),
                ),
            forall|k: int|
                0 <= k < i && !has_id(existing@, #[trigger] records@[k].id_view())
                    ==> idx@.contains(k as usize),
        decreases records.len() - i,
    {
        let id = records[i].id();
        let mut found = false;
        let mut j: usize = 0;
        while j < existing.len()
            invariant
                j <= existing.len(),
                found == has_id(existing@.take(j as int), id.0),
            decreases existing.len() - j,
        {
            proof {
                assert(existing@.take(j + 1) =~= existing@.take(j as int).push(existing@[j as int]));
                if has_id(existing@.take(j + 1), id.0) && !has_id(existing@.take(j as int), id.0) {
                    let w = choose|w: int|
                        0 <= w < j + 1 && #[trigger] existing@.take(j + 1)[w].0 == id.0;
                    assert(w == j);
                }
                if has_id(existing@.take(j as int), id.0) {
                    let w = choose|w: int|
                        0 <= w < j && #[trigger] existing@.take(j as int)[w].0 == id.0;
                    assert(existing@.take(j + 1)[w].0 == id.0);
                }
            }
            if existing[j].0 == id.0 {
                found = true;
                assert(existing@.take(j + 1)[j as int].0 == id.0);
            }
            j = j + 1;
        }
        proof {
            assert(existing@.take(existing.len() as int) =~= existing@);
        }
        let ghost before = idx@;
        if !found {
            idx.push(i);
        }
        assert forall|k: int|
            0 <= k < i + 1 && !has_id(existing@, #[trigger] records@[k].id_view()) implies idx@.contains(
            k as usize,
        ) by {
            if k == i as int {
                assert(idx@[idx.len() - 1] == i);
            } else {
                let m = choose|m: int| 0 <= m < before.len() && before[m] == k as usize;
                assert(idx@[m] == k as usize);
            }
        }
        i = i + 1;
    }
    idx
}

/// Position of the first record of `s` with identifier `id`.
pub open spec fn first_with_id<T: Id>(s: Seq<T>, id: u128) -> Option<int>
    decreases s.len(),
{
    if s.len() == 0 {
        None
    } else if s[0].id_view() == id {
        Some(0)
    } else {
        match first_with_id(s.drop_first(), id) {
            Some(i) => Some(i + 1),
            None => None,
        }
    }
}

/// The first record with a given identifier is the first one found scanning
/// from the front.
proof fn lemma_first_with_id<T: Id>(s: Seq<T>, id: u128, j: int)
    requires
        0 <= j <= s.len(),
        forall|k: int| 0 <= k < j ==> (#[trigger] s[k]).id_view() != id,
    ensures
        j < s.len() && s[j].id_view() == id ==> first_with_id(s, id) == Some(j),
        j == s.len() ==> first_with_id(s, id) is None,
    decreases j,
{
    if j > 0 {
        let t = s.drop_first();
        assert forall|k: int| 0 <= k < j - 1 implies (#[trigger] t[k]).id_view() != id by {
            assert(t[k] == s[k + 1]);
        }
        lemma_first_with_id(t, id, j - 1);
    } else if s.len() > 0 {
        if j < s.len() && s[j].id_view() == id {
        }
    }
}

/// Finds the first record with identifier `id`.
pub fn find_first_with_id<T: Id>(s: &Vec<T>, id: Uuid) -> (r: Option<usize>)
    ensures
        r matches Some(i) ==> first_with_id(s@, id.0) == Some(i as int),
        r is None ==> first_with_id(s@, id.0) is None,
{
    let mut j: usize = 0;
    while j < s.len()
        invariant
            j <= s.len(),
            forall|k: int| 0 <= k < j ==> (#[trigger] s@[k]).id_view() != id.0,
        decreases s.len() - j,
    {
        if s[j].id().0 == id.0 {
            proof {
                lemma_first_with_id(s@, id.0, j as int);
            }
            return Some(j);
        }
        j = j + 1;
    }
    proof {
        lemma_first_with_id(s@, id.0, j as int);
    }
    None
}

/// Whether the junction table already links `a` and `b`.
pub open spec fn pair_present(existing: Seq<(Uuid, Uuid)>, a: u128, b: u128) -> bool {
    exists|j: int| 0 <= j < existing.len() && (#[trigger] existing[j]).0.0 == a && existing[j].1.0 == b
}

/// What restoring the links of a junction table does, link by link: links
/// already in the table are skipped; for the others the first record with the
/// first identifier and the first record with the second identifier are looked
/// up and linked. The first lookup that fails stops the restore with an error
/// naming the missing kind and identifier; links before it are still inserted.
pub open spec fn restore_steps<L: Link, A: Id, B: Id>(
    links: Seq<L>,
    existing: Seq<(Uuid, Uuid)>,
    a_records: Seq<A>,
    b_records: Seq<B>,
    a_kind: RecordKind,
    b_kind: RecordKind,
) -> (Seq<(int, int)>, Option<(RecordKind, u128)>)
    decreases links.len(),
{
    if links.len() == 0 {
        (Seq::empty(), None)
    } else {
        let l = links[0];
        let rest = restore_steps(links.drop_first(), existing, a_records, b_records, a_kind, b_kind);
        if pair_present(existing, l.a_view(), l.b_view()) {
            rest
        } else {
            match first_with_id(a_records, l.a_view()) {
                None => (Seq::empty(), Some((a_kind, l.a_view()))),
                Some(ia) => match first_with_id(b_records, l.b_view()) {
                    None => (Seq::empty(), Some((b_kind, l.b_view()))),
                    Some(ib) => (seq![(ia, ib)] + rest.0, rest.1),
                },
            }
        }
    }
}

/// The link `l` is restorable: it is already in the table, or both of its
/// records are in the backup.
pub open spec fn link_resolvable<L: Link, A: Id, B: Id>(
    l: L,
    existing: Seq<(Uuid, Uuid)>,
    a_records: Seq<A>,
    b_records: Seq<B>,
) -> bool {
    pair_present(existing, l.a_view(), l.b_view()) || (first_with_id(a_records, l.a_view()) is Some
        && first_with_id(b_records, l.b_view()) is Some)
}

/// The positions of the records a missing link joins.
pub open spec fn link_positions<L: Link, A: Id, B: Id>(l: L, a_records: Seq<A>, b_records: Seq<B>) -> (
    int,
    int,
) {
    (first_with_id(a_records, l.a_view())->0, first_with_id(b_records, l.b_view())->0)
}

/// When every link of a backup is already in the table or joins records of
/// the backup, restoring the links meets no error, inserts every link that
/// was missing, and inserts nothing else.
pub proof fn lemma_consistent_restore_covers_links<L: Link, A: Id, B: Id>(
    links: Seq<L>,
    existing: Seq<(Uuid, Uuid)>,
    a_records: Seq<A>,
    b_records: Seq<B>,
    a_kind: RecordKind,
    b_kind: RecordKind,
)
    requires
        forall|i: int|
            0 <= i < links.len() ==> link_resolvable(#[trigger] links[i], existing, a_records, b_records),
    ensures
        restore_steps(links, existing, a_records, b_records, a_kind, b_kind).1 is None,
        forall|i: int|
            0 <= i < links.len() && !pair_present(existing, links[i].a_view(), links[i].b_view())
                ==> restore_steps(links, existing, a_records, b_records, a_kind, b_kind).0.contains(
                link_positions(#[trigger] links[i], a_records, b_records),
            ),
        forall|k: int|
            0 <= k < restore_steps(links, existing, a_records, b_records, a_kind, b_kind).0.len()
                ==> exists|i: int|
                0 <= i < links.len() && !pair_present(existing, links[i].a_view(), links[i].b_view())
                    && #[trigger] restore_steps(links, existing, a_records, b_records, a_kind, b_kind).0[k]
                    == link_positions(#[trigger] links[i], a_records, b_records),
    decreases links.len(),
{
    if links.len() > 0 {
        let t = links.drop_first();
        assert forall|i: int| 0 <= i < t.len() implies link_resolvable(#[trigger] t[i], existing, a_records, b_records) by {
            assert(t[i] == links[i + 1]);
        }
        lemma_consistent_restore_covers_links(t, existing, a_records, b_records, a_kind, b_kind);
        let rest = restore_steps(t, existing, a_records, b_records, a_kind, b_kind);
        let all = restore_steps(links, existing, a_records, b_records, a_kind, b_kind);
        let l = links[0];
        assert(link_resolvable(links[0], existing, a_records, b_records));
        assert forall|i: int|
            0 <= i < links.len() && !pair_present(existing, links[i].a_view(), links[i].b_view())
                implies all.0.contains(link_positions(#[trigger] links[i], a_records, b_records)) by {
            if i == 0 {
                assert(all.0[0] == link_positions(l, a_records, b_records));
            } else {
                assert(links[i] == t[i - 1]);
                let k = choose|k: int| 0 <= k < rest.0.len() && rest.0[k] == link_positions(t[i - 1], a_records, b_records);
                if !pair_present(existing, l.a_view(), l.b_view()) {
                    assert(all.0[k + 1] == rest.0[k]);
                } else {
                    assert(all.0[k] == rest.0[k]);
                }
            }
        }
        assert forall|k: int| 0 <= k < all.0.len() implies exists|i: int|
            0 <= i < links.len() && !pair_present(existing, links[i].a_view(), links[i].b_view())
                && #[trigger] all.0[k] == link_positions(#[trigger] links[i], a_records, b_records) by {
            if !pair_present(existing, l.a_view(), l.b_view()) {
                if k == 0 {
                    assert(all.0[0] == link_positions(links[0], a_records, b_records));
                } else {
                    assert(all.0[k] == rest.0[k - 1]);
                    let i = choose|i: int|
                        0 <= i < t.len() && !pair_present(existing, t[i].a_view(), t[i].b_view())
                            && #[trigger] rest.0[k - 1] == link_positions(#[trigger] t[i], a_records, b_records);
                    assert(links[i + 1] == t[i]);
                }
            } else {
                assert(all.0[k] == rest.0[k]);
                let i = choose|i: int|
                    0 <= i < t.len() && !pair_present(existing, t[i].a_view(), t[i].b_view())
                        && #[trigger] rest.0[k] == link_positions(#[trigger] t[i], a_records, b_records);
                assert(links[i + 1] == t[i]);
            }
        }
    }
}

/// The links a restore inserts (positions in the backup's two record tables)
/// and the error that stops it, if any.
pub struct LinkRestore {
    pub inserts: Vec<(usize, usize)>,
    pub error: Option<RestoreError>,
}

/// The positions held by a vector of position pairs, as integers.
pub open spec fn pair_positions(v: Seq<(usize, usize)>) -> Seq<(int, int)> {
    v.map_values(|p: (usize, usize)| (p.0 as int, p.1 as int))
}

/// Whether a link between `a` and `b` is among `existing`.
pub fn has_pair(existing: &Vec<(Uuid, Uuid)>, a: Uuid, b: Uuid) -> (r: bool)
    ensures
        r == pair_present(existing@, a.0, b.0),
{
    let mut j: usize = 0;
    while j < existing.len()
        invariant
            j <= existing.len(),
            forall|k: int| 0 <= k < j ==> !((#[trigger] existing@[k]).0.0 == a.0 && existing@[k].1.0 == b.0),
        decreases existing.len() - j,
    {
        if existing[j].0.0 == a.0 && existing[j].1.0 == b.0 {
            return true;
        }
        j = j + 1;
    }
    false
}

/// Plans the restore of one junction table from a backup: which links to
/// insert, given the links the table already holds, and where the restore
/// stops if a link refers to a record the backup does not hold.
pub fn plan_link_restore<L: Link, A: Id, B: Id>(
    links: &Vec<L>,
    existing: &Vec<(Uuid, Uuid)>,
    a_records: &Vec<A>,
    b_records: &Vec<B>,
    a_kind: RecordKind,
    b_kind: RecordKind,
) -> (r: LinkRestore)
    ensures
        pair_positions(r.inserts@) == restore_steps(
            links@,
            existing@,
            a_records@,
            b_records@,
            a_kind,
            b_kind,
        ).0,
        restore_steps(links@, existing@, a_records@, b_records@, a_kind, b_kind).1 matches Some(
            (k, id),
        ) ==> (r.error matches Some(RestoreError::Missing { kind, id: i }) && kind == k && i.0
            == id),
        restore_steps(links@, existing@, a_records@, b_records@, a_kind, b_kind).1 is None
            ==> r.error is None,
{
    let ghost full = restore_steps(links@, existing@, a_records@, b_records@, a_kind, b_kind);
    let mut inserts: Vec<(usize, usize)> = Vec::new();
    let mut i: usize = 0;
    assert(links@.skip(0) =~= links@);
    while i < links.len()
        invariant
            i <= links.len(),
            full == restore_steps(links@, existing@, a_records@, b_records@, a_kind, b_kind),
            full.0 == pair_positions(inserts@) + restore_steps(
                links@.skip(i as int),
                existing@,
                a_records@,
                b_records@,
                a_kind,
                b_kind,
            ).0,
            full.1 == restore_steps(
                links@.skip(i as int),
                existing@,
                a_records@,
                b_records@,
                a_kind,
                b_kind,
            ).1,
        decreases links.len() - i,
    {
        let ghost tail = links@.skip(i as int);
        assert(tail.drop_first() =~= links@.skip(i + 1));
        assert(tail[0] == links@[i as int]);
        let a = links[i].get_id_a();
        let b = links[i].get_id_b();
        if !has_pair(existing, a, b) {
            match find_first_with_id(a_records, a) {
                None => {
                    return LinkRestore {
                        inserts,
                        error: Some(RestoreError::Missing { kind: a_kind, id: a }),
                    };
                },
                Some(ia) => match find_first_with_id(b_records, b) {
                    None => {
                        return LinkRestore {
                            inserts,
                            error: Some(RestoreError::Missing { kind: b_kind, id: b }),
                        };
                    },
                    Some(ib) => {
                        let ghost before = inserts@;
                        inserts.push((ia, ib));
                        proof {
                            assert(pair_positions(inserts@) =~= pair_positions(before).push(
                                (ia as int, ib as int),
                            ));
                            let rest = restore_steps(
                                links@.skip(i + 1),
                                existing@,
                                a_records@,
                                b_records@,
                                a_kind,
                                b_kind,
                            );
                            assert(pair_positions(before) + (seq![(ia as int, ib as int)] + rest.0)
                                =~= pair_positions(inserts@) + rest.0);
                        }
                    },
                },
            }
        }
        i = i + 1;
    }
    proof {
        assert(links@.skip(links.len() as int) =~= Seq::<L>::empty());
        assert(pair_positions(inserts@) + Seq::<(int, int)>::empty() =~= pair_positions(inserts@));
    }
    LinkRestore { inserts, error: None }
}

} // verus!
