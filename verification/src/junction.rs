use vstd::prelude::*;

use crate::ids::Uuid;

verus! {


/// A row of a junction table: the identifiers of the two linked records.
pub trait Link {
    spec fn a_view(&self) -> u128;

    spec fn b_view(&self) -> u128;

    /// The identifier of the first linked record.
    fn get_id_a(&self) -> (r: Uuid)
        ensures
            r.0 == self.a_view(),
    ;

    /// The identifier of the second linked record.
    fn get_id_b(&self) -> (r: Uuid)
        ensures
            r.0 == self.b_view(),
    ;
}

/// A book written by an author.
#[derive(Clone, Copy, Debug, Default, PartialEq, Eq, Structural)]
pub struct BookAuthor {
    pub book_id: Uuid,
    pub author_id: Uuid,
}

impl Link for BookAuthor {
    open spec fn a_view(&self) -> u128 {
        self.book_id.0
    }

    open spec fn b_view(&self) -> u128 {
        self.author_id.0
    }

    fn get_id_a(&self) -> (r: Uuid) {
        self.book_id
    }

    fn get_id_b(&self) -> (r: Uuid) {
        self.author_id
    }
}

/// A book belonging to a genre.
#[derive(Clone, Copy, Debug, Default, PartialEq, Eq, Structural)]
pub struct BookGenre {
    pub book_id: Uuid,
    pub genre_id: Uuid,
}

impl Link for BookGenre {
    open spec fn a_view(&self) -> u128 {
        self.book_id.0
    }

    open spec fn b_view(&self) -> u128 {
        self.genre_id.0
    }

    fn get_id_a(&self) -> (r: Uuid) {
        self.book_id
    }

    fn get_id_b(&self) -> (r: Uuid) {
        self.genre_id
    }
}

/// An edition written in a language.
#[derive(Clone, Copy, Debug, Default, PartialEq, Eq, Structural)]
pub struct EditionLanguage {
    pub edition_id: Uuid,
    pub language_id: Uuid,
}

impl Link for EditionLanguage {
    open spec fn a_view(&self) -> u128 {
        self.edition_id.0
    }

    open spec fn b_view(&self) -> u128 {
        self.language_id.0
    }

    fn get_id_a(&self) -> (r: Uuid) {
        self.edition_id
    }

    fn get_id_b(&self) -> (r: Uuid) {
        self.language_id
    }
}

/// An edition published by a publisher.
#[derive(Clone, Copy, Debug, Default, PartialEq, Eq, Structural)]
pub struct EditionPublisher {
    pub edition_id: Uuid,
    pub publisher_id: Uuid,
}

impl Link for EditionPublisher {
    open spec fn a_view(&self) -> u128 {
        self.edition_id.0
    }

    open spec fn b_view(&self) -> u128 {
        self.publisher_id.0
    }

    fn get_id_a(&self) -> (r: Uuid) {
        self.edition_id
    }

    fn get_id_b(&self) -> (r: Uuid) {
        self.publisher_id
    }
}

/// A review noting a mood of the book.
#[derive(Clone, Copy, Debug, Default, PartialEq, Eq, Structural)]
pub struct ReviewMood {
    pub review_id: Uuid,
    pub mood_id: Uuid,
}

impl Link for ReviewMood {
    open spec fn a_view(&self) -> u128 {
        self.review_id.0
    }

    open spec fn b_view(&self) -> u128 {
        self.mood_id.0
    }

    fn get_id_a(&self) -> (r: Uuid) {
        self.review_id
    }

    fn get_id_b(&self) -> (r: Uuid) {
        self.mood_id
    }
}

/// Records that can be compared by value: two records are the same record
/// when all of their fields are equal, which is when their views are equal.
pub trait SameRecord: View + Sized {
    fn same_record(&self, other: &Self) -> (r: bool)
        ensures
            r == (self@ == other@),
    ;
}

/// The set of record values held by a sequence of records.
pub open spec fn view_set<B: View>(s: Seq<B>) -> Set<B::V> {
    Set::new(|x: B::V| exists|i: int| 0 <= i < s.len() && #[trigger] s[i]@ == x)
}

/// Whether some record of `s` has the value `x`.
pub open spec fn holds_record<B: View>(s: Seq<B>, x: B::V) -> bool {
    exists|j: int| 0 <= j < s.len() && #[trigger] s[j]@ == x
}

/// `idx` lists, in strictly increasing order, exactly the positions of the
/// records of `from` whose value no record of `other` holds.
pub open spec fn selects_missing<B: View>(idx: Seq<int>, from: Seq<B>, other: Seq<B>) -> bool {
    &&& forall|i: int, j: int| 0 <= i < j < idx.len() ==> idx[i] < idx[j]
    &&& forall|i: int|
        0 <= i < idx.len() ==> 0 <= #[trigger] idx[i] < from.len() && !holds_record(
            other,
            from[idx[i]]@,
        )
    &&& forall|k: int|
        0 <= k < from.len() && !#[trigger] holds_record(other, from[k]@) ==> idx.contains(k)
}

/// `idx` is `0, 1, .., n - 1`.
pub open spec fn selects_all(idx: Seq<int>, n: int) -> bool {
    &&& idx.len() == n
    &&& forall|i: int| 0 <= i < n ==> #[trigger] idx[i] == i
}

/// The indices held by a vector of positions, as integers.
pub open spec fn positions(v: Seq<usize>) -> Seq<int> {
    v.map_values(|u: usize| u as int)
}

/// The record values that `idx` picks out of `s`.
pub open spec fn picked<B: View>(s: Seq<B>, idx: Seq<int>) -> Set<B::V> {
    Set::new(|x: B::V| exists|k: int| 0 <= k < idx.len() && #[trigger] s[idx[k]]@ == x)
}

/// What happens to the links of one record `a` when its linked records change
/// from `old` to `new`.
pub enum LinkPlan {
    /// There are no linked records any more: every link that `a` currently has
    /// in the junction table is removed.
    RemoveAllExisting,
    /// Insert a link to `new[i]` for each `i` in `insert` (in that order), then
    /// remove the link to `old[j]` for each `j` in `remove` (in that order).
    Apply { insert: Vec<usize>, remove: Vec<usize> },
}

/// Whether some element of `v` is the same record as `x`.
pub fn contains_record<B: SameRecord>(v: &Vec<B>, x: &B) -> (r: bool)
    ensures
        r == holds_record(v@, x@),
{
    let mut i: usize = 0;
    while i < v.len()
        invariant
            i <= v.len(),
            forall|j: int| 0 <= j < i ==> #[trigger] v@[j]@ != x@,
        decreases v.len() - i,
    {
        if v[i].same_record(x) {
            return true;
        }
        i = i + 1;
    }
    false
}

/// Positions of the records of `from` that are not the same record as any
/// record of `other`, in increasing order.
pub fn indices_missing_from<B: SameRecord>(from: &Vec<B>, other: &Vec<B>) -> (idx: Vec<usize>)
    ensures
        selects_missing(positions(idx@), from@, other@),
{
    let mut idx: Vec<usize> = Vec::new();
    let mut i: usize = 0;
    while i < from.len()
        invariant
            i <= from.len(),
            forall|a: int, b: int| 0 <= a < b < idx.len() ==> idx@[a] < idx@[b],
            forall|a: int|
                0 <= a < idx.len() ==> #[trigger] idx@[a] < i && !holds_record(
                    other@,
                    from@[idx@[a] as int]@,
                ),
            forall|k: int|
                0 <= k < i && !#[trigger] holds_record(other@, from@[k]@) ==> positions(
                    idx@,
                ).contains(k),
        decreases from.len() - i,
    {
        let ghost before = idx@;
        let found = contains_record(other, &from[i]);
        if !found {
            idx.push(i);
        }
        assert forall|k: int|
            0 <= k < i + 1 && !#[trigger] holds_record(other@, from@[k]@) implies positions(
            idx@,
        ).contains(k) by {
            if k == i as int {
                assert(positions(idx@)[idx.len() - 1] == k);
            } else {
                let m = choose|m: int| 0 <= m < before.len() && positions(before)[m] == k;
                assert(positions(idx@)[m] == k);
            }
        }
        i = i + 1;
    }
    idx
}

/// The positions `0, 1, .., n - 1`.
pub fn all_indices(n: usize) -> (idx: Vec<usize>)
    ensures
        selects_all(positions(idx@), n as int),
{
    let mut idx: Vec<usize> = Vec::new();
    let mut i: usize = 0;
    while i < n
        invariant
            i <= n,
            idx.len() == i,
            forall|a: int| 0 <= a < i ==> idx@[a] == a,
        decreases n - i,
    {
        idx.push(i);
        i = i + 1;
    }
    idx
}

/// Decide how the junction table changes when the records linked to one
/// record change from `old` to `new`.
///
/// With no new records every existing link goes; with no old records every
/// new record is linked; otherwise records only in `new` are linked and
/// records only in `old` are unlinked.
pub fn plan_link_update<B: SameRecord>(old: &Option<Vec<B>>, new: &Option<Vec<B>>) -> (plan:
    LinkPlan)
    ensures
        new is None ==> plan is RemoveAllExisting,
        new is Some && old is None ==> (plan matches LinkPlan::Apply { insert, remove }
            && selects_all(positions(insert@), new->0.len() as int) && remove@.len() == 0),
        new is Some && old is Some ==> (plan matches LinkPlan::Apply { insert, remove }
            && selects_missing(positions(insert@), new->0@, old->0@) && selects_missing(
            positions(remove@),
            old->0@,
            new->0@,
        )),
{
    match new {
        None => LinkPlan::RemoveAllExisting,
        Some(new_records) => match old {
            None => LinkPlan::Apply { insert: all_indices(new_records.len()), remove: Vec::new() },
            Some(old_records) => {
                let insert = indices_missing_from(new_records, old_records);
                let remove = indices_missing_from(old_records, new_records);
                LinkPlan::Apply { insert, remove }
            },
        },
    }
}

/// The links of `a` after applying an `Apply` plan to the links `current`.
pub open spec fn links_after<B: View>(
    current: Set<B::V>,
    old: Seq<B>,
    new: Seq<B>,
    insert: Seq<int>,
    remove: Seq<int>,
) -> Set<B::V> {
    current.union(picked(new, insert)).difference(picked(old, remove))
}

/// Planning a link update and applying it to the links that `old` describes
/// leaves `a` linked to exactly the records of `new`.
pub proof fn lemma_link_update_reaches_new<B: View>(
    old: Seq<B>,
    new: Seq<B>,
    insert: Seq<int>,
    remove: Seq<int>,
)
    requires
        selects_missing(insert, new, old),
        selects_missing(remove, old, new),
    ensures
        links_after(view_set(old), old, new, insert, remove) == view_set(new),
{
    let r = links_after(view_set(old), old, new, insert, remove);
    assert forall|x: B::V| r.contains(x) implies view_set(new).contains(x) by {
        if picked(new, insert).contains(x) {
            let k = choose|k: int| 0 <= k < insert.len() && #[trigger] new[insert[k]]@ == x;
            assert(0 <= insert[k] < new.len());
        } else {
            let i = choose|i: int| 0 <= i < old.len() && #[trigger] old[i]@ == x;
            if !holds_record(new, old[i]@) {
                assert(remove.contains(i));
                let k = choose|k: int| 0 <= k < remove.len() && remove[k] == i;
                assert(old[remove[k]]@ == x);
                assert(picked(old, remove).contains(x));
            } else {
                let j = choose|j: int| 0 <= j < new.len() && #[trigger] new[j]@ == old[i]@;
                assert(new[j]@ == x);
            }
        }
    }
    assert forall|x: B::V| view_set(new).contains(x) implies r.contains(x) by {
        let i = choose|i: int| 0 <= i < new.len() && #[trigger] new[i]@ == x;
        if holds_record(old, new[i]@) {
            let j = choose|j: int| 0 <= j < old.len() && #[trigger] old[j]@ == new[i]@;
            assert(view_set(old).contains(x));
        } else {
            assert(insert.contains(i));
            let k = choose|k: int| 0 <= k < insert.len() && insert[k] == i;
            assert(new[insert[k]]@ == x);
            assert(picked(new, insert).contains(x));
        }
        if picked(old, remove).contains(x) {
            let k = choose|k: int| 0 <= k < remove.len() && #[trigger] old[remove[k]]@ == x;
            assert(0 <= remove[k] < old.len());
            assert(!holds_record(new, old[remove[k]]@));
            assert(new[i]@ == old[remove[k]]@);
        }
    }
    assert(r =~= view_set(new));
}

/// When a record had no links before, linking every new record leaves it
/// linked to exactly the records of `new`.
pub proof fn lemma_link_all_from_empty<B: View>(new: Seq<B>, insert: Seq<int>)
    requires
        selects_all(insert, new.len() as int),
    ensures
        links_after(Set::<B::V>::empty(), Seq::<B>::empty(), new, insert, Seq::empty())
            == view_set(new),
{
    let r = links_after(Set::<B::V>::empty(), Seq::<B>::empty(), new, insert, Seq::empty());
    assert forall|x: B::V| r.contains(x) implies view_set(new).contains(x) by {
        let k = choose|k: int| 0 <= k < insert.len() && #[trigger] new[insert[k]]@ == x;
        assert(insert[k] == k);
    }
    assert forall|x: B::V| view_set(new).contains(x) implies r.contains(x) by {
        let i = choose|i: int| 0 <= i < new.len() && #[trigger] new[i]@ == x;
        assert(insert[i] == i);
        assert(new[insert[i]]@ == x);
    }
    assert(r =~= view_set(new));
}

} // verus!
