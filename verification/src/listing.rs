use vstd::prelude::*;

use crate::progress::{strip_keys, unkeyed};
use crate::records::{Mood, Review};
use crate::sort::{chars_le, lemma_sorted_by_key, stable_sort_by_key, stable_sorted};

verus! {

/// Reviews paired with the instant of their last update.
pub open spec fn keyed_by_update(s: Seq<Review>) -> Seq<(i64, Review)> {
    s.map_values(|r: Review| (r.timestamp_updated@, r))
}

/// Moods paired with their name.
pub open spec fn keyed_by_name(s: Seq<Mood>) -> Seq<(String, Mood)> {
    s.map_values(|m: Mood| (m.name.0, m))
}

impl Review {
    /// Orders reviews by the instant of their last update, oldest first;
    /// reviews updated at the same instant keep their order.
    pub fn sort_for_display(x: Vec<Review>) -> (r: Vec<Review>)
        ensures
            r@ == unkeyed(stable_sorted(keyed_by_update(x@))),
            r@.len() == x@.len(),
            forall|i: int, j: int|
                0 <= i < j < r@.len() ==> (#[trigger] r@[i]).timestamp_updated@
                    <= (#[trigger] r@[j]).timestamp_updated@,
            r@.to_multiset() == x@.to_multiset(),
    {
        let mut input = x;
        let ghost given = input@;
        let mut keyed: Vec<(i64, Review)> = Vec::new();
        while input.len() > 0
            invariant
                keyed.len() + input.len() == given.len(),
                input@ == given.skip(keyed.len() as int),
                keyed@ == keyed_by_update(given.take(keyed.len() as int)),
            decreases input.len(),
        {
            let ghost k = keyed.len();
            let review = input.remove(0);
            let key = review.timestamp_updated.millis();
            keyed.push((key, review));
            proof {
                assert(input@ =~= given.skip(k + 1));
                assert(keyed_by_update(given.take(k + 1)) =~= keyed_by_update(
                    given.take(k as int),
                ).push((given[k as int].timestamp_updated@, given[k as int])));
            }
        }
        proof {
            assert(given.take(given.len() as int) =~= given);
        }
        let r = strip_keys(stable_sort_by_key(keyed));
        proof {
            let key = |rv: Review| rv.timestamp_updated@;
            lemma_sorted_by_key(given, key);
            let ks = given.map_values(|rv: Review| (key(rv), rv));
            assert(keyed_by_update(given) =~= ks);
            assert(unkeyed(stable_sorted(ks)) =~= stable_sorted(ks).map_values(|kt: (i64, Review)| kt.1));
        }
        r
    }
}

impl Mood {
    /// Orders moods by name (character by character); moods with the same
    /// name keep their order.
    pub fn sort_for_display(x: Vec<Mood>) -> (r: Vec<Mood>)
        ensures
            r@ == unkeyed(stable_sorted(keyed_by_name(x@))),
            r@.len() == x@.len(),
            forall|i: int, j: int|
                0 <= i < j < r@.len() ==> chars_le((#[trigger] r@[i]).name@, (#[trigger] r@[j]).name@),
            r@.to_multiset() == x@.to_multiset(),
    {
        let mut input = x;
        let ghost given = input@;
        let mut keyed: Vec<(String, Mood)> = Vec::new();
        while input.len() > 0
            invariant
                keyed.len() + input.len() == given.len(),
                input@ == given.skip(keyed.len() as int),
                keyed@ == keyed_by_name(given.take(keyed.len() as int)),
            decreases input.len(),
        {
            let ghost k = keyed.len();
            let mood = input.remove(0);
            let key = mood.name.0.clone();
            keyed.push((key, mood));
            proof {
                assert(input@ =~= given.skip(k + 1));
                assert(keyed_by_name(given.take(k + 1)) =~= keyed_by_name(
                    given.take(k as int),
                ).push((given[k as int].name.0, given[k as int])));
            }
        }
        proof {
            assert(given.take(given.len() as int) =~= given);
        }
        let r = strip_keys(stable_sort_by_key(keyed));
        proof {
            let key = |m: Mood| m.name.0;
            lemma_sorted_by_key(given, key);
            let ks = given.map_values(|m: Mood| (key(m), m));
            assert(keyed_by_name(given) =~= ks);
            assert(unkeyed(stable_sorted(ks)) =~= stable_sorted(ks).map_values(|kt: (String, Mood)| kt.1));
        }
        r
    }
}

} // verus!
