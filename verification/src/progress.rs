use vstd::prelude::*;

use crate::ids::{Id, Uuid};
use crate::sort::{lemma_sorted_by_key, stable_sort_by_key, stable_sorted};
use crate::timestamp::{DecodeError, Timestamp};

verus! {

/// How far a reader has come with an edition.
#[derive(Clone, Copy, Debug, PartialEq, Eq, Structural)]
pub enum PagesProgress {
    Started,
    Finished,
    Pages(u32),
}

impl Default for PagesProgress {
    fn default() -> (r: Self)
        ensures
            r == PagesProgress::Started,
    {
        PagesProgress::Started
    }
}

/// The stored value of a reading progress: 0 for started, -1 for finished,
/// the page number otherwise.
pub open spec fn pages_to_stored(p: PagesProgress) -> i64 {
    match p {
        PagesProgress::Started => 0i64,
        PagesProgress::Finished => -1i64,
        PagesProgress::Pages(n) => n as i64,
    }
}

/// What a stored reading progress reads back as; `None` for values that are
/// not a valid progress.
pub open spec fn pages_from_stored(v: i64) -> Option<PagesProgress> {
    if v == 0 {
        Some(PagesProgress::Started)
    } else if v == -1 {
        Some(PagesProgress::Finished)
    } else if 0 < v <= u32::MAX {
        Some(PagesProgress::Pages(v as u32))
    } else {
        None
    }
}

impl PagesProgress {
    /// The value written to the database.
    pub fn encode(&self) -> (v: i64)
        ensures
            v == pages_to_stored(*self),
    {
        match self {
            PagesProgress::Started => 0,
            PagesProgress::Finished => -1,
            PagesProgress::Pages(n) => *n as i64,
        }
    }

    /// Reads a reading progress back from its stored value.
    pub fn decode(v: i64) -> (r: Result<PagesProgress, DecodeError>)
        ensures
            pages_from_stored(v) matches Some(p) ==> r == Ok::<PagesProgress, DecodeError>(p),
            pages_from_stored(v) is None ==> r == Err::<PagesProgress, DecodeError>(
                DecodeError::PagesProgress,
            ),
    {
        if v == 0 {
            Ok(PagesProgress::Started)
        } else if v == -1 {
            Ok(PagesProgress::Finished)
        } else if 0 < v && v <= u32::MAX as i64 {
            Ok(PagesProgress::Pages(v as u32))
        } else {
            Err(DecodeError::PagesProgress)
        }
    }
}

/// Reading back the stored value of a reading progress gives the same
/// progress, except "at page 0", which is stored like "started" and reads
/// back as "started".
pub proof fn lemma_pages_progress_round_trip(p: PagesProgress)
    ensures
        p != PagesProgress::Pages(0) ==> pages_from_stored(pages_to_stored(p)) == Some(p),
        p == PagesProgress::Pages(0) ==> pages_from_stored(pages_to_stored(p)) == Some(
            PagesProgress::Started,
        ),
{
}

/// A value that reads back as a progress is stored again unchanged.
pub proof fn lemma_pages_stored_round_trip(v: i64)
    requires
        pages_from_stored(v) is Some,
    ensures
        pages_to_stored(pages_from_stored(v)->0) == v,
{
}

/// A progress update: where a reader was in an edition at some moment.
#[derive(Clone, Copy, Debug, PartialEq, Eq, Structural)]
pub struct Progress {
    pub id: Uuid,
    pub edition_id: Uuid,
    pub timestamp: Timestamp,
    pub pages_progress: PagesProgress,
    pub deleted: bool,
}

/// Progress updates paired with the instant by which they are ordered.
pub open spec fn keyed_by_time(s: Seq<Progress>) -> Seq<(i64, Progress)> {
    s.map_values(|p: Progress| (p.timestamp@, p))
}

/// The second components of a keyed sequence.
pub open spec fn unkeyed<K, T>(s: Seq<(K, T)>) -> Seq<T> {
    s.map_values(|kt: (K, T)| kt.1)
}

/// Drops the keys of a keyed sequence, keeping the order.
pub fn strip_keys<K, T>(v: Vec<(K, T)>) -> (r: Vec<T>)
    ensures
        r@ == unkeyed(v@),
{
    let mut input = v;
    let ghost given = input@;
    let mut out: Vec<T> = Vec::new();
    while input.len() > 0
        invariant
            out.len() + input.len() == given.len(),
            input@ == given.skip(out.len() as int),
            out@ == unkeyed(given.take(out.len() as int)),
        decreases input.len(),
    {
        let ghost k = out.len();
        let (_, t) = input.remove(0);
        out.push(t);
        proof {
            assert(input@ =~= given.skip(k + 1));
            assert(unkeyed(given.take(k + 1)) =~= unkeyed(given.take(k as int)).push(
                given[k as int].1,
            ));
        }
    }
    proof {
        assert(given.take(given.len() as int) =~= given);
    }
    out
}

impl Progress {
    /// Orders progress updates by their instant, oldest first; updates at the
    /// same instant keep their order.
    pub fn sort_for_display(x: Vec<Progress>) -> (r: Vec<Progress>)
        ensures
            r@ == unkeyed(stable_sorted(keyed_by_time(x@))),
            r@.len() == x@.len(),
            forall|i: int, j: int|
                0 <= i < j < r@.len() ==> (#[trigger] r@[i]).timestamp@ <= (#[trigger] r@[j]).timestamp@,
            r@.to_multiset() == x@.to_multiset(),
    {
        let mut keyed: Vec<(i64, Progress)> = Vec::new();
        let mut i: usize = 0;
        while i < x.len()
            invariant
                i <= x.len(),
                keyed@ == keyed_by_time(x@.take(i as int)),
            decreases x.len() - i,
        {
            let p = x[i];
            keyed.push((p.timestamp.millis(), p));
            proof {
                assert(keyed_by_time(x@.take(i + 1)) =~= keyed_by_time(x@.take(i as int)).push(
                    (p.timestamp@, p),
                ));
            }
            i = i + 1;
        }
        proof {
            assert(x@.take(x.len() as int) =~= x@);
        }
        let r = strip_keys(stable_sort_by_key(keyed));
        proof {
            let key = |p: Progress| p.timestamp@;
            lemma_sorted_by_key(x@, key);
            let ks = x@.map_values(|p: Progress| (key(p), p));
            assert(keyed_by_time(x@) =~= ks);
            assert(unkeyed(stable_sorted(ks)) =~= stable_sorted(ks).map_values(|kt: (i64, Progress)| kt.1));
        }
        r
    }
}

impl Id for Progress {
    open spec fn id_view(&self) -> u128 {
        self.id.0
    }

    fn id(&self) -> (r: Uuid) {
        self.id
    }
}

} // verus!
