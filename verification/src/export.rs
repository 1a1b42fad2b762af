use vstd::prelude::*;
use vstd::string::StringExecFns;

use crate::ids::Uuid;
use crate::progress::{PagesProgress, Progress};
use crate::text::{opt_string_view, Text};
use crate::timestamp::{millis_representable, Timestamp};

verus! {

/// `p` records starting to read edition `e`.
pub open spec fn is_start(p: Progress, e: u128) -> bool {
    p.pages_progress == PagesProgress::Started && p.edition_id.0 == e
}

/// `p` records finishing edition `e`.
pub open spec fn is_finish(p: Progress, e: u128) -> bool {
    p.pages_progress == PagesProgress::Finished && p.edition_id.0 == e
}

/// `i < n` is the position of the last start of `e` before position `n`.
pub open spec fn latest_start(s: Seq<Progress>, e: u128, i: int, n: int) -> bool {
    &&& 0 <= i < n
    &&& is_start(s[i], e)
    &&& forall|k: int| i < k < n ==> !is_start(#[trigger] s[k], e)
}

/// `i < n` is the position of the first start of `e`.
pub open spec fn earliest_start(s: Seq<Progress>, e: u128, i: int, n: int) -> bool {
    &&& 0 <= i < n
    &&& is_start(s[i], e)
    &&& forall|k: int| 0 <= k < i ==> !is_start(#[trigger] s[k], e)
}

/// `i` is the position of the first finish of `e`.
pub open spec fn earliest_finish(s: Seq<Progress>, e: u128, i: int) -> bool {
    &&& 0 <= i < s.len()
    &&& is_finish(s[i], e)
    &&& forall|k: int| 0 <= k < i ==> !is_finish(#[trigger] s[k], e)
}

/// Some update before position `n` starts edition `e`.
pub open spec fn has_start(s: Seq<Progress>, e: u128, n: int) -> bool {
    exists|i: int| 0 <= i < n && #[trigger] is_start(s[i], e)
}

/// Some update finishes edition `e`.
pub open spec fn has_finish(s: Seq<Progress>, e: u128) -> bool {
    exists|i: int| 0 <= i < s.len() && #[trigger] is_finish(s[i], e)
}

/// An edition that was read from start to finish.
#[derive(Clone, Copy, Debug, PartialEq, Eq, Structural)]
pub struct ReadSpan {
    pub edition_id: Uuid,
    pub started: Timestamp,
    pub finished: Timestamp,
}

/// The span starts at the last start of its edition before `n`.
pub open spec fn started_at_latest(s: Seq<Progress>, span: ReadSpan, n: int) -> bool {
    exists|i: int| #[trigger] latest_start(s, span.edition_id.0, i, n) && span.started == s[i].timestamp
}

/// The span finishes at the first finish of its edition.
pub open spec fn finished_at_earliest(s: Seq<Progress>, span: ReadSpan) -> bool {
    exists|f: int| #[trigger] earliest_finish(s, span.edition_id.0, f) && span.finished == s[f].timestamp
}

/// What the read spans found among the first `n` updates must satisfy: one
/// span per edition that was started (before `n`) and finished (anywhere),
/// from its last start to its first finish, in order of first start.
pub open spec fn spans_of(s: Seq<Progress>, out: Seq<ReadSpan>, n: int) -> bool {
    &&& forall|k: int| 0 <= k < out.len() ==> started_at_latest(s, #[trigger] out[k], n)
    &&& forall|k: int| 0 <= k < out.len() ==> finished_at_earliest(s, #[trigger] out[k])
    &&& forall|e: u128|
        has_start(s, e, n) && has_finish(s, e) ==> exists|k: int|
            0 <= k < out.len() && (#[trigger] out[k]).edition_id.0 == e
    &&& forall|k1: int, k2: int|
        0 <= k1 < out.len() && 0 <= k2 < out.len() && k1 != k2 ==> (#[trigger] out[k1]).edition_id.0
            != (#[trigger] out[k2]).edition_id.0
    &&& forall|k1: int, k2: int, i1: int, i2: int|
        0 <= k1 < k2 < out.len() && #[trigger] earliest_start(s, out[k1].edition_id.0, i1, n)
            && #[trigger] earliest_start(s, out[k2].edition_id.0, i2, n) ==> i1 < i2
}

/// Position of the first update that finishes edition `e`, if any.
pub fn find_first_finish(s: &Vec<Progress>, e: Uuid) -> (r: Option<usize>)
    ensures
        r matches Some(f) ==> earliest_finish(s@, e.0, f as int),
        r is None ==> !has_finish(s@, e.0),
{
    let mut j: usize = 0;
    while j < s.len()
        invariant
            j <= s.len(),
            forall|k: int| 0 <= k < j ==> !is_finish(#[trigger] s@[k], e.0),
        decreases s.len() - j,
    {
        if s[j].pages_progress == PagesProgress::Finished && s[j].edition_id.0 == e.0 {
            return Some(j);
        }
        j = j + 1;
    }
    None
}

/// Position of the span for edition `e`, if there is one.
fn find_span(out: &Vec<ReadSpan>, e: Uuid) -> (r: Option<usize>)
    ensures
        r matches Some(k) ==> k < out.len() && out@[k as int].edition_id.0 == e.0,
        r is None ==> forall|k: int| 0 <= k < out.len() ==> (#[trigger] out@[k]).edition_id.0 != e.0,
{
    let mut j: usize = 0;
    while j < out.len()
        invariant
            j <= out.len(),
            forall|k: int| 0 <= k < j ==> (#[trigger] out@[k]).edition_id.0 != e.0,
        decreases out.len() - j,
    {
        if out[j].edition_id.0 == e.0 {
            return Some(j);
        }
        j = j + 1;
    }
    None
}

/// The editions that were read: for each edition with a "started" update and
/// a "finished" update, the span from its last start to its first finish, in
/// order of first start. (Updates at page 0 never count, as they are neither.)
pub fn editions_read(progress: &Vec<Progress>) -> (out: Vec<ReadSpan>)
    ensures
        spans_of(progress@, out@, progress@.len() as int),
{
    let ghost s = progress@;
    let mut out: Vec<ReadSpan> = Vec::new();
    let mut i: usize = 0;
    while i < progress.len()
        invariant
            s == progress@,
            i <= progress.len(),
            spans_of(s, out@, i as int),
        decreases progress.len() - i,
    {
        let p = progress[i];
        if p.pages_progress == PagesProgress::Started {
            let e = p.edition_id;
            match find_first_finish(progress, e) {
                None => {
                    proof {
                        assert forall|k: int| 0 <= k < out.len() implies started_at_latest(s, #[trigger] out[k], i + 1) by {
                            let j = choose|j: int|
                                latest_start(s, out@[k].edition_id.0, j, i as int)
                                    && out@[k].started == s[j].timestamp;
                            let f = choose|f: int|
                                earliest_finish(s, out@[k].edition_id.0, f) && out@[k].finished
                                    == s[f].timestamp;
                            assert(is_finish(s[f], out@[k].edition_id.0));
                            assert(latest_start(s, out@[k].edition_id.0, j, i + 1)
                                && out@[k].started == s[j].timestamp);
                        }
                        assert forall|e2: u128|
                            has_start(s, e2, i + 1) && has_finish(s, e2) implies exists|k: int|
                            0 <= k < out.len() && (#[trigger] out@[k]).edition_id.0 == e2 by {
                            let w = choose|w: int| 0 <= w < i + 1 && #[trigger] is_start(s[w], e2);
                            if w == i {
                                assert(e2 == e.0);
                            } else {
                                assert(has_start(s, e2, i as int));
                            }
                        }
                        assert forall|k1: int, k2: int, i1: int, i2: int|
                            0 <= k1 < k2 < out.len() && #[trigger] earliest_start(s, out@[k1].edition_id.0,
                                i1,
                                i + 1,
                            ) && #[trigger] earliest_start(s, out@[k2].edition_id.0,
                                i2,
                                i + 1,
                            ) implies i1 < i2 by {
                            lemma_earliest_start_before(s, out@, k1, i1, i as int);
                            lemma_earliest_start_before(s, out@, k2, i2, i as int);
                        }
                    }
                },
                Some(f) => {
                    match find_span(&out, e) {
                        Some(k) => {
                            let ghost before = out@;
                            let old_span = out[k];
                            out.set(
                                k,
                                ReadSpan {
                                    edition_id: e,
                                    started: p.timestamp,
                                    finished: old_span.finished,
                                },
                            );
                            proof {
                                lemma_update_span(s, before, out@, k as int, i as int);
                            }
                        },
                        None => {
                            let ghost before = out@;
                            out.push(ReadSpan { edition_id: e, started: p.timestamp, finished: progress[f].timestamp });
                            proof {
                                lemma_push_span(s, before, out@, f as int, i as int);
                            }
                        },
                    }
                },
            }
        } else {
            proof {
                lemma_skip_update(s, out@, i as int);
            }
        }
        i = i + 1;
    }
    out
}

/// Every span's edition was started before `n`, at its earliest start.
proof fn lemma_earliest_start_before(s: Seq<Progress>, out: Seq<ReadSpan>, k: int, i1: int, n: int)
    requires
        spans_of(s, out, n),
        0 <= k < out.len(),
        0 <= n < s.len(),
        earliest_start(s, out[k].edition_id.0, i1, n + 1),
    ensures
        earliest_start(s, out[k].edition_id.0, i1, n),
{
    let j = choose|j: int| latest_start(s, out[k].edition_id.0, j, n) && out[k].started == s[j].timestamp;
    if i1 == n {
        assert(!is_start(s[j], out[k].edition_id.0));
    }
}

/// An update that is not a start changes nothing.
proof fn lemma_skip_update(s: Seq<Progress>, out: Seq<ReadSpan>, n: int)
    requires
        spans_of(s, out, n),
        0 <= n < s.len(),
        s[n].pages_progress != PagesProgress::Started,
    ensures
        spans_of(s, out, n + 1),
{
    assert forall|k: int| 0 <= k < out.len() implies finished_at_earliest(s, #[trigger] out[k]) by {
        let f = choose|f: int| earliest_finish(s, out[k].edition_id.0, f) && out[k].finished == s[f].timestamp;
        assert(earliest_finish(s, out[k].edition_id.0, f) && out[k].finished == s[f].timestamp);
    }
    assert forall|k: int| 0 <= k < out.len() implies started_at_latest(s, #[trigger] out[k], n + 1) by {
        let j = choose|j: int| latest_start(s, out[k].edition_id.0, j, n) && out[k].started == s[j].timestamp;
        assert(latest_start(s, out[k].edition_id.0, j, n + 1));
    }
    assert forall|e2: u128| has_start(s, e2, n + 1) && has_finish(s, e2) implies exists|k: int|
        0 <= k < out.len() && (#[trigger] out[k]).edition_id.0 == e2 by {
        let w = choose|w: int| 0 <= w < n + 1 && #[trigger] is_start(s[w], e2);
        assert(w != n);
        assert(has_start(s, e2, n));
    }
    assert forall|k1: int, k2: int, i1: int, i2: int|
        0 <= k1 < k2 < out.len() && #[trigger] earliest_start(s, out[k1].edition_id.0, i1, n + 1)
            && #[trigger] earliest_start(s, out[k2].edition_id.0, i2, n + 1) implies i1 < i2 by {
        lemma_earliest_start_before(s, out, k1, i1, n);
        lemma_earliest_start_before(s, out, k2, i2, n);
    }
}

/// A start of an edition that already has a span moves that span's start.
proof fn lemma_update_span(
    s: Seq<Progress>,
    before: Seq<ReadSpan>,
    after: Seq<ReadSpan>,
    k: int,
    n: int,
)
    requires
        spans_of(s, before, n),
        0 <= n < s.len(),
        s[n].pages_progress == PagesProgress::Started,
        0 <= k < before.len(),
        before[k].edition_id == s[n].edition_id,
        after == before.update(
            k,
            ReadSpan {
                edition_id: s[n].edition_id,
                started: s[n].timestamp,
                finished: before[k].finished,
            },
        ),
    ensures
        spans_of(s, after, n + 1),
{
    let e = s[n].edition_id.0;
    assert forall|m: int| 0 <= m < after.len() implies started_at_latest(s, #[trigger] after[m], n + 1) by {
        if m == k {
            assert(latest_start(s, after[m].edition_id.0, n, n + 1) && after[m].started
                == s[n].timestamp);
        } else {
            let j = choose|j: int|
                latest_start(s, before[m].edition_id.0, j, n) && before[m].started == s[j].timestamp;
            assert(before[m].edition_id.0 != e);
            assert(latest_start(s, after[m].edition_id.0, j, n + 1) && after[m].started
                == s[j].timestamp);
        }
    }
    assert forall|m: int| 0 <= m < after.len() implies finished_at_earliest(s, #[trigger] after[m]) by {
        let f = choose|f: int| earliest_finish(s, before[m].edition_id.0, f) && before[m].finished == s[f].timestamp;
        assert(after[m].edition_id == before[m].edition_id);
        assert(earliest_finish(s, after[m].edition_id.0, f) && after[m].finished == s[f].timestamp);
    }
    assert forall|e2: u128| has_start(s, e2, n + 1) && has_finish(s, e2) implies exists|m: int|
        0 <= m < after.len() && (#[trigger] after[m]).edition_id.0 == e2 by {
        let w = choose|w: int| 0 <= w < n + 1 && #[trigger] is_start(s[w], e2);
        if w == n {
            assert(after[k].edition_id.0 == e2);
        } else {
            assert(has_start(s, e2, n));
            let m = choose|m: int| 0 <= m < before.len() && (#[trigger] before[m]).edition_id.0 == e2;
            assert(after[m].edition_id.0 == e2);
        }
    }
    assert forall|k1: int, k2: int|
        0 <= k1 < after.len() && 0 <= k2 < after.len() && k1 != k2 implies (#[trigger] after[k1]).edition_id.0
        != (#[trigger] after[k2]).edition_id.0 by {
        assert(after[k1].edition_id == before[k1].edition_id);
        assert(after[k2].edition_id == before[k2].edition_id);
    }
    assert forall|k1: int, k2: int, i1: int, i2: int|
        0 <= k1 < k2 < after.len() && #[trigger] earliest_start(s, after[k1].edition_id.0, i1, n + 1)
            && #[trigger] earliest_start(s, after[k2].edition_id.0, i2, n + 1) implies i1 < i2 by {
        assert(after[k1].edition_id == before[k1].edition_id);
        assert(after[k2].edition_id == before[k2].edition_id);
        lemma_earliest_start_before(s, before, k1, i1, n);
        lemma_earliest_start_before(s, before, k2, i2, n);
    }
}

/// A start of an edition that has no span yet (and is finished somewhere)
/// adds its span at the end.
proof fn lemma_push_span(s: Seq<Progress>, before: Seq<ReadSpan>, after: Seq<ReadSpan>, f: int, n: int)
    requires
        spans_of(s, before, n),
        0 <= n < s.len(),
        s[n].pages_progress == PagesProgress::Started,
        forall|k: int| 0 <= k < before.len() ==> (#[trigger] before[k]).edition_id != s[n].edition_id,
        earliest_finish(s, s[n].edition_id.0, f),
        after == before.push(
            ReadSpan { edition_id: s[n].edition_id, started: s[n].timestamp, finished: s[f].timestamp },
        ),
    ensures
        spans_of(s, after, n + 1),
{
    let e = s[n].edition_id.0;
    let last = before.len() as int;
    assert forall|k: int| 0 <= k < n implies !is_start(#[trigger] s[k], e) by {
        if is_start(s[k], e) {
            assert(has_start(s, e, n));
            assert(has_finish(s, e));
            let m = choose|m: int| 0 <= m < before.len() && (#[trigger] before[m]).edition_id.0 == e;
            assert(before[m].edition_id == s[n].edition_id);
        }
    }
    assert forall|m: int| 0 <= m < after.len() implies started_at_latest(s, #[trigger] after[m], n + 1) by {
        if m == last {
            assert(latest_start(s, after[m].edition_id.0, n, n + 1) && after[m].started
                == s[n].timestamp);
        } else {
            let j = choose|j: int|
                latest_start(s, before[m].edition_id.0, j, n) && before[m].started == s[j].timestamp;
            assert(before[m].edition_id.0 != e);
            assert(latest_start(s, after[m].edition_id.0, j, n + 1) && after[m].started
                == s[j].timestamp);
        }
    }
    assert forall|m: int| 0 <= m < after.len() implies finished_at_earliest(s, #[trigger] after[m]) by {
        if m == last {
            assert(earliest_finish(s, after[m].edition_id.0, f) && after[m].finished
                == s[f].timestamp);
        } else {
            let g = choose|g: int| earliest_finish(s, before[m].edition_id.0, g) && before[m].finished == s[g].timestamp;
            assert(after[m] == before[m]);
            assert(earliest_finish(s, after[m].edition_id.0, g) && after[m].finished
                == s[g].timestamp);
        }
    }
    assert forall|e2: u128| has_start(s, e2, n + 1) && has_finish(s, e2) implies exists|m: int|
        0 <= m < after.len() && (#[trigger] after[m]).edition_id.0 == e2 by {
        let w = choose|w: int| 0 <= w < n + 1 && #[trigger] is_start(s[w], e2);
        if w == n {
            assert(after[last].edition_id.0 == e2);
        } else {
            assert(has_start(s, e2, n));
            let m = choose|m: int| 0 <= m < before.len() && (#[trigger] before[m]).edition_id.0 == e2;
            assert(after[m].edition_id.0 == e2);
        }
    }
    assert forall|k1: int, k2: int|
        0 <= k1 < after.len() && 0 <= k2 < after.len() && k1 != k2 implies (#[trigger] after[k1]).edition_id.0
        != (#[trigger] after[k2]).edition_id.0 by {
        if k1 == last {
            assert(before[k2].edition_id != s[n].edition_id);
        } else if k2 == last {
            assert(before[k1].edition_id != s[n].edition_id);
        }
    }
    assert forall|k1: int, k2: int, i1: int, i2: int|
        0 <= k1 < k2 < after.len() && #[trigger] earliest_start(s, after[k1].edition_id.0, i1, n + 1)
            && #[trigger] earliest_start(s, after[k2].edition_id.0, i2, n + 1) implies i1 < i2 by {
        assert(after[k1] == before[k1]);
        lemma_earliest_start_before(s, before, k1, i1, n);
        if k2 == last {
            assert(earliest_start(s, e, n, n + 1));
            if i2 < n {
                assert(!is_start(s[i2], e));
            }
        } else {
            assert(after[k2] == before[k2]);
            lemma_earliest_start_before(s, before, k2, i2, n);
        }
    }
}

/// The text of a date written as `%Y/%m/%d` by chrono, for an instant.
pub uninterp spec fn ymd_slash_date(millis: i64) -> Seq<char>;

/// Writes the instant's date in UTC as `%Y/%m/%d`, with chrono's formatter.
#[verifier::external_body]
fn format_ymd_slash(millis: i64) -> (s: String)
    requires
        millis_representable(millis),
    ensures
        s@ == ymd_slash_date(millis),
{
    chrono::DateTime::from_timestamp_millis(millis).unwrap().format("%Y/%m/%d").to_string()
}

/// The date of a timestamp as `%Y/%m/%d`.
pub fn date_slashed(t: &Timestamp) -> (s: String)
    ensures
        s@ == ymd_slash_date(t@),
{
    t.check_representable();
    format_ymd_slash(t.millis())
}

/// One row of an export that reading-tracking sites can import.
#[derive(Debug, Default)]
pub struct Export {
    pub book_id: Option<String>,
    pub title: Option<String>,
    pub author: Option<String>,
    pub author_lf: Option<String>,
    pub additional_authors: Option<String>,
    pub isbn: Option<String>,
    pub isbn13: Option<String>,
    pub my_rating: Option<String>,
    pub average_rating: Option<String>,
    pub publisher: Option<String>,
    pub binding: Option<String>,
    pub number_of_pages: Option<String>,
    pub year_published: Option<String>,
    pub original_publication_year: Option<String>,
    pub date_read: Option<String>,
    pub date_added: Option<String>,
    pub bookshelves: Option<String>,
    pub bookshelves_with_positions: Option<String>,
    pub exclusive_shelf: Option<String>,
    pub my_review: Option<String>,
    pub spoiler: Option<String>,
    pub private_notes: Option<String>,
    pub read_count: Option<String>,
    pub owned_copies: String,
}

impl Export {
    /// The row for an edition that was read: its ISBN (quoted as a formula so
    /// spreadsheets keep it as text), the day it was finished as the date read,
    /// the day it was started as the date added, on the "read" shelf.
    pub fn for_read_edition(isbn: &Option<Text>, span: &ReadSpan) -> (r: Export)
        ensures
            opt_string_view(r.isbn) == Some("=\"\""@),
            opt_string_view(r.isbn13) == Some(
                "=\""@ + (match isbn {
                    Some(t) => t@,
                    None => Seq::<char>::empty(),
                }) + "\""@,
            ),
            opt_string_view(r.date_read) == Some(ymd_slash_date(span.finished@)),
            opt_string_view(r.date_added) == Some(ymd_slash_date(span.started@)),
            opt_string_view(r.exclusive_shelf) == Some("read"@),
            r.book_id is None && r.title is None && r.author is None && r.author_lf is None
                && r.additional_authors is None && r.my_rating is None && r.average_rating is None
                && r.publisher is None && r.binding is None && r.number_of_pages is None
                && r.year_published is None && r.original_publication_year is None
                && r.bookshelves is None && r.bookshelves_with_positions is None
                && r.my_review is None && r.spoiler is None && r.private_notes is None
                && r.read_count is None,
            r.owned_copies@ == Seq::<char>::empty(),
    {
        let mut isbn13 = "=\"".to_string();
        match isbn {
            Some(t) => isbn13.append(t.0.as_str()),
            None => {},
        }
        isbn13.append("\"");
        Export {
            book_id: None,
            title: None,
            author: None,
            author_lf: None,
            additional_authors: None,
            isbn: Some("=\"\"".to_string()),
            isbn13: Some(isbn13),
            my_rating: None,
            average_rating: None,
            publisher: None,
            binding: None,
            number_of_pages: None,
            year_published: None,
            original_publication_year: None,
            date_read: Some(date_slashed(&span.finished)),
            date_added: Some(date_slashed(&span.started)),
            bookshelves: None,
            bookshelves_with_positions: None,
            exclusive_shelf: Some("read".to_string()),
            my_review: None,
            spoiler: None,
            private_notes: None,
            read_count: None,
            owned_copies: String::new(),
        }
    }
}

} // verus!
