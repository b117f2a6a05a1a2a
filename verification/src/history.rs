//! The history as a mathematical object: a sequence of records, newest
//! first, in which no id and no content occurs twice.
//!
//! The store's operations are defined here on sequences; the executable
//! store in [`crate::store`] is proved to compute exactly these.

use vstd::prelude::*;
use crate::matching::contains_folded;
use crate::record::{ContentTypes, RecordView};

verus! {

/// The record holds exactly this content: same kind, same bytes.
pub open spec fn same_identity(r: RecordView, content_type: ContentTypes, content: Seq<u8>) -> bool {
    r.content_type == content_type && r.content == content
}

/// No record comes before one that was active later.
pub open spec fn newest_first(s: Seq<RecordView>) -> bool {
    forall|i: int, j: int| 0 <= i < j < s.len() ==> s[i].timestamp >= s[j].timestamp
}

/// No id occurs twice.
pub open spec fn ids_distinct(s: Seq<RecordView>) -> bool {
    forall|i: int, j: int| 0 <= i < j < s.len() ==> s[i].id != s[j].id
}

/// No content occurs twice.
pub open spec fn identities_distinct(s: Seq<RecordView>) -> bool {
    forall|i: int, j: int|
        0 <= i < j < s.len() ==> !same_identity(s[i], s[j].content_type, s[j].content)
}

/// What every history satisfies.
pub open spec fn valid_history(s: Seq<RecordView>) -> bool {
    &&& newest_first(s)
    &&& ids_distinct(s)
    &&& identities_distinct(s)
}

/// No id in `s` is above `bound`.
pub open spec fn ids_at_most(s: Seq<RecordView>, bound: i64) -> bool {
    forall|i: int| 0 <= i < s.len() ==> (#[trigger] s[i]).id <= bound
}

/// Some record holds this content.
pub open spec fn holds_identity(s: Seq<RecordView>, content_type: ContentTypes, content: Seq<u8>) -> bool {
    exists|i: int| 0 <= i < s.len() && same_identity(#[trigger] s[i], content_type, content)
}

/// Where the record with this content stands, if one does.
pub open spec fn identity_position(
    s: Seq<RecordView>,
    content_type: ContentTypes,
    content: Seq<u8>,
) -> int {
    choose|i: int| 0 <= i < s.len() && same_identity(#[trigger] s[i], content_type, content)
}

/// Some record has this id.
pub open spec fn holds_id(s: Seq<RecordView>, id: i64) -> bool {
    exists|i: int| 0 <= i < s.len() && (#[trigger] s[i]).id == id
}

/// Where the record with this id stands, if one does.
pub open spec fn id_position(s: Seq<RecordView>, id: i64) -> int {
    choose|i: int| 0 <= i < s.len() && (#[trigger] s[i]).id == id
}

/// How many records at the head of `s` were active strictly after `timestamp`.
pub open spec fn rank(s: Seq<RecordView>, timestamp: i64) -> int
    decreases s.len(),
{
    if s.len() > 0 && s[0].timestamp > timestamp {
        1 + rank(s.drop_first(), timestamp)
    } else {
        0
    }
}

/// `s` with `r` put in behind every record that is strictly newer, and so in
/// front of those with the same timestamp: of two records active in the same
/// second, the one written last comes first.
pub open spec fn place(s: Seq<RecordView>, r: RecordView) -> Seq<RecordView> {
    s.insert(rank(s, r.timestamp), r)
}

/// The history after a capture of `content` made while `source_app` had the
/// focus: the record with this content, if there is one, keeps its id, takes
/// the new context and timestamp and moves to its new place; otherwise a
/// record with `fresh_id` is put in.
pub open spec fn upserted(
    s: Seq<RecordView>,
    content_type: ContentTypes,
    content: Seq<u8>,
    source_app: Seq<char>,
    icon_path: Seq<char>,
    now: i64,
    fresh_id: i64,
) -> Seq<RecordView> {
    if holds_identity(s, content_type, content) {
        let i = identity_position(s, content_type, content);
        place(
            s.remove(i),
            RecordView { source_app, icon_path, timestamp: now, ..s[i] },
        )
    } else {
        place(
            s,
            RecordView { id: fresh_id, source_app, icon_path, content_type, content, timestamp: now },
        )
    }
}

/// The id under which the content stands after [`upserted`].
pub open spec fn upserted_id(
    s: Seq<RecordView>,
    content_type: ContentTypes,
    content: Seq<u8>,
    fresh_id: i64,
) -> i64 {
    if holds_identity(s, content_type, content) {
        s[identity_position(s, content_type, content)].id
    } else {
        fresh_id
    }
}

/// The history after the record `id` was used again at `now`: that record
/// takes the new timestamp and moves to its new place. A history without
/// such a record stays as it is.
pub open spec fn touched(s: Seq<RecordView>, id: i64, now: i64) -> Seq<RecordView> {
    if holds_id(s, id) {
        let i = id_position(s, id);
        place(s.remove(i), RecordView { timestamp: now, ..s[i] })
    } else {
        s
    }
}

/// The first `limit` records; none for a limit of zero or less.
pub open spec fn recent(s: Seq<RecordView>, limit: i64) -> Seq<RecordView> {
    if limit <= 0 {
        Seq::empty()
    } else if limit >= s.len() {
        s
    } else {
        s.take(limit as int)
    }
}

/// The record is text and `term` lies in it, up to the case of ASCII letters.
pub open spec fn is_match(r: RecordView, term: Seq<u8>) -> bool {
    r.content_type == ContentTypes::TEXT && contains_folded(r.content, term)
}

/// The records that match `term`, in the order of the history.
pub open spec fn found(s: Seq<RecordView>, term: Seq<u8>) -> Seq<RecordView>
    decreases s.len(),
{
    if s.len() == 0 {
        Seq::empty()
    } else {
        let earlier = found(s.drop_last(), term);
        if is_match(s.last(), term) {
            earlier.push(s.last())
        } else {
            earlier
        }
    }
}

/// [`rank`] is a position in `s`, every record before it is strictly newer
/// than `timestamp`, and the record at it, if any, is not.
pub proof fn lemma_rank(s: Seq<RecordView>, timestamp: i64)
    ensures
        0 <= rank(s, timestamp) <= s.len(),
        forall|i: int| 0 <= i < rank(s, timestamp) ==> s[i].timestamp > timestamp,
        rank(s, timestamp) < s.len() ==> s[rank(s, timestamp)].timestamp <= timestamp,
    decreases s.len(),
{
    if s.len() > 0 && s[0].timestamp > timestamp {
        let t = s.drop_first();
        lemma_rank(t, timestamp);
        assert forall|i: int| 0 <= i < rank(s, timestamp) implies s[i].timestamp > timestamp by {
            if i > 0 {
                assert(s[i] == t[i - 1]);
            }
        }
        if rank(s, timestamp) < s.len() {
            assert(s[rank(s, timestamp)] == t[rank(t, timestamp)]);
        }
    }
}

/// A position of which [`lemma_rank`]'s two statements hold is the rank.
pub proof fn lemma_rank_unique(s: Seq<RecordView>, timestamp: i64, k: int)
    requires
        0 <= k <= s.len(),
        forall|i: int| 0 <= i < k ==> s[i].timestamp > timestamp,
        k < s.len() ==> s[k].timestamp <= timestamp,
    ensures
        rank(s, timestamp) == k,
{
    lemma_rank(s, timestamp);
}

/// Placing a record whose id and content are new keeps a history valid.
pub proof fn lemma_place_valid(s: Seq<RecordView>, r: RecordView)
    requires
        valid_history(s),
        !holds_id(s, r.id),
        !holds_identity(s, r.content_type, r.content),
    ensures
        valid_history(place(s, r)),
        place(s, r).len() == s.len() + 1,
        0 <= rank(s, r.timestamp) <= s.len(),
        place(s, r)[rank(s, r.timestamp)] == r,
{
    lemma_rank(s, r.timestamp);
    let k = rank(s, r.timestamp);
    let p = place(s, r);
    assert forall|i: int| 0 <= i < s.len() implies (#[trigger] s[i]).id != r.id && !same_identity(
        s[i],
        r.content_type,
        r.content,
    ) by {}
    assert forall|i: int, j: int| 0 <= i < j < p.len() implies p[i].timestamp
        >= p[j].timestamp by {
        if j < k {
        } else if j == k {
        } else if i < k {
            assert(s[i].timestamp > r.timestamp);
            assert(k < s.len());
            assert(s[k].timestamp >= s[j - 1].timestamp || k == j - 1);
        } else if i == k {
            assert(s[k].timestamp >= s[j - 1].timestamp || k == j - 1);
        } else {
        }
    }
    assert forall|i: int, j: int| 0 <= i < j < p.len() implies p[i].id != p[j].id by {
        let a = if i < k { i } else { i - 1 };
        let b = if j < k { j } else { j - 1 };
        if i != k && j != k {
            assert(s[a].id != s[b].id);
        } else if i == k {
            assert(s[b].id != r.id);
        } else {
            assert(s[a].id != r.id);
        }
    }
    assert forall|i: int, j: int| 0 <= i < j < p.len() implies !same_identity(
        p[i],
        p[j].content_type,
        p[j].content,
    ) by {
        let a = if i < k { i } else { i - 1 };
        let b = if j < k { j } else { j - 1 };
        if i != k && j != k {
            assert(!same_identity(s[a], s[b].content_type, s[b].content));
        } else if i == k {
            assert(!same_identity(s[b], r.content_type, r.content));
        } else {
            assert(!same_identity(s[a], r.content_type, r.content));
        }
    }
}

/// Taking a record out keeps a history valid, and neither its id nor its
/// content is left behind.
pub proof fn lemma_remove_valid(s: Seq<RecordView>, i: int)
    requires
        valid_history(s),
        0 <= i < s.len(),
    ensures
        valid_history(s.remove(i)),
        s.remove(i).len() == s.len() - 1,
        !holds_id(s.remove(i), s[i].id),
        !holds_identity(s.remove(i), s[i].content_type, s[i].content),
{
    let t = s.remove(i);
    assert forall|a: int| 0 <= a < t.len() implies #[trigger] t[a] == s[if a < i { a } else { a + 1 }] by {}
    assert forall|a: int, b: int| 0 <= a < b < t.len() implies t[a].timestamp >= t[b].timestamp by {
        let a2 = if a < i { a } else { a + 1 };
        let b2 = if b < i { b } else { b + 1 };
        assert(s[a2].timestamp >= s[b2].timestamp);
    }
    assert forall|a: int, b: int| 0 <= a < b < t.len() implies t[a].id != t[b].id by {
        let a2 = if a < i { a } else { a + 1 };
        let b2 = if b < i { b } else { b + 1 };
        assert(s[a2].id != s[b2].id);
    }
    assert forall|a: int, b: int| 0 <= a < b < t.len() implies !same_identity(
        t[a],
        t[b].content_type,
        t[b].content,
    ) by {
        let a2 = if a < i { a } else { a + 1 };
        let b2 = if b < i { b } else { b + 1 };
        assert(!same_identity(s[a2], s[b2].content_type, s[b2].content));
    }
    assert forall|a: int| 0 <= a < t.len() implies (#[trigger] t[a]).id != s[i].id by {
        let a2 = if a < i { a } else { a + 1 };
        if a2 < i {
            assert(s[a2].id != s[i].id);
        } else {
            assert(s[i].id != s[a2].id);
        }
    }
    assert forall|a: int| 0 <= a < t.len() implies !same_identity(
        #[trigger] t[a],
        s[i].content_type,
        s[i].content,
    ) by {
        let a2 = if a < i { a } else { a + 1 };
        if a2 < i {
            assert(!same_identity(s[a2], s[i].content_type, s[i].content));
        } else {
            assert(!same_identity(s[i], s[a2].content_type, s[a2].content));
        }
    }
}

/// Placing a record keeps the ids under a bound that the record respects.
pub proof fn lemma_place_ids_at_most(s: Seq<RecordView>, r: RecordView, bound: i64)
    requires
        ids_at_most(s, bound),
        r.id <= bound,
    ensures
        ids_at_most(place(s, r), bound),
{
    lemma_rank(s, r.timestamp);
    let k = rank(s, r.timestamp);
    let p = place(s, r);
    assert forall|a: int| 0 <= a < p.len() implies (#[trigger] p[a]).id <= bound by {
        if a < k {
            assert(p[a] == s[a]);
        } else if a > k {
            assert(p[a] == s[a - 1]);
        }
    }
}

/// Taking a record out keeps the ids under their bound.
pub proof fn lemma_remove_ids_at_most(s: Seq<RecordView>, i: int, bound: i64)
    requires
        ids_at_most(s, bound),
        0 <= i < s.len(),
    ensures
        ids_at_most(s.remove(i), bound),
{
    let t = s.remove(i);
    assert forall|a: int| 0 <= a < t.len() implies (#[trigger] t[a]).id <= bound by {
        assert(t[a] == s[if a < i { a } else { a + 1 }]);
    }
}

/// In a valid history the content is held at one position only.
pub proof fn lemma_identity_position(
    s: Seq<RecordView>,
    content_type: ContentTypes,
    content: Seq<u8>,
    i: int,
)
    requires
        identities_distinct(s),
        0 <= i < s.len(),
        same_identity(s[i], content_type, content),
    ensures
        holds_identity(s, content_type, content),
        identity_position(s, content_type, content) == i,
{
    let j = identity_position(s, content_type, content);
    if j < i {
        assert(!same_identity(s[j], s[i].content_type, s[i].content));
    } else if i < j {
        assert(!same_identity(s[i], s[j].content_type, s[j].content));
    }
}

/// In a valid history the id is held at one position only.
pub proof fn lemma_id_position(s: Seq<RecordView>, id: i64, i: int)
    requires
        ids_distinct(s),
        0 <= i < s.len(),
        s[i].id == id,
    ensures
        holds_id(s, id),
        id_position(s, id) == i,
{
    let j = id_position(s, id);
    if j < i {
        assert(s[j].id != s[i].id);
    } else if i < j {
        assert(s[i].id != s[j].id);
    }
}

/// What [`upserted`] gives for a valid history and, where the content is
/// new to it, an id that is new to it too:
/// a valid history that holds the content once, in a record with the given
/// context and timestamp, under the id of [`upserted_id`].
pub proof fn lemma_upserted(
    s: Seq<RecordView>,
    content_type: ContentTypes,
    content: Seq<u8>,
    source_app: Seq<char>,
    icon_path: Seq<char>,
    now: i64,
    fresh_id: i64,
)
    requires
        valid_history(s),
        holds_identity(s, content_type, content) || !holds_id(s, fresh_id),
    ensures
        ({
            let after = upserted(s, content_type, content, source_app, icon_path, now, fresh_id);
            let at = identity_position(after, content_type, content);
            &&& valid_history(after)
            &&& holds_identity(after, content_type, content)
            &&& 0 <= at < after.len()
            &&& after[at] == RecordView {
                id: upserted_id(s, content_type, content, fresh_id),
                source_app,
                icon_path,
                content_type,
                content,
                timestamp: now,
            }
            &&& after.len() == if holds_identity(s, content_type, content) {
                s.len()
            } else {
                s.len() + 1
            }
        }),
{
    let after = upserted(s, content_type, content, source_app, icon_path, now, fresh_id);
    if holds_identity(s, content_type, content) {
        let i = identity_position(s, content_type, content);
        let rest = s.remove(i);
        let r = RecordView { source_app, icon_path, timestamp: now, ..s[i] };
        lemma_remove_valid(s, i);
        lemma_place_valid(rest, r);
        lemma_identity_position(after, content_type, content, rank(rest, now));
        assert(r.content == content);
    } else {
        let r = RecordView { id: fresh_id, source_app, icon_path, content_type, content, timestamp: now };
        lemma_place_valid(s, r);
        lemma_identity_position(after, content_type, content, rank(s, now));
    }
}

/// What [`touched`] gives for a valid history that holds the id: a valid
/// history of the same length in which the record differs from what it was
/// in its timestamp only, and in which every other record is still found.
pub proof fn lemma_touched(s: Seq<RecordView>, id: i64, now: i64)
    requires
        valid_history(s),
        holds_id(s, id),
    ensures
        ({
            let after = touched(s, id, now);
            let was = s[id_position(s, id)];
            let at = id_position(after, id);
            &&& valid_history(after)
            &&& after.len() == s.len()
            &&& holds_id(after, id)
            &&& 0 <= at < after.len()
            &&& after[at] == RecordView { timestamp: now, ..was }
            &&& forall|i: int| 0 <= i < s.len() && (#[trigger] s[i]).id != id ==> after.contains(s[i])
        }),
{
    let i = id_position(s, id);
    let rest = s.remove(i);
    let r = RecordView { timestamp: now, ..s[i] };
    let after = touched(s, id, now);
    lemma_remove_valid(s, i);
    lemma_place_valid(rest, r);
    let k = rank(rest, now);
    lemma_id_position(after, id, k);
    assert forall|a: int| 0 <= a < s.len() && (#[trigger] s[a]).id != id implies after.contains(
        s[a],
    ) by {
        let b = if a < i { a } else { a - 1 };
        assert(rest[b] == s[a]);
        let c = if b < k { b } else { b + 1 };
        assert(after[c] == s[a]);
    }
}

/// What [`found`] holds: matches only, each of them a record of the
/// history, and every match of the history; it keeps the order, and it
/// holds no id and no content twice where the history holds none twice.
pub proof fn lemma_found(s: Seq<RecordView>, term: Seq<u8>)
    ensures
        found(s, term).len() <= s.len(),
        forall|k: int|
            0 <= k < found(s, term).len() ==> is_match(#[trigger] found(s, term)[k], term)
                && s.contains(found(s, term)[k]),
        forall|i: int|
            0 <= i < s.len() && is_match(#[trigger] s[i], term) ==> found(s, term).contains(s[i]),
        newest_first(s) ==> newest_first(found(s, term)),
        ids_distinct(s) ==> ids_distinct(found(s, term)),
        identities_distinct(s) ==> identities_distinct(found(s, term)),
    decreases s.len(),
{
    if s.len() > 0 {
        let d = s.drop_last();
        let e = found(d, term);
        let f = found(s, term);
        lemma_found(d, term);
        if ids_distinct(s) {
            assert forall|a: int, b: int| 0 <= a < b < d.len() implies d[a].id != d[b].id by {
                assert(s[a].id != s[b].id);
            }
            assert forall|a: int, b: int| 0 <= a < b < f.len() implies f[a].id != f[b].id by {
                if b < e.len() {
                    assert(e[a].id != e[b].id);
                } else {
                    assert(d.contains(e[a]));
                    let i = choose|i: int| 0 <= i < d.len() && d[i] == e[a];
                    assert(s[i].id != s[s.len() - 1].id);
                }
            }
        }
        if identities_distinct(s) {
            assert forall|a: int, b: int| 0 <= a < b < d.len() implies !same_identity(
                d[a],
                d[b].content_type,
                d[b].content,
            ) by {
                assert(!same_identity(s[a], s[b].content_type, s[b].content));
            }
            assert forall|a: int, b: int| 0 <= a < b < f.len() implies !same_identity(
                f[a],
                f[b].content_type,
                f[b].content,
            ) by {
                if b < e.len() {
                    assert(!same_identity(e[a], e[b].content_type, e[b].content));
                } else {
                    assert(d.contains(e[a]));
                    let i = choose|i: int| 0 <= i < d.len() && d[i] == e[a];
                    let last = s.len() - 1;
                    assert(!same_identity(s[i], s[last].content_type, s[last].content));
                }
            }
        }
        assert forall|k: int| 0 <= k < f.len() implies is_match(#[trigger] f[k], term)
            && s.contains(f[k]) by {
            if k < e.len() {
                assert(f[k] == e[k]);
                assert(d.contains(e[k]));
                let i = choose|i: int| 0 <= i < d.len() && d[i] == e[k];
                assert(s[i] == f[k]);
            } else {
                assert(f[k] == s[s.len() - 1]);
            }
        }
        assert forall|i: int| 0 <= i < s.len() && is_match(#[trigger] s[i], term) implies f.contains(
            s[i],
        ) by {
            if i < d.len() {
                assert(d[i] == s[i]);
                assert(e.contains(d[i]));
                let k = choose|k: int| 0 <= k < e.len() && e[k] == d[i];
                assert(f[k] == s[i]);
            } else {
                assert(f[e.len() as int] == s[i]);
            }
        }
        if newest_first(s) {
            assert forall|a: int, b: int| 0 <= a < b < d.len() implies d[a].timestamp
                >= d[b].timestamp by {
                assert(s[a].timestamp >= s[b].timestamp);
            }
            assert forall|a: int, b: int| 0 <= a < b < f.len() implies f[a].timestamp
                >= f[b].timestamp by {
                if b < e.len() {
                    assert(e[a].timestamp >= e[b].timestamp);
                } else {
                    assert(d.contains(e[a]));
                    let i = choose|i: int| 0 <= i < d.len() && d[i] == e[a];
                    assert(s[i].timestamp >= s[s.len() - 1].timestamp);
                }
            }
        }
    }
}

/// What [`recent`] holds: a prefix of the history, of `limit` records where
/// there are that many, and so in the order of the history and without a
/// record that the history does not hold.
pub proof fn lemma_recent(s: Seq<RecordView>, limit: i64)
    ensures
        recent(s, limit).len() == if limit <= 0 {
            0
        } else if limit >= s.len() {
            s.len() as int
        } else {
            limit as int
        },
        forall|k: int| 0 <= k < recent(s, limit).len() ==> #[trigger] recent(s, limit)[k] == s[k],
        newest_first(s) ==> newest_first(recent(s, limit)),
        ids_distinct(s) ==> ids_distinct(recent(s, limit)),
        identities_distinct(s) ==> identities_distinct(recent(s, limit)),
{
    let r = recent(s, limit);
    if ids_distinct(s) {
        assert forall|a: int, b: int| 0 <= a < b < r.len() implies r[a].id != r[b].id by {
            assert(s[a].id != s[b].id);
        }
    }
    if identities_distinct(s) {
        assert forall|a: int, b: int| 0 <= a < b < r.len() implies !same_identity(
            r[a],
            r[b].content_type,
            r[b].content,
        ) by {
            assert(!same_identity(s[a], s[b].content_type, s[b].content));
        }
    }
    if newest_first(s) {
        assert forall|a: int, b: int| 0 <= a < b < r.len() implies r[a].timestamp
            >= r[b].timestamp by {
            assert(s[a].timestamp >= s[b].timestamp);
        }
    }
}

} // verus!
