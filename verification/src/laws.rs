//! What holds of the history whatever is captured, in whatever order.
//!
//! Each statement here is proved from the definitions in
//! [`crate::history`] and [`crate::monitor`], which the executable
//! functions are proved to follow.

use vstd::prelude::*;
use crate::history::{
    found, holds_id, holds_identity, id_position, identity_position, ids_distinct, is_match,
    lemma_found, lemma_recent, lemma_touched, lemma_upserted, newest_first, recent,
    same_identity, touched, upserted, upserted_id, valid_history,
};
use crate::monitor::{
    sensitive_source, stepped, untouched, writes, MonitorAction, MonitorEvent, MonitorPhase,
    MonitorView,
};
use crate::record::{ContentTypes, RecordView};
use crate::store::{upsert_outcome, HistoryStore, StoreError};

verus! {

/// Of two records with different timestamps, the one with the later
/// timestamp stands before the other.
pub open spec fn later_stands_before(s: Seq<RecordView>) -> bool {
    forall|a: int, b: int|
        0 <= a < s.len() && 0 <= b < s.len() && s[a].timestamp > s[b].timestamp ==> a < b
}

/// Content that is captured twice stands in the history once: the second
/// capture leaves the number of records as the first left it, exactly one
/// record holds the content, that record has the id it got at the first
/// capture, and its context and timestamp are those of the second.
pub proof fn recapture_keeps_one_record(
    s: Seq<RecordView>,
    content_type: ContentTypes,
    content: Seq<u8>,
    first_app: Seq<char>,
    first_icon: Seq<char>,
    first_now: i64,
    first_id: i64,
    second_app: Seq<char>,
    second_icon: Seq<char>,
    second_now: i64,
    second_id: i64,
)
    requires
        valid_history(s),
        !holds_id(s, first_id),
    ensures
        ({
            let once = upserted(s, content_type, content, first_app, first_icon, first_now, first_id);
            let twice = upserted(
                once,
                content_type,
                content,
                second_app,
                second_icon,
                second_now,
                second_id,
            );
            let at = identity_position(twice, content_type, content);
            &&& valid_history(twice)
            &&& twice.len() == once.len()
            &&& 0 <= at < twice.len()
            &&& forall|i: int|
                0 <= i < twice.len() ==> (same_identity(#[trigger] twice[i], content_type, content)
                    <==> i == at)
            &&& twice[at].id == upserted_id(s, content_type, content, first_id)
            &&& twice[at].id == once[identity_position(once, content_type, content)].id
            &&& twice[at].source_app == second_app
            &&& twice[at].icon_path == second_icon
            &&& twice[at].timestamp == second_now
        }),
{
    let once = upserted(s, content_type, content, first_app, first_icon, first_now, first_id);
    lemma_upserted(s, content_type, content, first_app, first_icon, first_now, first_id);
    let twice = upserted(once, content_type, content, second_app, second_icon, second_now, second_id);
    lemma_upserted(once, content_type, content, second_app, second_icon, second_now, second_id);
    let at = identity_position(twice, content_type, content);
    assert forall|i: int| 0 <= i < twice.len() implies (same_identity(
        #[trigger] twice[i],
        content_type,
        content,
    ) <==> i == at) by {
        if i < at {
            assert(!same_identity(twice[i], twice[at].content_type, twice[at].content));
        } else if at < i {
            assert(!same_identity(twice[at], twice[i].content_type, twice[i].content));
        }
    }
}

/// Content that is new to the store gets an id above every id that the
/// store holds or has handed out before: ids only grow and none is given
/// twice.
pub proof fn new_content_gets_a_higher_id(
    before: HistoryStore,
    after: HistoryStore,
    r: Result<i64, StoreError>,
    content_type: ContentTypes,
    content: Seq<u8>,
    source_app: Seq<char>,
    icon_path: Seq<char>,
    now: i64,
)
    requires
        before.wf(),
        !holds_identity(before@, content_type, content),
        upsert_outcome(before, after, r, content_type, content, source_app, icon_path, now),
    ensures
        r matches Ok(id) ==> {
            &&& id > before.last_id()
            &&& after.last_id() == id
            &&& forall|i: int| 0 <= i < before@.len() ==> (#[trigger] before@[i]).id < id
        },
{
}

/// In the whole history, in its newest records and in what a search
/// finds, a record with a later timestamp stands before one with an
/// earlier timestamp, and no record stands there twice.
pub proof fn later_records_come_first(s: Seq<RecordView>, limit: i64, term: Seq<u8>)
    requires
        valid_history(s),
    ensures
        later_stands_before(s),
        later_stands_before(recent(s, limit)),
        later_stands_before(found(s, term)),
        valid_history(recent(s, limit)),
        valid_history(found(s, term)),
{
    lemma_recent(s, limit);
    lemma_found(s, term);
    lemma_newest_first_orders(s);
    lemma_newest_first_orders(recent(s, limit));
    lemma_newest_first_orders(found(s, term));
}

proof fn lemma_newest_first_orders(s: Seq<RecordView>)
    requires
        newest_first(s),
    ensures
        later_stands_before(s),
{
    assert forall|a: int, b: int|
        0 <= a < s.len() && 0 <= b < s.len() && s[a].timestamp > s[b].timestamp implies a < b by {
        if b < a {
            assert(s[b].timestamp >= s[a].timestamp);
        }
    }
}

/// Using a record again at an instant not before its timestamp changes
/// nothing about it but the timestamp, which does not go back: the record
/// keeps its id, its kind, its content and its context. Every other record
/// stays in the history, and no record is added.
pub proof fn touch_changes_the_timestamp_only(s: Seq<RecordView>, id: i64, now: i64)
    requires
        valid_history(s),
        holds_id(s, id),
        now >= s[id_position(s, id)].timestamp,
    ensures
        ({
            let was = s[id_position(s, id)];
            let after = touched(s, id, now);
            let is = after[id_position(after, id)];
            &&& valid_history(after)
            &&& after.len() == s.len()
            &&& holds_id(after, id)
            &&& is.id == was.id
            &&& is.content_type == was.content_type
            &&& is.content == was.content
            &&& is.source_app == was.source_app
            &&& is.icon_path == was.icon_path
            &&& is.timestamp == now
            &&& is.timestamp >= was.timestamp
            &&& forall|i: int| 0 <= i < s.len() && (#[trigger] s[i]).id != id ==> after.contains(s[i])
        }),
{
    lemma_touched(s, id, now);
}

/// A search returns text records only, each of them a record of the
/// history in which the term occurs, and it returns every such record,
/// each of them once.
pub proof fn search_finds_the_matching_text(s: Seq<RecordView>, term: Seq<u8>)
    ensures
        forall|k: int|
            0 <= k < found(s, term).len() ==> {
                &&& (#[trigger] found(s, term)[k]).content_type == ContentTypes::TEXT
                &&& is_match(found(s, term)[k], term)
                &&& s.contains(found(s, term)[k])
            },
        forall|i: int|
            0 <= i < s.len() && is_match(#[trigger] s[i], term) ==> found(s, term).contains(s[i]),
        forall|i: int|
            0 <= i < s.len() && !is_match(#[trigger] s[i], term) ==> !found(s, term).contains(s[i]),
        ids_distinct(s) ==> ids_distinct(found(s, term)),
        valid_history(s) ==> valid_history(found(s, term)),
{
    lemma_found(s, term);
    let f = found(s, term);
    assert forall|i: int| 0 <= i < s.len() && !is_match(#[trigger] s[i], term) implies !f.contains(
        s[i],
    ) by {
        if f.contains(s[i]) {
            let k = choose|k: int| 0 <= k < f.len() && f[k] == s[i];
            assert(is_match(f[k], term));
        }
    }
}

/// A change that was announced as the program's own write is dropped: the
/// step that takes its report leaves the store as it is, asks for nothing
/// to be read, and uses the announcement up. Nothing that waited to be
/// kept is left, and nothing reported afterwards brings the monitor to
/// write until the next change.
pub proof fn announced_write_is_dropped(
    before: MonitorView,
    store_before: HistoryStore,
    now: i64,
    after: MonitorView,
    store_after: HistoryStore,
    action: MonitorAction,
)
    requires
        before.internal_write,
        stepped(
            before,
            store_before,
            MonitorEvent::ClipboardChanged,
            now,
            after,
            store_after,
            action,
        ),
    ensures
        untouched(store_before, store_after),
        action == MonitorAction::Wait,
        !after.internal_write,
        after.phase == MonitorPhase::Waiting,
        after.content == Seq::<u8>::empty(),
        forall|later: MonitorEvent| !writes(after, later),
{
}

/// A change made while an application that handles secrets has the focus
/// is dropped: the step that takes the report of its name leaves the store
/// as it is and asks for nothing, neither for the clipboard's content nor
/// for the application's icon. Where the monitor was asking for the name,
/// nothing reported afterwards brings it to write until the next change.
pub proof fn sensitive_source_is_dropped(
    before: MonitorView,
    store_before: HistoryStore,
    app_name: String,
    now: i64,
    after: MonitorView,
    store_after: HistoryStore,
    action: MonitorAction,
)
    requires
        sensitive_source(app_name@),
        stepped(
            before,
            store_before,
            MonitorEvent::FocusResolved(app_name),
            now,
            after,
            store_after,
            action,
        ),
    ensures
        untouched(store_before, store_after),
        action == MonitorAction::Wait,
        before.phase == MonitorPhase::AwaitingFocus ==> after.phase == MonitorPhase::Waiting
            && forall|later: MonitorEvent| !writes(after, later),
{
}

/// The icon of the focused application is asked for only once there is
/// content to keep: the monitor asks for it in answer to a text or a
/// picture that it was asking for, and to nothing else.
pub proof fn icon_is_asked_for_content_only(
    before: MonitorView,
    store_before: HistoryStore,
    event: MonitorEvent,
    now: i64,
    after: MonitorView,
    store_after: HistoryStore,
    action: MonitorAction,
)
    requires
        stepped(before, store_before, event, now, after, store_after, action),
    ensures
        action == MonitorAction::ResolveIcon <==> (before.phase == MonitorPhase::AwaitingText
            && event matches MonitorEvent::TextRead(Some(_))) || (before.phase
            == MonitorPhase::AwaitingImage && event matches MonitorEvent::ImageRead(Some(_))),
        action == MonitorAction::ResolveIcon ==> after.phase == MonitorPhase::AwaitingIcon
            && untouched(store_before, store_after),
{
}

} // verus!
