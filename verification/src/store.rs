//! The history store: the one owner of the captured records.

use vstd::prelude::*;
use vstd::utf8::encode_utf8;
use crate::history::{
    found, holds_id, holds_identity, id_position, ids_at_most, lemma_id_position,
    lemma_identity_position, lemma_place_ids_at_most, lemma_place_valid, lemma_rank_unique,
    lemma_remove_ids_at_most, lemma_remove_valid, place, recent, same_identity, touched,
    upserted, upserted_id, valid_history,
};
use crate::matching::{contains_ignoring_case, same_bytes};
use crate::record::{ContentTypes, HistoryRecord, RecordView};

verus! {

/// The records of a vector, each as the contracts see it.
pub open spec fn views(records: Seq<HistoryRecord>) -> Seq<RecordView> {
    records.map_values(|r: HistoryRecord| r@)
}

/// Why the store did not do what was asked.
#[derive(Clone, Copy, Debug, PartialEq, Eq, Structural)]
pub enum StoreError {
    /// No record has the id that was given.
    NotFound,
    /// Every id has been handed out; new content can no longer be taken in.
    Exhausted,
}

/// What [`HistoryStore::upsert`] makes of a store and returns.
///
/// Content that the store holds keeps its record and id; the record takes
/// the new context and timestamp. Other content gets a record under the
/// next id, one above the highest handed out so far. Where the content is
/// new and no id is left, the store stays as it is and
/// [`StoreError::Exhausted`] is returned.
pub open spec fn upsert_outcome(
    before: HistoryStore,
    after: HistoryStore,
    r: Result<i64, StoreError>,
    content_type: ContentTypes,
    content: Seq<u8>,
    source_app: Seq<char>,
    icon_path: Seq<char>,
    now: i64,
) -> bool {
    let known = holds_identity(before@, content_type, content);
    if !known && before.last_id() == i64::MAX {
        &&& r == Err::<i64, StoreError>(StoreError::Exhausted)
        &&& after@ == before@
        &&& after.last_id() == before.last_id()
    } else {
        let fresh = (before.last_id() + 1) as i64;
        &&& r == Ok::<i64, StoreError>(upserted_id(before@, content_type, content, fresh))
        &&& after@ == upserted(before@, content_type, content, source_app, icon_path, now, fresh)
        &&& after.last_id() == if known {
            before.last_id()
        } else {
            fresh
        }
    }
}

/// The captured records, newest first, and the highest id handed out so far.
pub struct HistoryStore {
    records: Vec<HistoryRecord>,
    last_id: i64,
}

impl View for HistoryStore {
    type V = Seq<RecordView>;

    closed spec fn view(&self) -> Seq<RecordView> {
        views(self.records@)
    }
}

impl HistoryStore {
    /// The highest id handed out so far; zero while none has been.
    pub closed spec fn last_id(&self) -> i64 {
        self.last_id
    }

    /// The store holds a valid history, and no record has an id that is yet
    /// to be handed out.
    pub open spec fn wf(&self) -> bool {
        &&& valid_history(self@)
        &&& ids_at_most(self@, self.last_id())
        &&& self.last_id() >= 0
    }

    /// An empty store. The first record it takes in gets the id 1.
    pub fn new() -> (store: Self)
        ensures
            store.wf(),
            store@ == Seq::<RecordView>::empty(),
            store.last_id() == 0,
    {
        let store = HistoryStore { records: Vec::new(), last_id: 0 };
        assert(store@ =~= Seq::<RecordView>::empty());
        store
    }

    /// The number of records.
    pub fn len(&self) -> (n: usize)
        ensures
            n == self@.len(),
    {
        self.records.len()
    }

    fn find_identity(&self, content_type: ContentTypes, content: &[u8]) -> (r: Option<usize>)
        ensures
            match r {
                Some(i) => i < self@.len() && same_identity(self@[i as int], content_type, content@),
                None => !holds_identity(self@, content_type, content@),
            },
    {
        let mut i: usize = 0;
        while i < self.records.len()
            invariant
                i <= self.records@.len(),
                forall|j: int| 0 <= j < i ==> !same_identity(#[trigger] self@[j], content_type, content@),
            decreases self.records@.len() - i,
        {
            if self.records[i].content_type == content_type && same_bytes(
                self.records[i].content.as_slice(),
                content,
            ) {
                return Some(i);
            }
            i += 1;
        }
        None
    }

    fn find_id(&self, id: i64) -> (r: Option<usize>)
        ensures
            match r {
                Some(i) => i < self@.len() && self@[i as int].id == id,
                None => !holds_id(self@, id),
            },
    {
        let mut i: usize = 0;
        while i < self.records.len()
            invariant
                i <= self.records@.len(),
                forall|j: int| 0 <= j < i ==> (#[trigger] self@[j]).id != id,
            decreases self.records@.len() - i,
        {
            if self.records[i].id == id {
                return Some(i);
            }
            i += 1;
        }
        None
    }

    fn insert_ordered(&mut self, record: HistoryRecord)
        ensures
            final(self)@ == place(old(self)@, record@),
            final(self).last_id() == old(self).last_id(),
    {
        let mut at: usize = 0;
        while at < self.records.len() && self.records[at].timestamp > record.timestamp
            invariant
                at <= self.records@.len(),
                forall|j: int| 0 <= j < at ==> (#[trigger] self@[j]).timestamp > record.timestamp,
            decreases self.records@.len() - at,
        {
            at += 1;
        }
        proof {
            lemma_rank_unique(self@, record.timestamp, at as int);
        }
        let ghost before = self@;
        let ghost added = record@;
        self.records.insert(at, record);
        assert(self@ =~= before.insert(at as int, added));
    }

    /// Takes in a capture: content that the history already holds keeps its
    /// record and id, which takes the new context and `now` as its
    /// timestamp; other content gets a new record with the next id.
    ///
    /// Returns the id under which the content now stands. Fails only where
    /// the content is new and no id is left to give it.
    pub fn upsert(
        &mut self,
        content_type: ContentTypes,
        content: Vec<u8>,
        source_app: String,
        icon_path: String,
        now: i64,
    ) -> (r: Result<i64, StoreError>)
        requires
            old(self).wf(),
        ensures
            final(self).wf(),
            upsert_outcome(
                *old(self),
                *final(self),
                r,
                content_type,
                content@,
                source_app@,
                icon_path@,
                now,
            ),
    {
        let ghost before = self@;
        match self.find_identity(content_type, content.as_slice()) {
            Some(i) => {
                proof {
                    lemma_identity_position(before, content_type, content@, i as int);
                    lemma_remove_valid(before, i as int);
                    lemma_remove_ids_at_most(before, i as int, self.last_id());
                }
                let mut record = self.records.remove(i);
                assert(self@ =~= before.remove(i as int));
                let id = record.id;
                record.source_app = source_app;
                record.icon_path = icon_path;
                record.timestamp = now;
                proof {
                    lemma_place_valid(self@, record@);
                    lemma_place_ids_at_most(self@, record@, self.last_id());
                }
                self.insert_ordered(record);
                Ok(id)
            },
            None => {
                if self.last_id == i64::MAX {
                    return Err(StoreError::Exhausted);
                }
                let id = self.last_id + 1;
                let record = HistoryRecord {
                    id,
                    source_app,
                    icon_path,
                    content_type,
                    content,
                    timestamp: now,
                };
                self.last_id = id;
                proof {
                    assert(self@ == before);
                    assert forall|a: int| 0 <= a < before.len() implies (#[trigger] before[a]).id
                        != id by {}
                    lemma_place_valid(before, record@);
                    lemma_place_ids_at_most(before, record@, id);
                }
                self.insert_ordered(record);
                Ok(id)
            },
        }
    }

    /// Marks the record `id` as used again at `now`: its timestamp becomes
    /// `now` and it moves to its new place; nothing else about it changes.
    ///
    /// Fails, and changes nothing, where no record has this id.
    pub fn touch(&mut self, id: i64, now: i64) -> (r: Result<(), StoreError>)
        requires
            old(self).wf(),
        ensures
            final(self).wf(),
            final(self)@ == touched(old(self)@, id, now),
            final(self).last_id() == old(self).last_id(),
            r is Ok <==> holds_id(old(self)@, id),
            r is Err ==> r == Err::<(), StoreError>(StoreError::NotFound),
    {
        let ghost before = self@;
        match self.find_id(id) {
            Some(i) => {
                proof {
                    lemma_id_position(before, id, i as int);
                    lemma_remove_valid(before, i as int);
                    lemma_remove_ids_at_most(before, i as int, self.last_id());
                }
                let mut record = self.records.remove(i);
                assert(self@ =~= before.remove(i as int));
                record.timestamp = now;
                proof {
                    lemma_place_valid(self@, record@);
                    lemma_place_ids_at_most(self@, record@, self.last_id());
                }
                self.insert_ordered(record);
                Ok(())
            },
            None => Err(StoreError::NotFound),
        }
    }

    /// The record with this id, if there is one.
    pub fn get(&self, id: i64) -> (r: Option<HistoryRecord>)
        requires
            self.wf(),
        ensures
            r is Some <==> holds_id(self@, id),
            r matches Some(record) ==> record@ == self@[id_position(self@, id)],
    {
        match self.find_id(id) {
            Some(i) => {
                proof {
                    lemma_id_position(self@, id, i as int);
                }
                Some(self.records[i].clone())
            },
            None => None,
        }
    }

    /// Every record, newest first.
    pub fn list_all(&self) -> (out: Vec<HistoryRecord>)
        ensures
            views(out@) == self@,
    {
        let mut out: Vec<HistoryRecord> = Vec::new();
        let mut i: usize = 0;
        while i < self.records.len()
            invariant
                i <= self.records@.len(),
                views(out@) =~= self@.take(i as int),
            decreases self.records@.len() - i,
        {
            let ghost listed = views(out@);
            out.push(self.records[i].clone());
            assert(views(out@) =~= listed.push(self@[i as int]));
            assert(self@.take(i + 1) =~= self@.take(i as int).push(self@[i as int]));
            i += 1;
        }
        assert(self@.take(i as int) =~= self@);
        out
    }

    /// The `limit` newest records, newest first; all of them where the
    /// store holds no more than `limit`, none where `limit` is zero or less.
    pub fn list_recent(&self, limit: i64) -> (out: Vec<HistoryRecord>)
        ensures
            views(out@) == recent(self@, limit),
    {
        let mut out: Vec<HistoryRecord> = Vec::new();
        let mut i: usize = 0;
        let mut taken: i64 = 0;
        while i < self.records.len() && taken < limit
            invariant
                i <= self.records@.len(),
                taken == i,
                taken <= limit || i == 0,
                views(out@) =~= self@.take(i as int),
            decreases self.records@.len() - i,
        {
            let ghost listed = views(out@);
            out.push(self.records[i].clone());
            assert(views(out@) =~= listed.push(self@[i as int]));
            assert(self@.take(i + 1) =~= self@.take(i as int).push(self@[i as int]));
            i += 1;
            taken += 1;
        }
        proof {
            if limit <= 0 {
                assert(views(out@) =~= Seq::<RecordView>::empty());
            } else if limit >= self@.len() {
                assert(self@.take(i as int) =~= self@);
            }
        }
        out
    }

    /// The text records in which `term` occurs, newest first. The case of
    /// ASCII letters is ignored; every other character must agree exactly.
    /// Images are never returned.
    pub fn search(&self, term: &str) -> (out: Vec<HistoryRecord>)
        ensures
            views(out@) == found(self@, encode_utf8(term@)),
    {
        let needle = term.as_bytes();
        let mut out: Vec<HistoryRecord> = Vec::new();
        let mut i: usize = 0;
        while i < self.records.len()
            invariant
                i <= self.records@.len(),
                needle@ == encode_utf8(term@),
                views(out@) =~= found(self@.take(i as int), needle@),
            decreases self.records@.len() - i,
        {
            proof {
                assert(self@.take(i + 1).drop_last() =~= self@.take(i as int));
                assert(self@.take(i + 1).last() == self@[i as int]);
            }
            let is_text = match self.records[i].content_type {
                ContentTypes::TEXT => true,
                ContentTypes::IMAGE => false,
            };
            if is_text && contains_ignoring_case(self.records[i].content.as_slice(), needle) {
                out.push(self.records[i].clone());
            }
            i += 1;
        }
        assert(self@.take(i as int) =~= self@);
        out
    }

    /// Puts back a record that was saved earlier, with the id it had.
    ///
    /// Returns whether it was taken in: a record whose id or whose content
    /// the store already holds is refused, and the store stays as it is.
    pub fn restore(&mut self, record: HistoryRecord) -> (taken: bool)
        requires
            old(self).wf(),
        ensures
            final(self).wf(),
            taken == (!holds_id(old(self)@, record.id) && !holds_identity(
                old(self)@,
                record.content_type,
                record.content@,
            )),
            taken ==> final(self)@ == place(old(self)@, record@) && final(self).last_id() == (
            if record.id > old(self).last_id() {
                record.id
            } else {
                old(self).last_id()
            }),
            !taken ==> final(self)@ == old(self)@ && final(self).last_id() == old(self).last_id(),
    {
        let ghost before = self@;
        if self.find_id(record.id).is_some() {
            return false;
        }
        if self.find_identity(record.content_type, record.content.as_slice()).is_some() {
            return false;
        }
        if record.id > self.last_id {
            self.last_id = record.id;
        }
        proof {
            assert(self@ == before);
            lemma_place_valid(before, record@);
            lemma_place_ids_at_most(before, record@, self.last_id());
        }
        self.insert_ordered(record);
        true
    }
}

} // verus!
