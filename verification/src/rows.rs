//! Records as they lie in the persisted table, and how they are read back.
//!
//! A row of the table `history` has the columns `id`, `source_app`,
//! `icon_path`, `content_type` (`'TEXT'` or `'IMAGE'`), `content` and
//! `timestamp` (UTC, `YYYY-MM-DD HH:MM:SS`). Reading a row repairs what can
//! be repaired: content held in an unexpected way counts as empty, and a
//! timestamp that cannot be read is replaced by the present instant.

use vstd::prelude::*;
use crate::codec::{shown, to_item};
use crate::matching::same_text;
use crate::outside::{current_timestamp, parse_timestamp, parsed_timestamp};
use crate::history::{holds_id, holds_identity, place};
use crate::record::{ContentTypes, HistoryRecord, Item, RecordView};
use crate::store::HistoryStore;

verus! {

/// The pattern of the `timestamp` column.
pub const TIMESTAMP_FORMAT: &'static str = "%Y-%m-%d %H:%M:%S";

/// How the table holds the `content` of a row.
#[derive(Debug)]
pub enum StoredValue {
    /// As a blob, with these bytes.
    Blob(Vec<u8>),
    /// As text, with these bytes.
    Text(Vec<u8>),
    /// In any other way: as null, or as a number.
    Other,
}

/// One row of the table, column by column.
#[derive(Debug)]
pub struct StoredRow {
    pub id: i64,
    pub source_app: String,
    pub icon_path: String,
    pub content_type: String,
    pub content: StoredValue,
    pub timestamp: String,
}

/// Why a row could not be read.
#[derive(Clone, Copy, Debug, PartialEq, Eq, Structural)]
pub enum RowError {
    /// The `content_type` column holds neither `TEXT` nor `IMAGE`.
    UnknownContentType,
}

/// The word that stands for a kind of content in the `content_type` column.
pub open spec fn tag_of(content_type: ContentTypes) -> Seq<char> {
    match content_type {
        ContentTypes::TEXT => "TEXT"@,
        ContentTypes::IMAGE => "IMAGE"@,
    }
}

/// The kind of content that a word of the `content_type` column stands for.
pub open spec fn tagged(tag: Seq<char>) -> Option<ContentTypes> {
    if tag == "TEXT"@ {
        Some(ContentTypes::TEXT)
    } else if tag == "IMAGE"@ {
        Some(ContentTypes::IMAGE)
    } else {
        None
    }
}

/// The bytes of a stored value: those of a blob or a text, none otherwise.
pub open spec fn stored_bytes(value: StoredValue) -> Seq<u8> {
    match value {
        StoredValue::Blob(bytes) => bytes@,
        StoredValue::Text(bytes) => bytes@,
        StoredValue::Other => Seq::empty(),
    }
}

/// The instant to take for a row: the one read from its `timestamp`
/// column, or `fallback` where none could be read.
pub open spec fn instant_or(parsed: Option<i64>, fallback: i64) -> i64 {
    match parsed {
        Some(seconds) => seconds,
        None => fallback,
    }
}

/// The instant a `timestamp` column stands for, or `fallback` where it
/// cannot be read.
pub open spec fn stored_instant(timestamp: Seq<char>, fallback: i64) -> i64 {
    instant_or(parsed_timestamp(timestamp, TIMESTAMP_FORMAT@), fallback)
}

/// The record made of a row, given the kind of its content and its instant.
pub open spec fn assembled(row: StoredRow, content_type: ContentTypes, timestamp: i64) -> RecordView {
    RecordView {
        id: row.id,
        source_app: row.source_app@,
        icon_path: row.icon_path@,
        content_type,
        content: stored_bytes(row.content),
        timestamp,
    }
}

/// The record a row stands for, given the kind of its content.
pub open spec fn decoded(row: StoredRow, content_type: ContentTypes, fallback: i64) -> RecordView {
    assembled(row, content_type, stored_instant(row.timestamp@, fallback))
}

impl ContentTypes {
    /// The word that stands for this kind in the `content_type` column.
    pub fn tag(&self) -> (word: &'static str)
        ensures
            word@ == tag_of(*self),
    {
        match self {
            ContentTypes::TEXT => "TEXT",
            ContentTypes::IMAGE => "IMAGE",
        }
    }

    /// The kind that a word of the `content_type` column stands for.
    pub fn from_tag(tag: &str) -> (kind: Option<ContentTypes>)
        ensures
            kind == tagged(tag@),
    {
        if same_text(tag, "TEXT") {
            Some(ContentTypes::TEXT)
        } else if same_text(tag, "IMAGE") {
            Some(ContentTypes::IMAGE)
        } else {
            None
        }
    }
}

/// Makes the record of a row whose `timestamp` column has been read
/// already: `parsed` is the instant read from it, or `None` where none
/// could be read, in which case the record gets `fallback`.
///
/// Fails only on a row whose kind of content is unknown.
pub fn record_from_row(row: &StoredRow, parsed: Option<i64>, fallback: i64) -> (r: Result<
    HistoryRecord,
    RowError,
>)
    ensures
        match tagged(row.content_type@) {
            Some(content_type) => r is Ok && r->Ok_0@ == assembled(
                *row,
                content_type,
                instant_or(parsed, fallback),
            ),
            None => r == Err::<HistoryRecord, RowError>(RowError::UnknownContentType),
        },
{
    let content_type = match ContentTypes::from_tag(row.content_type.as_str()) {
        Some(content_type) => content_type,
        None => {
            return Err(RowError::UnknownContentType);
        },
    };
    let timestamp = match parsed {
        Some(seconds) => seconds,
        None => fallback,
    };
    let content = match &row.content {
        StoredValue::Blob(bytes) => bytes.clone(),
        StoredValue::Text(bytes) => bytes.clone(),
        StoredValue::Other => Vec::new(),
    };
    Ok(
        HistoryRecord {
            id: row.id,
            source_app: row.source_app.clone(),
            icon_path: row.icon_path.clone(),
            content_type,
            content,
            timestamp,
        },
    )
}

/// Reads a row as a record, with `fallback` as the timestamp of a row whose
/// own cannot be read.
///
/// Fails only on a row whose kind of content is unknown.
pub fn decode_row(row: &StoredRow, fallback: i64) -> (r: Result<HistoryRecord, RowError>)
    ensures
        match tagged(row.content_type@) {
            Some(content_type) => r is Ok && r->Ok_0@ == decoded(*row, content_type, fallback),
            None => r == Err::<HistoryRecord, RowError>(RowError::UnknownContentType),
        },
{
    let parsed = parse_timestamp(row.timestamp.as_str(), TIMESTAMP_FORMAT);
    record_from_row(row, parsed, fallback)
}

/// Reads a row as the item to show for it, with `fallback` as the timestamp
/// of a row whose own cannot be read.
///
/// Fails only on a row whose kind of content is unknown.
pub fn item_from_row(row: &StoredRow, fallback: i64) -> (r: Result<Item, RowError>)
    ensures
        match tagged(row.content_type@) {
            Some(content_type) => r is Ok && r->Ok_0@ == shown(decoded(*row, content_type, fallback)),
            None => r == Err::<Item, RowError>(RowError::UnknownContentType),
        },
{
    match decode_row(row, fallback) {
        Ok(record) => Ok(to_item(&record)),
        Err(e) => Err(e),
    }
}

/// Reads a row as the item to show for it. A row whose timestamp cannot be
/// read is shown with the present instant, as the system clock gives it.
///
/// Fails only on a row whose kind of content is unknown.
pub fn row_to_item(row: &StoredRow) -> (r: Result<Item, RowError>)
    ensures
        match tagged(row.content_type@) {
            Some(content_type) => r is Ok && exists|fallback: i64|
                r->Ok_0@ == shown(decoded(*row, content_type, fallback)),
            None => r == Err::<Item, RowError>(RowError::UnknownContentType),
        },
{
    let parsed = parse_timestamp(row.timestamp.as_str(), TIMESTAMP_FORMAT);
    let fallback = match parsed {
        Some(seconds) => seconds,
        None => current_timestamp(),
    };
    match record_from_row(row, parsed, fallback) {
        Ok(record) => {
            let item = to_item(&record);
            assert(item@ == shown(decoded(*row, record.content_type, fallback)));
            Ok(item)
        },
        Err(e) => Err(e),
    }
}

/// The history that a table stands for, read row by row in the order given.
///
/// A row of unknown kind is passed over, and so is a row whose id or whose
/// content an earlier row has brought already: one bad row does not keep
/// the others from being read.
pub open spec fn loaded(rows: Seq<StoredRow>, fallback: i64) -> Seq<RecordView>
    decreases rows.len(),
{
    if rows.len() == 0 {
        Seq::empty()
    } else {
        let earlier = loaded(rows.drop_last(), fallback);
        match tagged(rows.last().content_type@) {
            Some(content_type) => {
                let r = decoded(rows.last(), content_type, fallback);
                if holds_id(earlier, r.id) || holds_identity(earlier, r.content_type, r.content) {
                    earlier
                } else {
                    place(earlier, r)
                }
            },
            None => earlier,
        }
    }
}

/// The highest id among the rows that [`loaded`] takes in; zero where there
/// is none above zero.
pub open spec fn loaded_last_id(rows: Seq<StoredRow>, fallback: i64) -> i64
    decreases rows.len(),
{
    if rows.len() == 0 {
        0
    } else {
        let earlier = loaded(rows.drop_last(), fallback);
        let highest = loaded_last_id(rows.drop_last(), fallback);
        match tagged(rows.last().content_type@) {
            Some(content_type) => {
                let r = decoded(rows.last(), content_type, fallback);
                if holds_id(earlier, r.id) || holds_identity(earlier, r.content_type, r.content) {
                    highest
                } else if r.id > highest {
                    r.id
                } else {
                    highest
                }
            },
            None => highest,
        }
    }
}

/// Builds the store that a table stands for, with `fallback` as the
/// timestamp of each row whose own cannot be read.
pub fn load_history(rows: &Vec<StoredRow>, fallback: i64) -> (store: HistoryStore)
    ensures
        store.wf(),
        store@ == loaded(rows@, fallback),
        store.last_id() == loaded_last_id(rows@, fallback),
{
    let mut store = HistoryStore::new();
    let mut i: usize = 0;
    while i < rows.len()
        invariant
            i <= rows@.len(),
            store.wf(),
            store@ == loaded(rows@.take(i as int), fallback),
            store.last_id() == loaded_last_id(rows@.take(i as int), fallback),
        decreases rows@.len() - i,
    {
        proof {
            assert(rows@.take(i + 1).drop_last() =~= rows@.take(i as int));
            assert(rows@.take(i + 1).last() == rows@[i as int]);
        }
        match decode_row(&rows[i], fallback) {
            Ok(record) => {
                store.restore(record);
            },
            Err(_) => {},
        }
        i += 1;
    }
    assert(rows@.take(i as int) =~= rows@);
    store
}

} // verus!
