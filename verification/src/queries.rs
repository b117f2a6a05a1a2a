//! Reading the history as items to show.

use vstd::prelude::*;
use vstd::utf8::encode_utf8;
use crate::codec::{shown, to_item};
use crate::history::{found, recent};
use crate::record::{HistoryRecord, Item, ItemView, RecordView};
use crate::store::{views, HistoryStore};

verus! {

/// The items of a vector, each as the contracts see it.
pub open spec fn item_views(items: Seq<Item>) -> Seq<ItemView> {
    items.map_values(|item: Item| item@)
}

/// The items shown for a sequence of records, one for one.
pub open spec fn shown_all(records: Seq<RecordView>) -> Seq<ItemView> {
    records.map_values(|r: RecordView| shown(r))
}

/// The items to show for some records, one for one.
pub fn to_items(records: &Vec<HistoryRecord>) -> (items: Vec<Item>)
    ensures
        item_views(items@) == shown_all(views(records@)),
{
    let mut items: Vec<Item> = Vec::new();
    let mut i: usize = 0;
    while i < records.len()
        invariant
            i <= records@.len(),
            items@.len() == i,
            forall|k: int| 0 <= k < i ==> (#[trigger] items@[k])@ == shown(records@[k]@),
        decreases records@.len() - i,
    {
        items.push(to_item(&records[i]));
        i += 1;
    }
    assert(item_views(items@) =~= shown_all(views(records@)));
    items
}

/// Every record of the history as an item, newest first.
pub fn get_all_records(store: &HistoryStore) -> (items: Vec<Item>)
    ensures
        item_views(items@) == shown_all(store@),
{
    let records = store.list_all();
    to_items(&records)
}

/// The `limit` newest records as items, newest first; none where `limit`
/// is zero or less.
pub fn get_recent_records(store: &HistoryStore, limit: i64) -> (items: Vec<Item>)
    ensures
        item_views(items@) == shown_all(recent(store@, limit)),
{
    let records = store.list_recent(limit);
    to_items(&records)
}

/// The text records in which `term` occurs, as items, newest first. The
/// case of ASCII letters is ignored; images are never returned.
pub fn search_text(store: &HistoryStore, term: &str) -> (items: Vec<Item>)
    ensures
        item_views(items@) == shown_all(found(store@, encode_utf8(term@))),
{
    let records = store.search(term);
    to_items(&records)
}

} // verus!
