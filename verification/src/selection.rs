//! What a window that shows the history decides: which items a query
//! leaves, which item is selected after a key, and where an item goes that
//! was picked to be used again.

use vstd::prelude::*;
use vstd::utf8::encode_utf8;
use crate::matching::{contains_folded, contains_ignoring_case};
use crate::outside::{lowercase, lowercased};
use crate::queries::item_views;
use crate::record::{Item, ItemView};

verus! {

/// `query` occurs in `text` once both are in lower case.
pub open spec fn mentions(text: Seq<char>, query: Seq<char>) -> bool {
    contains_folded(encode_utf8(lowercased(text)), encode_utf8(lowercased(query)))
}

/// The item answers the query: the query occurs in the name of its
/// application or in its content, whatever the case of either.
pub open spec fn answers(item: ItemView, query: Seq<char>) -> bool {
    mentions(item.source_app, query) || mentions(item.content, query)
}

/// The items that answer the query, in the order they had.
pub open spec fn answering(items: Seq<ItemView>, query: Seq<char>) -> Seq<ItemView>
    decreases items.len(),
{
    if items.len() == 0 {
        Seq::empty()
    } else {
        let earlier = answering(items.drop_last(), query);
        if answers(items.last(), query) {
            earlier.push(items.last())
        } else {
            earlier
        }
    }
}

/// The items that a query leaves: all of them where the query is empty,
/// else those that answer it, in the order they had.
pub open spec fn filtered(items: Seq<ItemView>, query: Seq<char>) -> Seq<ItemView> {
    if query.len() == 0 {
        items
    } else {
        answering(items, query)
    }
}

/// The selection after a step to the right among `len` items: the next
/// item, or the first after the last. Among no items it stays.
pub open spec fn right_of(current: usize, len: usize) -> usize {
    if len == 0 {
        current
    } else {
        ((current + 1) % (len as int)) as usize
    }
}

/// The selection after a step to the left among `len` items: the item
/// before, or the last before the first. Among no items it stays.
pub open spec fn left_of(current: usize, len: usize) -> usize {
    if len == 0 {
        current
    } else if current == 0 {
        (len - 1) as usize
    } else {
        (current - 1) as usize
    }
}

/// The position that a digit key picks: `1` the first item, `9` the
/// ninth, `0` the tenth.
pub open spec fn picked_by_digit(digit: usize) -> usize {
    if digit == 0 {
        9
    } else {
        (digit - 1) as usize
    }
}

/// Some item has this id.
pub open spec fn shows_id(items: Seq<ItemView>, id: i64) -> bool {
    exists|i: int| 0 <= i < items.len() && (#[trigger] items[i]).id == id
}

/// Where the first item with this id stands, if there is one.
pub open spec fn first_with_id(items: Seq<ItemView>, id: i64) -> int {
    choose|i: int|
        0 <= i < items.len() && (#[trigger] items[i]).id == id && forall|j: int|
            0 <= j < i ==> (#[trigger] items[j]).id != id
}

/// The items with the first one of this id moved to the front; the items
/// as they are where none has it.
pub open spec fn promoted(items: Seq<ItemView>, id: i64) -> Seq<ItemView> {
    if shows_id(items, id) {
        let i = first_with_id(items, id);
        items.remove(i).insert(0, items[i])
    } else {
        items
    }
}

/// The items as they are, each copied.
fn copy_items(items: &Vec<Item>) -> (copy: Vec<Item>)
    ensures
        item_views(copy@) == item_views(items@),
{
    let mut copy: Vec<Item> = Vec::new();
    let mut i: usize = 0;
    while i < items.len()
        invariant
            i <= items@.len(),
            copy@.len() == i,
            forall|k: int| 0 <= k < i ==> (#[trigger] copy@[k])@ == items@[k]@,
        decreases items@.len() - i,
    {
        copy.push(items[i].clone());
        i += 1;
    }
    assert(item_views(copy@) =~= item_views(items@));
    copy
}

/// The items that the query leaves, in the order they have: every item
/// where the query is empty, else those in which the query occurs, in the
/// name of the application or in the content, whatever the case of either.
pub fn filter_items(items: &Vec<Item>, query: &str) -> (left: Vec<Item>)
    ensures
        item_views(left@) == filtered(item_views(items@), query@),
{
    if query.is_empty() {
        return copy_items(items);
    }
    let wanted = lowercase(query);
    let mut left: Vec<Item> = Vec::new();
    let mut i: usize = 0;
    while i < items.len()
        invariant
            i <= items@.len(),
            wanted@ == lowercased(query@),
            item_views(left@) =~= answering(item_views(items@).take(i as int), query@),
        decreases items@.len() - i,
    {
        proof {
            let all = item_views(items@);
            assert(all.take(i + 1).drop_last() =~= all.take(i as int));
            assert(all.take(i + 1).last() == items@[i as int]@);
        }
        let app = lowercase(items[i].source_app.as_str());
        let content = lowercase(items[i].content.as_str());
        if contains_ignoring_case(app.as_str().as_bytes(), wanted.as_str().as_bytes())
            || contains_ignoring_case(content.as_str().as_bytes(), wanted.as_str().as_bytes()) {
            let ghost kept = item_views(left@);
            left.push(items[i].clone());
            assert(item_views(left@) =~= kept.push(items@[i as int]@));
        }
        i += 1;
    }
    assert(item_views(items@).take(i as int) =~= item_views(items@));
    left
}

/// The selection after a step to the right among `len` items.
pub fn select_next(current: usize, len: usize) -> (next: usize)
    ensures
        next == right_of(current, len),
        len > 0 ==> next < len,
{
    if len == 0 {
        current
    } else if current >= len - 1 {
        let rest = current % len;
        assert((current + 1) % (len as int) == (rest + 1) % (len as int)) by (nonlinear_arith)
            requires
                rest == current % len,
                len > 0,
        ;
        if rest == len - 1 {
            assert((rest + 1) % (len as int) == 0) by (nonlinear_arith)
                requires
                    rest + 1 == len,
                    len > 0,
            ;
            0
        } else {
            assert((rest + 1) % (len as int) == rest + 1) by (nonlinear_arith)
                requires
                    0 <= rest + 1 < len,
            ;
            rest + 1
        }
    } else {
        assert((current + 1) % (len as int) == current + 1) by (nonlinear_arith)
            requires
                0 <= current + 1 < len,
        ;
        current + 1
    }
}

/// The selection after a step to the left among `len` items.
pub fn select_previous(current: usize, len: usize) -> (previous: usize)
    ensures
        previous == left_of(current, len),
{
    if len == 0 {
        current
    } else if current == 0 {
        len - 1
    } else {
        current - 1
    }
}

/// The position that a digit key picks.
pub fn shortcut_index(digit: usize) -> (position: usize)
    ensures
        position == picked_by_digit(digit),
{
    if digit == 0 {
        9
    } else {
        digit - 1
    }
}

/// Moves the first item with this id to the front, as the history will
/// show it once the record has been used again. Returns whether there was
/// such an item.
pub fn promote(items: &mut Vec<Item>, id: i64) -> (moved: bool)
    ensures
        moved == shows_id(item_views(old(items)@), id),
        item_views(final(items)@) == promoted(item_views(old(items)@), id),
{
    let ghost before = item_views(items@);
    let mut i: usize = 0;
    while i < items.len()
        invariant
            i <= items@.len(),
            item_views(items@) == before,
            before == item_views(old(items)@),
            forall|j: int| 0 <= j < i ==> (#[trigger] before[j]).id != id,
        decreases items@.len() - i,
    {
        if items[i].id == id {
            proof {
                assert(before[i as int] == items@[i as int]@);
                assert(before[i as int].id == id);
                assert(shows_id(before, id));
                assert(forall|j: int| 0 <= j < i ==> (#[trigger] before[j]).id != id);
                let first = first_with_id(before, id);
                if first < i {
                    assert(before[first].id != id);
                } else if i < first {
                    assert(before[i as int].id != id);
                }
                assert(first == i);
            }
            let item = items.remove(i);
            assert(item_views(items@) =~= before.remove(i as int));
            items.insert(0, item);
            assert(item_views(items@) =~= before.remove(i as int).insert(0, before[i as int]));
            return true;
        }
        i += 1;
    }
    false
}

} // verus!
