//! Taking captures into the history, and marking a record as used again.

use vstd::prelude::*;
use crate::codec::{image_bytes, stored_image, stored_text, text_bytes, RawImage};
use crate::history::{holds_id, touched};
use crate::outside::current_timestamp;
use crate::record::ContentTypes;
use crate::store::{upsert_outcome, HistoryStore, StoreError};

verus! {

/// The application that had the focus when something was copied: its name,
/// or a stand-in such as `Unknown`, and the path of its icon file, which
/// may be empty.
#[derive(Debug)]
pub struct FocusContext {
    pub app_name: String,
    pub icon_path: String,
}

/// Takes a copied text into the history, as captured at `now` while
/// `focus` had the focus.
pub fn save_text(store: &mut HistoryStore, text: &str, focus: &FocusContext, now: i64) -> (r:
    Result<i64, StoreError>)
    requires
        old(store).wf(),
    ensures
        final(store).wf(),
        upsert_outcome(
            *old(store),
            *final(store),
            r,
            ContentTypes::TEXT,
            stored_text(text@),
            focus.app_name@,
            focus.icon_path@,
            now,
        ),
{
    store.upsert(
        ContentTypes::TEXT,
        text_bytes(text),
        focus.app_name.clone(),
        focus.icon_path.clone(),
        now,
    )
}

/// Takes a copied picture into the history, as captured at `now` while
/// `focus` had the focus. A picture that cannot be encoded, such as one
/// with fewer than four bytes for each pixel, is taken in with empty
/// content.
pub fn save_image(store: &mut HistoryStore, image: &RawImage, focus: &FocusContext, now: i64) -> (r:
    Result<i64, StoreError>)
    requires
        old(store).wf(),
    ensures
        final(store).wf(),
        upsert_outcome(
            *old(store),
            *final(store),
            r,
            ContentTypes::IMAGE,
            stored_image(image.width, image.height, image.bytes@),
            focus.app_name@,
            focus.icon_path@,
            now,
        ),
        image.bytes@.len() < 4 * image.width * image.height ==> upsert_outcome(
            *old(store),
            *final(store),
            r,
            ContentTypes::IMAGE,
            Seq::<u8>::empty(),
            focus.app_name@,
            focus.icon_path@,
            now,
        ),
{
    store.upsert(
        ContentTypes::IMAGE,
        image_bytes(image),
        focus.app_name.clone(),
        focus.icon_path.clone(),
        now,
    )
}

/// Marks the record `id` as used again at the present instant, as the
/// system clock gives it.
///
/// Fails, and changes nothing, where no record has this id.
pub fn update_timestamp(store: &mut HistoryStore, id: i64) -> (r: Result<(), StoreError>)
    requires
        old(store).wf(),
    ensures
        final(store).wf(),
        exists|now: i64| final(store)@ == touched(old(store)@, id, now),
        final(store).last_id() == old(store).last_id(),
        r is Ok <==> holds_id(old(store)@, id),
        r is Err ==> r == Err::<(), StoreError>(StoreError::NotFound),
{
    let now = current_timestamp();
    store.touch(id, now)
}

} // verus!
