//! The data the history holds and hands out.

use vstd::prelude::*;

verus! {

/// The kind of a captured clipboard payload.
#[allow(non_camel_case_types)]
#[derive(Clone, Copy, Debug, PartialEq, Eq, Structural)]
pub enum ContentTypes {
    /// Plain text, kept as its UTF-8 bytes.
    TEXT,
    /// A raster image, kept as a PNG file.
    IMAGE,
}

/// One capture as the history keeps it.
///
/// `timestamp` is the last instant at which this content was on the
/// clipboard, in seconds since the Unix epoch; it is not the instant of the
/// first capture.
#[derive(Debug, PartialEq, Eq)]
pub struct HistoryRecord {
    pub id: i64,
    pub source_app: String,
    pub icon_path: String,
    pub content_type: ContentTypes,
    pub content: Vec<u8>,
    pub timestamp: i64,
}

/// What a [`HistoryRecord`] is to the contracts.
pub struct RecordView {
    pub id: i64,
    pub source_app: Seq<char>,
    pub icon_path: Seq<char>,
    pub content_type: ContentTypes,
    pub content: Seq<u8>,
    pub timestamp: i64,
}

impl View for HistoryRecord {
    type V = RecordView;

    open spec fn view(&self) -> RecordView {
        RecordView {
            id: self.id,
            source_app: self.source_app@,
            icon_path: self.icon_path@,
            content_type: self.content_type,
            content: self.content@,
            timestamp: self.timestamp,
        }
    }
}

impl Clone for HistoryRecord {
    fn clone(&self) -> (copy: Self)
        ensures
            copy@ == self@,
    {
        HistoryRecord {
            id: self.id,
            source_app: self.source_app.clone(),
            icon_path: self.icon_path.clone(),
            content_type: self.content_type,
            content: self.content.clone(),
            timestamp: self.timestamp,
        }
    }
}

/// One capture as it is shown: the content is text, either the captured text
/// itself or, for an image, the base64 form of its PNG file.
#[derive(Debug, PartialEq, Eq)]
pub struct Item {
    pub id: i64,
    pub source_app: String,
    pub icon_path: String,
    pub content_type: ContentTypes,
    pub content: String,
    pub timestamp: i64,
}

/// What an [`Item`] is to the contracts.
pub struct ItemView {
    pub id: i64,
    pub source_app: Seq<char>,
    pub icon_path: Seq<char>,
    pub content_type: ContentTypes,
    pub content: Seq<char>,
    pub timestamp: i64,
}

impl View for Item {
    type V = ItemView;

    open spec fn view(&self) -> ItemView {
        ItemView {
            id: self.id,
            source_app: self.source_app@,
            icon_path: self.icon_path@,
            content_type: self.content_type,
            content: self.content@,
            timestamp: self.timestamp,
        }
    }
}

impl Clone for Item {
    fn clone(&self) -> (copy: Self)
        ensures
            copy@ == self@,
    {
        Item {
            id: self.id,
            source_app: self.source_app.clone(),
            icon_path: self.icon_path.clone(),
            content_type: self.content_type,
            content: self.content.clone(),
            timestamp: self.timestamp,
        }
    }
}

} // verus!
