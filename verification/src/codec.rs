//! Between what the clipboard delivers, what the history keeps and what is
//! shown: text is kept as its UTF-8 bytes, a picture as a PNG file; text is
//! shown as text, repaired where the bytes are no UTF-8, and a picture as
//! the base64 form of its file.

use vstd::prelude::*;
use vstd::utf8::{
    decode_utf8, encode_utf8, encode_utf8_decode_utf8, encode_utf8_valid_utf8, valid_utf8,
};
use crate::outside::{
    base64_standard, decode_lossy, encode_base64, encode_png, lossy_decoding, png_encoding,
};
use crate::record::{ContentTypes, HistoryRecord, Item, ItemView, RecordView};

verus! {

/// A picture as the clipboard delivers it: RGBA, eight bits a channel, row
/// by row from the top.
#[derive(Debug)]
pub struct RawImage {
    pub width: usize,
    pub height: usize,
    pub bytes: Vec<u8>,
}

/// The bytes kept for a captured text.
pub open spec fn stored_text(text: Seq<char>) -> Seq<u8> {
    encode_utf8(text)
}

/// The bytes kept for a captured picture: its PNG file, or nothing where
/// the picture cannot be encoded (a side that does not fit 32 bits, fewer
/// than four bytes for each pixel, or whatever else the encoder refuses).
pub open spec fn stored_image(width: usize, height: usize, pixels: Seq<u8>) -> Seq<u8> {
    if width <= u32::MAX && height <= u32::MAX && 4 * width * height <= pixels.len() {
        match png_encoding(width as u32, height as u32, pixels) {
            Some(file) => file,
            None => Seq::empty(),
        }
    } else {
        Seq::empty()
    }
}

/// The text shown for kept bytes: for text, the text that the bytes encode
/// or, where they are no UTF-8, their lossy repair; for a picture, the
/// base64 form of the bytes.
pub open spec fn shown_content(content_type: ContentTypes, content: Seq<u8>) -> Seq<char> {
    match content_type {
        ContentTypes::TEXT => if valid_utf8(content) {
            decode_utf8(content)
        } else {
            lossy_decoding(content)
        },
        ContentTypes::IMAGE => base64_standard(content),
    }
}

/// The item shown for a record: the same in everything but the content.
pub open spec fn shown(r: RecordView) -> ItemView {
    ItemView {
        id: r.id,
        source_app: r.source_app,
        icon_path: r.icon_path,
        content_type: r.content_type,
        content: shown_content(r.content_type, r.content),
        timestamp: r.timestamp,
    }
}

/// The bytes to keep for a captured text.
pub fn text_bytes(text: &str) -> (bytes: Vec<u8>)
    ensures
        bytes@ == stored_text(text@),
{
    text.as_bytes_vec()
}

/// The bytes to keep for a captured picture. A picture that cannot be
/// encoded is kept as no bytes at all; that is no error.
pub fn image_bytes(image: &RawImage) -> (bytes: Vec<u8>)
    ensures
        bytes@ == stored_image(image.width, image.height, image.bytes@),
        image.bytes@.len() < 4 * image.width * image.height ==> bytes@ == Seq::<u8>::empty(),
{
    if image.width > 0xffff_ffff || image.height > 0xffff_ffff {
        return Vec::new();
    }
    match encode_png(image.width as u32, image.height as u32, image.bytes.as_slice()) {
        Some(file) => file,
        None => Vec::new(),
    }
}

/// The text to show for kept bytes.
pub fn show_content(content_type: ContentTypes, content: &[u8]) -> (text: String)
    ensures
        text@ == shown_content(content_type, content@),
{
    match content_type {
        ContentTypes::TEXT => decode_lossy(content),
        ContentTypes::IMAGE => encode_base64(content),
    }
}

/// The item to show for a record.
pub fn to_item(record: &HistoryRecord) -> (item: Item)
    ensures
        item@ == shown(record@),
{
    Item {
        id: record.id,
        source_app: record.source_app.clone(),
        icon_path: record.icon_path.clone(),
        content_type: record.content_type,
        content: show_content(record.content_type, record.content.as_slice()),
        timestamp: record.timestamp,
    }
}

/// A captured text is shown exactly as it was captured.
pub proof fn text_is_shown_as_captured(text: Seq<char>)
    ensures
        shown_content(ContentTypes::TEXT, stored_text(text)) == text,
{
    encode_utf8_valid_utf8(text);
    encode_utf8_decode_utf8(text);
}

} // verus!
