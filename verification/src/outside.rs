//! The calls this library makes into other crates and into parts of `std`
//! that the verifier has no specification for.
//!
//! Nothing in this file is proved. Each function states what is taken on
//! trust about the code it calls; everything else in the library is verified
//! against these statements.

use vstd::prelude::*;
use vstd::utf8::*;

verus! {

/// The PNG file that the `image` crate writes for an RGBA8 picture of the
/// given size whose pixels are the leading `4 * width * height` bytes of
/// `pixels`, or `None` where it writes none.
pub uninterp spec fn png_encoding(width: u32, height: u32, pixels: Seq<u8>) -> Option<Seq<u8>>;

/// The text that the `base64` crate's standard engine (standard alphabet,
/// with padding) produces for `bytes`.
pub uninterp spec fn base64_standard(bytes: Seq<u8>) -> Seq<char>;

/// The text that `String::from_utf8_lossy` produces for `bytes`.
pub uninterp spec fn lossy_decoding(bytes: Seq<u8>) -> Seq<char>;

/// The text that `str::to_lowercase` produces for `text`.
pub uninterp spec fn lowercased(text: Seq<char>) -> Seq<char>;

/// The instant, in whole seconds since the Unix epoch, that `chrono` reads
/// from `text` under the strftime pattern `format`, or `None` where the text
/// does not fit the pattern.
pub uninterp spec fn parsed_timestamp(text: Seq<char>, format: Seq<char>) -> Option<i64>;

/// Calls `image::ImageBuffer::<Rgba<u8>, _>::from_raw` and then
/// `ImageBuffer::write_to` with `ImageFormat::Png`.
///
/// Trusted: the bytes written depend on the three arguments alone, and
/// `from_raw` refuses a buffer shorter than four bytes per pixel, in which
/// case nothing is written.
#[verifier::external_body]
pub(crate) fn encode_png(width: u32, height: u32, pixels: &[u8]) -> (out: Option<Vec<u8>>)
    ensures
        out matches Some(bytes) ==> png_encoding(width, height, pixels@) == Some(bytes@),
        out is None ==> png_encoding(width, height, pixels@) is None,
        pixels@.len() < 4 * width * height ==> out is None,
{
    let buffer = image::ImageBuffer::<image::Rgba<u8>, &[u8]>::from_raw(width, height, pixels)?;
    let mut bytes: Vec<u8> = Vec::new();
    let mut sink = std::io::Cursor::new(&mut bytes);
    buffer.write_to(&mut sink, image::ImageFormat::Png).ok()?;
    Some(bytes)
}

/// Calls `base64::Engine::encode` on `base64::engine::general_purpose::STANDARD`.
///
/// Trusted: the text produced depends on the bytes alone.
#[verifier::external_body]
pub(crate) fn encode_base64(bytes: &[u8]) -> (text: String)
    ensures
        text@ == base64_standard(bytes@),
{
    base64::Engine::encode(&base64::engine::general_purpose::STANDARD, bytes)
}

/// Calls `String::from_utf8_lossy`.
///
/// Trusted: the text produced depends on the bytes alone, and bytes that are
/// valid UTF-8 decode to exactly the text they encode.
#[verifier::external_body]
pub(crate) fn decode_lossy(bytes: &[u8]) -> (text: String)
    ensures
        text@ == lossy_decoding(bytes@),
        valid_utf8(bytes@) ==> text@ == decode_utf8(bytes@),
{
    String::from_utf8_lossy(bytes).into_owned()
}

/// Calls `str::to_lowercase`.
///
/// Trusted: the text produced depends on the text given alone.
#[verifier::external_body]
pub(crate) fn lowercase(text: &str) -> (lower: String)
    ensures
        lower@ == lowercased(text@),
{
    text.to_lowercase()
}

/// Calls `chrono::NaiveDateTime::parse_from_str` and reads the result as a
/// UTC instant in whole seconds since the Unix epoch.
///
/// Trusted: the outcome depends on the text and the pattern alone.
#[verifier::external_body]
pub(crate) fn parse_timestamp(text: &str, format: &str) -> (seconds: Option<i64>)
    ensures
        seconds == parsed_timestamp(text@, format@),
{
    match chrono::NaiveDateTime::parse_from_str(text, format) {
        Ok(naive) => Some(naive.and_utc().timestamp()),
        Err(_) => None,
    }
}

/// Reads the system clock with `std::time::SystemTime::now` and has
/// `chrono` turn it into a UTC instant (`DateTime::<Utc>::from`), read in
/// whole seconds since the Unix epoch. A clock that is set before 1970
/// gives a negative instant.
///
/// Nothing is promised of the value: it is whatever the system clock says.
#[verifier::external_body]
pub(crate) fn current_timestamp() -> i64 {
    chrono::DateTime::<chrono::Utc>::from(std::time::SystemTime::now()).timestamp()
}

} // verus!
