//! What a downloaded file becomes: text when its content type says so, base64 otherwise.

use base64::Engine;
use vstd::prelude::*;
use vstd::utf8::{decode_utf8, valid_utf8};

use crate::request::owned;
use crate::text::{contains_seq, starts_with_seq, str_contains, str_starts_with};

verus! {

/// A downloaded file as the tools answer it.
#[derive(Clone, Debug, PartialEq, Eq)]
pub struct FileContent {
    pub content_type: String,
    /// `text` or `base64`.
    pub encoding: String,
    pub data: String,
    pub size_bytes: usize,
}

/// The text that `String::from_utf8_lossy` makes of a byte string.
pub uninterp spec fn utf8_lossy(bytes: Seq<u8>) -> Seq<char>;

/// The standard, padded base64 text that the `base64` crate's `STANDARD` engine makes of
/// a byte string.
pub uninterp spec fn base64_standard(bytes: Seq<u8>) -> Seq<char>;

/// std's `String::from_utf8_lossy`: its result is named `utf8_lossy`; std documents that
/// valid UTF-8 is decoded as it is.
#[verifier::external_body]
pub(crate) fn decode_utf8_lossy(bytes: &[u8]) -> (res: String)
    ensures
        res@ == utf8_lossy(bytes@),
        valid_utf8(bytes@) ==> res@ == decode_utf8(bytes@),
{
    String::from_utf8_lossy(bytes).into_owned()
}

/// `base64::engine::general_purpose::STANDARD.encode`: its result is named
/// `base64_standard`, and is four characters for every started group of three bytes.
/// The crate panics when that length overflows `usize`, which `requires` rules out.
#[verifier::external_body]
pub(crate) fn encode_base64(bytes: &[u8]) -> (res: String)
    requires
        bytes@.len() <= usize::MAX / 2,
    ensures
        res@ == base64_standard(bytes@),
        res@.len() == 4 * ((bytes@.len() + 2) / 3),
{
    base64::engine::general_purpose::STANDARD.encode(bytes)
}

/// Whether a content type names text: `text/...`, or anything with `json` or `xml` in it.
pub open spec fn is_textual(content_type: Seq<char>) -> bool {
    ||| starts_with_seq(content_type, "text/"@)
    ||| contains_seq(content_type, "json"@)
    ||| contains_seq(content_type, "xml"@)
}

pub fn is_textual_content_type(content_type: &str) -> (res: bool)
    ensures
        res == is_textual(content_type@),
{
    str_starts_with(content_type, "text/") || str_contains(content_type, "json") || str_contains(
        content_type,
        "xml",
    )
}

/// The content type of a response: its `content-type` header, or
/// `application/octet-stream` when it has none that is readable text.
pub fn content_type_or_default(header: Option<String>) -> (res: String)
    ensures
        res@ == match header {
            Some(h) => h@,
            None => "application/octet-stream"@,
        },
{
    match header {
        Some(h) => h,
        None => owned("application/octet-stream"),
    }
}

/// A downloaded file: decoded as text when its content type is textual, base64 otherwise.
pub fn file_content(bytes: &[u8], content_type: String) -> (res: FileContent)
    requires
        bytes@.len() <= usize::MAX / 2,
    ensures
        res.content_type@ == content_type@,
        res.size_bytes == bytes@.len(),
        is_textual(content_type@) ==> res.encoding@ == "text"@ && res.data@ == utf8_lossy(bytes@),
        !is_textual(content_type@) ==> res.encoding@ == "base64"@ && res.data@ == base64_standard(
            bytes@,
        ),
{
    if is_textual_content_type(content_type.as_str()) {
        FileContent {
            content_type,
            encoding: owned("text"),
            data: decode_utf8_lossy(bytes),
            size_bytes: bytes.len(),
        }
    } else {
        FileContent {
            content_type,
            encoding: owned("base64"),
            data: encode_base64(bytes),
            size_bytes: bytes.len(),
        }
    }
}

/// Whether a DELETE answered nothing: status 204 or an empty body, which the tools report
/// as JSON `null`.
pub fn delete_answered_nothing(status: u16, body_len: usize) -> (res: bool)
    ensures
        res == (status == 204 || body_len == 0),
{
    status == 204 || body_len == 0
}

} // verus!
