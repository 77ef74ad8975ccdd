//! Response shapes the endpoints send back.
//!
//! These are plain data carriers: the transport layer fills them in from
//! the wire and hands them to the caller.  The vendor reports failure
//! in-band: an `error_code` field shares the envelope with the payload, so
//! callers branch on it before trusting the rest.

use vstd::prelude::*;

verus! {

/// An error code as the vendor sends it: some endpoints reply with a
/// number, others with a string, for the same kind of failure.
#[derive(Debug, Clone, PartialEq, Eq)]
pub enum ErrorCode {
    /// Numeric form, e.g. `52000` for success on the document endpoints.
    Int(i64),
    /// String form, e.g. `"0"` on the image endpoint.
    Str(String),
}

/// One translated segment: a source line and its translation.
#[derive(Debug, Clone, PartialEq, Eq)]
pub struct TranslateResult {
    /// Source text of the segment.
    pub src: String,
    /// Translated text of the segment.
    pub dst: String,
}

/// Reply of the text endpoint.
#[derive(Debug, Clone, PartialEq, Eq)]
pub struct CommonResult {
    /// Source language, echoed back.
    pub from: Option<String>,
    /// Target language, echoed back.
    pub to: Option<String>,
    /// The translated segments; absent on failure.
    pub trans_result: Option<Vec<TranslateResult>>,
    /// Error code; absent on success.
    pub error_code: Option<String>,
    /// Error message; absent on success.
    pub error_msg: Option<String>,
    /// Link to spoken source audio, when the account has TTS enabled.
    pub src_tts: Option<String>,
    /// Link to spoken translation audio, when the account has TTS enabled.
    pub dst_tts: Option<String>,
    /// Dictionary data, when the account has the dictionary enabled.
    pub dict: Option<String>,
}

/// Reply of the vertical-domain endpoint.
#[derive(Debug, Clone, PartialEq, Eq)]
pub struct DomainResult {
    /// Source language, echoed back.
    pub from: Option<String>,
    /// Target language, echoed back.
    pub to: Option<String>,
    /// The translated segments; absent on failure.
    pub trans_result: Option<Vec<TranslateResult>>,
    /// Error code; absent on success.
    pub error_code: Option<String>,
    /// Error message; absent on success.
    pub error_msg: Option<String>,
}

/// A corner of a recognised text region in an image.
#[derive(Debug, Clone, PartialEq, Eq)]
pub struct Point {
    /// Horizontal pixel coordinate.
    pub x: i64,
    /// Vertical pixel coordinate.
    pub y: i64,
}

/// One recognised and translated region of an image.
#[derive(Debug, Clone, PartialEq, Eq)]
pub struct Content {
    /// Source text of the region.
    pub src: String,
    /// Translated text of the region.
    pub dst: String,
    /// Position of the recognised text: left, top, width, height.
    pub rect: String,
    /// How many source lines were merged into this region.
    pub line_count: i64,
    /// Corners of the translated region's rectangle.
    pub points: Vec<Point>,
    /// Per-region pasted image, base64, when paste mode 2 was requested.
    pub paste_img: String,
}

/// Payload of the image endpoint's reply.
#[derive(Debug, Clone, PartialEq, Eq)]
pub struct Data {
    /// Source language direction.
    pub from: String,
    /// Target language direction.
    pub to: String,
    /// The recognised regions.
    pub content: Vec<Content>,
    /// Whole source text, unsegmented.
    pub sum_src: String,
    /// Whole translated text, unsegmented.
    pub sum_dst: String,
    /// Whole-image paste, base64, when paste mode 1 was requested.
    pub paste_img: String,
}

/// Reply of the image endpoint.
#[derive(Debug, Clone, PartialEq, Eq)]
pub struct ImageResult {
    /// Error code; `"0"` means success here.
    pub error_code: String,
    /// Error message.
    pub error_msg: String,
    /// Payload; absent on failure.
    pub data: Option<Data>,
}

/// Payload of the document character-count endpoint's reply.
#[derive(Debug, Clone, PartialEq, Eq)]
pub struct DocCountData {
    /// Characters counted in the document.
    pub char_count: usize,
    /// Identifier the full-translation call refers to the file by.
    pub file_id: String,
    /// Price of translating the document, in hundredths.
    pub amount: usize,
}

/// Reply of the document character-count endpoint.
#[derive(Debug, Clone, PartialEq, Eq)]
pub struct DocCountResult {
    /// Error code; a number on success, a string on some failures.
    pub error_code: ErrorCode,
    /// Error message.
    pub error_msg: String,
    /// Payload; absent on failure.
    pub data: Option<DocCountData>,
}

/// Payload of the document translation endpoint's reply.
#[derive(Debug, Clone, PartialEq, Eq)]
pub struct DocData {
    /// Identifier of this translation request.
    pub request_id: String,
}

/// Reply of the document translation endpoint.
#[derive(Debug, Clone, PartialEq, Eq)]
pub struct DocResult {
    /// Error code; a number on success, a string on some failures.
    pub error_code: ErrorCode,
    /// Error message.
    pub error_msg: String,
    /// Payload; absent on failure.
    pub data: Option<DocData>,
}

} // verus!
