//! Decoding of caller-supplied directory paths.
//!
//! The boundary hands the two storage paths over as raw bytes (the contents
//! of null-terminated strings). The bridge accepts them only when they are
//! valid UTF-8 text; malformed bytes are a recorded error, never a crash.

use vstd::prelude::*;
use vstd::string::StringExecFns;

verus! {

/// The characters a byte sequence decodes to under UTF-8, or `None` when it
/// is not valid UTF-8. Whether and how a byte sequence decodes depends on
/// the bytes alone.
pub uninterp spec fn utf8_chars(bytes: Seq<u8>) -> Option<Seq<char>>;

/// Relies on alloc's `String::from_utf8`: returns the text of `bytes` when
/// they are valid UTF-8, and an error otherwise.
#[verifier::external_body]
fn utf8_string(bytes: Vec<u8>) -> (decoded: Option<String>)
    ensures
        decoded is Some <==> utf8_chars(bytes@) is Some,
        decoded matches Some(text) ==> Some(text@) == utf8_chars(bytes@),
{
    match String::from_utf8(bytes) {
        Ok(text) => Some(text),
        Err(_) => None,
    }
}

/// The detail text recorded when a path fails to decode.
pub open spec fn bad_encoding_detail() -> Seq<char> {
    "the bytes are not valid UTF-8 text"@
}

/// Decodes one caller-supplied path. Returns the decoded text exactly when
/// `bytes` is valid UTF-8, and otherwise the detail text for the failure
/// outcome of a decoding phase.
pub fn decode_path(bytes: Vec<u8>) -> (decoded: Result<String, String>)
    ensures
        decoded is Ok <==> utf8_chars(bytes@) is Some,
        decoded matches Ok(text) ==> Some(text@) == utf8_chars(bytes@),
        decoded matches Err(detail) ==> detail@ == bad_encoding_detail(),
{
    match utf8_string(bytes) {
        Some(text) => Ok(text),
        None => Err(String::from_str("the bytes are not valid UTF-8 text")),
    }
}

} // verus!
