//! Bytes as base64 text, in the standard alphabet with padding.

use base64::Engine;
use vstd::prelude::*;

verus! {

/// The text that the `base64` crate's `STANDARD` engine writes for `bytes`.
pub uninterp spec fn base64_encoded(bytes: Seq<u8>) -> Seq<char>;

/// The bytes that the `base64` crate's `STANDARD` engine reads in `text`,
/// if it reads any.
pub uninterp spec fn base64_decoded(text: Seq<char>) -> Option<Seq<u8>>;

/// Whether the text for this many bytes has a length that fits a `usize`:
/// four characters stand for every three bytes begun.
pub open spec fn encodable(length: nat) -> bool {
    (length / 3) * 4 + 4 <= usize::MAX
}

/// Calls `Engine::encode` on `base64::engine::general_purpose::STANDARD`.
/// The contract claims that the text depends on the bytes alone. Input whose
/// text would be longer than a `usize` can say is left out: there the call
/// panics.
#[verifier::external_body]
fn encode_standard(bytes: &[u8]) -> (text: String)
    requires
        encodable(bytes@.len()),
    ensures
        text@ == base64_encoded(bytes@),
{
    base64::engine::general_purpose::STANDARD.encode(bytes)
}

/// Calls `Engine::decode` on `base64::engine::general_purpose::STANDARD`.
/// The contract claims that the outcome depends on the text alone.
#[verifier::external_body]
fn decode_standard(text: &str) -> (bytes: Option<Vec<u8>>)
    ensures
        match bytes {
            Some(found) => base64_decoded(text@) == Some(found@),
            None => base64_decoded(text@) is None,
        },
{
    base64::engine::general_purpose::STANDARD.decode(text).ok()
}

/// Decides whether bytes are few enough to be written as base64.
pub fn can_encode(bytes: &[u8]) -> (fits: bool)
    ensures
        fits == encodable(bytes@.len()),
{
    bytes.len() / 3 <= (usize::MAX - 4) / 4
}

/// Writes bytes as base64, where their text has a length that fits a
/// `usize`.
pub fn encode(bytes: &[u8]) -> (text: Option<String>)
    ensures
        text is Some <==> encodable(bytes@.len()),
        text matches Some(written) ==> written@ == base64_encoded(bytes@),
{
    if can_encode(bytes) {
        Some(encode_standard(bytes))
    } else {
        None
    }
}

/// Reads base64 text as bytes.
pub fn decode(text: &str) -> (bytes: Option<Vec<u8>>)
    ensures
        match bytes {
            Some(found) => base64_decoded(text@) == Some(found@),
            None => base64_decoded(text@) is None,
        },
{
    decode_standard(text)
}

/// The bytes that a text stands for, and none at all where it is no base64.
pub open spec fn decoded_or_empty(bytes: Option<Seq<u8>>) -> Seq<u8> {
    match bytes {
        Some(found) => found,
        None => Seq::empty(),
    }
}

} // verus!
