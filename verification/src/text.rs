//! Text marshaling for pointer-to-narrow-string native arguments.
//!
//! A native narrow-string argument arrives as the bytes up to its
//! terminator.  Marshaling decodes those bytes as UTF-8 into borrowed text
//! for the handler.  The policy for invalid bytes is fixed and uniform:
//! the single call is aborted with a distinguished encoding fault; the text
//! is never truncated silently and never passed through undecoded.

use vstd::prelude::*;
use vstd::utf8::{decode_utf8, encode_utf8, valid_utf8};

use crate::outcome::AdapterError;

verus! {

/// Relies on `String::from_utf8`: it returns the bytes as a `String`
/// exactly when they are a valid UTF-8 encoding, and rejects them
/// otherwise.  The result is a function of the bytes alone.
#[verifier::external_body]
fn utf8_to_string(bytes: &Vec<u8>) -> (r: Option<String>)
    ensures
        match r {
            Some(s) => valid_utf8(bytes@) && s@ == decode_utf8(bytes@),
            None => !valid_utf8(bytes@),
        },
{
    String::from_utf8(bytes.clone()).ok()
}

/// Entry marshaling for a native text argument: decodes the bytes as
/// UTF-8.  Succeeds exactly on valid encodings, with the decoded
/// characters; an invalid encoding is the distinguished encoding fault.
pub fn marshal_text(bytes: &Vec<u8>) -> (r: Result<String, AdapterError>)
    ensures
        r is Ok <==> valid_utf8(bytes@),
        r matches Ok(s) ==> s@ == decode_utf8(bytes@),
        r is Err ==> r == Err::<String, AdapterError>(AdapterError::Encoding),
{
    match utf8_to_string(bytes) {
        Some(s) => Ok(s),
        None => Err(AdapterError::Encoding),
    }
}

/// Valid bytes decode to text that is those bytes read back identically:
/// re-encoding the decoded characters yields the original byte sequence,
/// so nothing is lost or altered on the way to the handler.
pub proof fn lemma_text_marshal_identical(bytes: Seq<u8>)
    requires
        valid_utf8(bytes),
    ensures
        encode_utf8(decode_utf8(bytes)) == bytes,
{
    vstd::utf8::decode_utf8_encode_utf8(bytes);
}

} // verus!
