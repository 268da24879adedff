//! The outcome of a decode call: a status code and the decoded text's bytes.
use vstd::prelude::*;
use vstd::utf8::{decode_utf8, valid_utf8};

use crate::error::{SentencePieceError, status_outcome};
use crate::status::{CSentencePieceError, known_status, status_of};

verus! {

/// Relies on `String::from_utf8`: it accepts exactly the valid UTF-8 byte
/// sequences, and the string then holds the characters that they encode.
#[verifier::external_body]
fn string_from_utf8(bytes: Vec<u8>) -> (r: Option<String>)
    ensures
        r is Some <==> valid_utf8(bytes@),
        r matches Some(s) ==> s@ == decode_utf8(bytes@),
{
    String::from_utf8(bytes).ok()
}

/// What a decode call returns for a known status and the engine's bytes.
pub open spec fn decoded_outcome(code: int, bytes: Seq<u8>, r: Result<String, SentencePieceError>) -> bool {
    match status_outcome(code) {
        Ok(()) => r matches Ok(s) && s@ == decode_utf8(bytes),
        Err(e) => r == Err::<String, SentencePieceError>(e),
    }
}

/// Reads the answer of a decode call. The status decides; on success the
/// bytes, which the engine promises to be UTF-8, are the decoded text.
pub fn process_decoded(status: i32, decoded: Vec<u8>) -> (r: Result<String, SentencePieceError>)
    requires
        known_status(status as int),
        status == 0 ==> valid_utf8(decoded@),
    ensures
        decoded_outcome(status as int, decoded@, r),
        r is Ok <==> status == 0,
{
    match CSentencePieceError::from_code(status) {
        Some(e) => Err(SentencePieceError::CError(e)),
        None => match string_from_utf8(decoded) {
            Some(s) => Ok(s),
            None => {
                proof {
                    assert(false);
                }
                Ok(String::new())
            },
        },
    }
}

} // verus!
