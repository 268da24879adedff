//! The binding's error taxonomy and the translation of status codes into it.
use vstd::prelude::*;

use crate::status::{CSentencePieceError, known_status, status_of};

verus! {

/// Errors returned by the tokenizer.
#[derive(Clone, Debug, PartialEq, Eq)]
pub enum SentencePieceError {
    /// The native engine reported an error through its status channel.
    CError(CSentencePieceError),
    /// The native engine could not encode the text (an empty response).
    EncodeError,
    /// The model path, given as its bytes, holds a NUL byte.
    FilenameContainsNul(Vec<u8>),
    /// A record of the encode response lacks the named field.
    MissingData(String),
    /// A piece handed to decoding holds a NUL byte.
    PieceContainsNul,
}

/// What a known status code means for the call that returned it.
pub open spec fn status_outcome(code: int) -> Result<(), SentencePieceError> {
    if code == 0 {
        Ok(())
    } else {
        Err(SentencePieceError::CError(status_of(code)->0))
    }
}

/// Translates the status code of a native call: zero is success, any other
/// code in the table is that error.
pub fn status_result(code: i32) -> (r: Result<(), SentencePieceError>)
    requires
        known_status(code as int),
    ensures
        r == status_outcome(code as int),
        r is Ok <==> code == 0,
{
    // Zero is the one known code outside the table.
    match CSentencePieceError::from_code(code) {
        Some(e) => Err(SentencePieceError::CError(e)),
        None => Ok(()),
    }
}

} // verus!
