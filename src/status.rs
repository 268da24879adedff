//! Status codes returned by the fallible calls of the native engine.
use vstd::prelude::*;

verus! {

/// Errors reported by the native engine through its status channel.
///
/// The set mirrors the general-purpose RPC status vocabulary; each variant
/// has exactly one non-zero integer code (see `status_code`).
#[derive(Clone, Copy, Debug, PartialEq, Eq, Structural)]
pub enum CSentencePieceError {
    Cancelled,
    Unknown,
    InvalidArgument,
    DeadlineExceeded,
    NotFound,
    AlreadyExists,
    PermissionDenied,
    Unauthenticated,
    ResourceExhausted,
    FailedPrecondition,
    Aborted,
    OutOfRange,
    Unimplemented,
    Internal,
    Unavailable,
    DataLoss,
}

/// The integer code that the native engine uses for an error.
pub open spec fn status_code(e: CSentencePieceError) -> int {
    match e {
        CSentencePieceError::Cancelled => 1,
        CSentencePieceError::Unknown => 2,
        CSentencePieceError::InvalidArgument => 3,
        CSentencePieceError::DeadlineExceeded => 4,
        CSentencePieceError::NotFound => 5,
        CSentencePieceError::AlreadyExists => 6,
        CSentencePieceError::PermissionDenied => 7,
        CSentencePieceError::ResourceExhausted => 8,
        CSentencePieceError::FailedPrecondition => 9,
        CSentencePieceError::Aborted => 10,
        CSentencePieceError::OutOfRange => 11,
        CSentencePieceError::Unimplemented => 12,
        CSentencePieceError::Internal => 13,
        CSentencePieceError::Unavailable => 14,
        CSentencePieceError::DataLoss => 15,
        CSentencePieceError::Unauthenticated => 16,
    }
}

/// The error that a non-zero code stands for, if the code is in the table.
pub open spec fn status_of(code: int) -> Option<CSentencePieceError> {
    if code == 1 {
        Some(CSentencePieceError::Cancelled)
    } else if code == 2 {
        Some(CSentencePieceError::Unknown)
    } else if code == 3 {
        Some(CSentencePieceError::InvalidArgument)
    } else if code == 4 {
        Some(CSentencePieceError::DeadlineExceeded)
    } else if code == 5 {
        Some(CSentencePieceError::NotFound)
    } else if code == 6 {
        Some(CSentencePieceError::AlreadyExists)
    } else if code == 7 {
        Some(CSentencePieceError::PermissionDenied)
    } else if code == 8 {
        Some(CSentencePieceError::ResourceExhausted)
    } else if code == 9 {
        Some(CSentencePieceError::FailedPrecondition)
    } else if code == 10 {
        Some(CSentencePieceError::Aborted)
    } else if code == 11 {
        Some(CSentencePieceError::OutOfRange)
    } else if code == 12 {
        Some(CSentencePieceError::Unimplemented)
    } else if code == 13 {
        Some(CSentencePieceError::Internal)
    } else if code == 14 {
        Some(CSentencePieceError::Unavailable)
    } else if code == 15 {
        Some(CSentencePieceError::DataLoss)
    } else if code == 16 {
        Some(CSentencePieceError::Unauthenticated)
    } else {
        None
    }
}

/// A code the binding understands: success (zero) or one of the table's errors.
pub open spec fn known_status(code: int) -> bool {
    code == 0 || status_of(code) is Some
}

impl CSentencePieceError {
    /// Looks up the error for a status code; `None` for zero and for codes
    /// outside the table.
    pub fn from_code(code: i32) -> (r: Option<CSentencePieceError>)
        ensures
            r == status_of(code as int),
            r matches Some(e) ==> status_code(e) == code,
    {
        match code {
            1 => Some(CSentencePieceError::Cancelled),
            2 => Some(CSentencePieceError::Unknown),
            3 => Some(CSentencePieceError::InvalidArgument),
            4 => Some(CSentencePieceError::DeadlineExceeded),
            5 => Some(CSentencePieceError::NotFound),
            6 => Some(CSentencePieceError::AlreadyExists),
            7 => Some(CSentencePieceError::PermissionDenied),
            8 => Some(CSentencePieceError::ResourceExhausted),
            9 => Some(CSentencePieceError::FailedPrecondition),
            10 => Some(CSentencePieceError::Aborted),
            11 => Some(CSentencePieceError::OutOfRange),
            12 => Some(CSentencePieceError::Unimplemented),
            13 => Some(CSentencePieceError::Internal),
            14 => Some(CSentencePieceError::Unavailable),
            15 => Some(CSentencePieceError::DataLoss),
            16 => Some(CSentencePieceError::Unauthenticated),
            _ => None,
        }
    }

    /// The integer code of this error.
    pub fn code(&self) -> (r: i32)
        ensures
            r == status_code(*self),
            1 <= r <= 16,
            status_of(r as int) == Some(*self),
    {
        match self {
            CSentencePieceError::Cancelled => 1,
            CSentencePieceError::Unknown => 2,
            CSentencePieceError::InvalidArgument => 3,
            CSentencePieceError::DeadlineExceeded => 4,
            CSentencePieceError::NotFound => 5,
            CSentencePieceError::AlreadyExists => 6,
            CSentencePieceError::PermissionDenied => 7,
            CSentencePieceError::ResourceExhausted => 8,
            CSentencePieceError::FailedPrecondition => 9,
            CSentencePieceError::Aborted => 10,
            CSentencePieceError::OutOfRange => 11,
            CSentencePieceError::Unimplemented => 12,
            CSentencePieceError::Internal => 13,
            CSentencePieceError::Unavailable => 14,
            CSentencePieceError::DataLoss => 15,
            CSentencePieceError::Unauthenticated => 16,
        }
    }
}

/// Whether the binding understands a status code. A code for which this is
/// false means the native library and the binding disagree on the table.
pub fn is_known_status(code: i32) -> (r: bool)
    ensures
        r == known_status(code as int),
        r == (0 <= code <= 16),
{
    0 <= code && code <= 16
}

/// Each error has exactly one code, and that code maps back to it.
pub proof fn lemma_status_code_round_trip(e: CSentencePieceError, f: CSentencePieceError)
    ensures
        status_of(status_code(e)) == Some(e),
        status_code(e) != 0,
        status_code(e) == status_code(f) ==> e == f,
{
}

} // verus!
