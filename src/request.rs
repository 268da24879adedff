//! Checks made on a request before it reaches the native engine, and the
//! reading of the engine's plain integer answers.
use vstd::prelude::*;
use vstd::slice::slice_to_vec;
use vstd::string::StringSliceAdditionalSpecFns;

use crate::error::SentencePieceError;

verus! {

/// The largest number of segmentations that sampling may draw from.
pub const MAX_N_BEST: usize = 512;

/// The bytes hold a NUL byte, which a NUL-terminated native string cannot carry.
pub open spec fn holds_nul(bytes: Seq<u8>) -> bool {
    bytes.contains(0u8)
}

/// Whether the bytes hold a NUL byte.
pub fn has_nul(bytes: &[u8]) -> (r: bool)
    ensures
        r == holds_nul(bytes@),
{
    let mut i: usize = 0;
    while i < bytes.len()
        invariant
            i <= bytes@.len(),
            forall|j: int| 0 <= j < i ==> bytes@[j] != 0u8,
        decreases bytes@.len() - i,
    {
        if bytes[i] == 0u8 {
            assert(bytes@[i as int] == 0u8);
            return true;
        }
        i = i + 1;
    }
    false
}

/// Checks that a model path, given as its bytes, can be handed to the engine
/// as a NUL-terminated string.
pub fn check_filename(path: &[u8]) -> (r: Result<(), SentencePieceError>)
    ensures
        r is Ok <==> !holds_nul(path@),
        r matches Err(e) ==> (e matches SentencePieceError::FilenameContainsNul(p) && p@
            == path@),
{
    if has_nul(path) {
        Err(SentencePieceError::FilenameContainsNul(slice_to_vec(path)))
    } else {
        Ok(())
    }
}

/// Checks that pieces handed to decoding can be passed to the engine as
/// NUL-terminated strings.
pub fn check_pieces(pieces: &[&str]) -> (r: Result<(), SentencePieceError>)
    ensures
        r is Ok <==> forall|i: int|
            0 <= i < pieces@.len() ==> !holds_nul(#[trigger] pieces@[i].spec_bytes()),
        r is Err ==> r == Err::<(), SentencePieceError>(SentencePieceError::PieceContainsNul),
{
    let mut i: usize = 0;
    while i < pieces.len()
        invariant
            i <= pieces@.len(),
            forall|j: int| 0 <= j < i ==> !holds_nul(#[trigger] pieces@[j].spec_bytes()),
        decreases pieces@.len() - i,
    {
        if has_nul(pieces[i].as_bytes()) {
            return Err(SentencePieceError::PieceContainsNul);
        }
        i = i + 1;
    }
    Ok(())
}

/// The segmentation count handed to the engine for sampling, or `None` when
/// it exceeds `MAX_N_BEST` and the request must not be made.
pub fn native_n_best(n_best: usize) -> (r: Option<i32>)
    ensures
        r is Some <==> n_best <= MAX_N_BEST,
        r matches Some(k) ==> k == n_best,
{
    if n_best <= MAX_N_BEST {
        Some(n_best as i32)
    } else {
        None
    }
}

/// A reserved id as the engine reports it: a negative value means that the
/// model defines no such id.
pub fn optional_id(raw: i32) -> (r: Option<u32>)
    ensures
        raw < 0 ==> r is None,
        raw >= 0 ==> r == Some(raw as u32),
{
    if raw < 0 {
        None
    } else {
        Some(raw as u32)
    }
}

/// An id that every model defines, such as the unknown piece's.
pub fn required_id(raw: i32) -> (r: u32)
    requires
        raw >= 0,
    ensures
        r == raw,
{
    raw as u32
}

/// The number of pieces in the vocabulary, as the engine reports it.
pub fn piece_count(raw: i32) -> (r: usize)
    requires
        raw >= 0,
    ensures
        r == raw,
{
    raw as usize
}

/// The answer to a piece lookup: the engine's unknown sentinel reads as `None`,
/// never as an error.
pub fn known_piece_id(id: i32, is_unknown: bool) -> (r: Option<u32>)
    ensures
        is_unknown ==> r is None,
        !is_unknown ==> r == Some(id as u32),
{
    if is_unknown {
        None
    } else {
        Some(id as u32)
    }
}

} // verus!
