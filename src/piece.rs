//! Pieces, the records of the engine's encode response, and the validation
//! that turns the latter into the former.
use vstd::prelude::*;

use crate::error::SentencePieceError;

verus! {

/// Sentence piece with its identifier and string span.
#[derive(Debug, PartialEq, Eq)]
pub struct PieceWithId {
    /// The sentence piece as a string.
    pub piece: String,
    /// The vocabulary identifier of the sentence piece.
    pub id: u32,
    /// The span of the sentence piece in the tokenized string, as the byte
    /// offsets `[begin, end)`.
    pub span: (u32, u32),
}

impl Clone for PieceWithId {
    fn clone(&self) -> (r: PieceWithId)
        ensures
            r == *self,
    {
        PieceWithId { piece: self.piece.clone(), id: self.id, span: self.span }
    }
}

/// One piece record of the engine's encode response. Every field is optional
/// on the wire.
#[derive(Clone, Debug, PartialEq, Eq, Default)]
pub struct SentencePiece {
    /// Internal representation for the decoder.
    pub piece: Option<String>,
    /// Vocabulary id.
    pub id: Option<u32>,
    /// External representation for the client.
    pub surface: Option<String>,
    /// Starting position.
    pub begin: Option<u32>,
    /// End position.
    pub end: Option<u32>,
}

/// The first of the fields `piece`, `id`, `begin`, `end` that a record lacks.
pub open spec fn missing_field(r: SentencePiece) -> Option<Seq<char>> {
    if r.piece is None {
        Some("piece"@)
    } else if r.id is None {
        Some("id"@)
    } else if r.begin is None {
        Some("begin"@)
    } else if r.end is None {
        Some("end"@)
    } else {
        None
    }
}

/// A record with all four fields that a piece needs.
pub open spec fn is_complete(r: SentencePiece) -> bool {
    missing_field(r) is None
}

/// The piece `p` carries exactly the fields of the complete record `r`.
pub open spec fn piece_of_record(r: SentencePiece, p: PieceWithId) -> bool {
    &&& is_complete(r)
    &&& p.piece@ == r.piece->0@
    &&& p.id == r.id->0
    &&& p.span == (r.begin->0, r.end->0)
}

/// The pieces are, one for one and in order, those of the records.
pub open spec fn pieces_of_records(records: Seq<SentencePiece>, pieces: Seq<PieceWithId>) -> bool {
    &&& pieces.len() == records.len()
    &&& forall|i: int| 0 <= i < records.len() ==> piece_of_record(records[i], #[trigger] pieces[i])
}

/// `i` is the first record that lacks a field.
pub open spec fn first_incomplete(records: Seq<SentencePiece>, i: int) -> bool {
    &&& 0 <= i < records.len()
    &&& !is_complete(records[i])
    &&& forall|j: int| 0 <= j < i ==> is_complete(#[trigger] records[j])
}

/// What validating the records gives: the pieces when every record is
/// complete, otherwise the missing field of the first incomplete record.
pub open spec fn records_outcome(
    records: Seq<SentencePiece>,
    r: Result<Vec<PieceWithId>, SentencePieceError>,
) -> bool {
    match r {
        Ok(v) => pieces_of_records(records, v@),
        Err(e) => exists|i: int|
            #[trigger] first_incomplete(records, i) && (e matches SentencePieceError::MissingData(
                name,
            ) && name@ == missing_field(records[i])->0),
    }
}

/// Makes a piece of one record, or names the first field it lacks.
pub fn piece_from_record(record: &SentencePiece) -> (r: Result<PieceWithId, SentencePieceError>)
    ensures
        r matches Ok(p) ==> piece_of_record(*record, p),
        r is Err <==> !is_complete(*record),
        r matches Err(e) ==> (e matches SentencePieceError::MissingData(name) && name@
            == missing_field(*record)->0),
{
    let piece = match &record.piece {
        Some(p) => p.clone(),
        None => return Err(SentencePieceError::MissingData("piece".to_owned())),
    };
    let id = match record.id {
        Some(id) => id,
        None => return Err(SentencePieceError::MissingData("id".to_owned())),
    };
    let begin = match record.begin {
        Some(b) => b,
        None => return Err(SentencePieceError::MissingData("begin".to_owned())),
    };
    let end = match record.end {
        Some(e) => e,
        None => return Err(SentencePieceError::MissingData("end".to_owned())),
    };
    Ok(PieceWithId { piece, id, span: (begin, end) })
}

/// Turns the records of an encode response into pieces, failing on the first
/// record that lacks one of `piece`, `id`, `begin`, `end`.
pub fn pieces_from_records(records: &Vec<SentencePiece>) -> (r: Result<
    Vec<PieceWithId>,
    SentencePieceError,
>)
    ensures
        records_outcome(records@, r),
        r is Ok <==> forall|i: int| 0 <= i < records@.len() ==> is_complete(#[trigger] records@[i]),
{
    let mut pieces: Vec<PieceWithId> = Vec::new();
    let mut i: usize = 0;
    while i < records.len()
        invariant
            i <= records@.len(),
            pieces_of_records(records@.take(i as int), pieces@),
            forall|j: int| 0 <= j < i ==> is_complete(#[trigger] records@[j]),
        decreases records@.len() - i,
    {
        match piece_from_record(&records[i]) {
            Ok(p) => pieces.push(p),
            Err(e) => {
                assert(first_incomplete(records@, i as int));
                return Err(e);
            },
        }
        i = i + 1;
        assert forall|j: int| 0 <= j < i implies piece_of_record(
            records@.take(i as int)[j],
            #[trigger] pieces@[j],
        ) by {
            if j < i - 1 {
                assert(records@.take(i as int)[j] == records@.take(i - 1)[j]);
            }
        }
    }
    assert(records@.take(i as int) == records@);
    Ok(pieces)
}

/// Processes the engine's encode response: an empty response is the engine's
/// only way of saying that it could not encode; otherwise the decoded records
/// are validated into pieces.
pub fn process_encode_protobuf(response_len: usize, records: &Vec<SentencePiece>) -> (r: Result<
    Vec<PieceWithId>,
    SentencePieceError,
>)
    ensures
        response_len == 0 ==> r == Err::<Vec<PieceWithId>, SentencePieceError>(
            SentencePieceError::EncodeError,
        ),
        response_len != 0 ==> records_outcome(records@, r),
        r is Ok <==> response_len != 0 && forall|i: int|
            0 <= i < records@.len() ==> is_complete(#[trigger] records@[i]),
{
    if response_len == 0 {
        return Err(SentencePieceError::EncodeError);
    }
    pieces_from_records(records)
}

/// Each piece begins where the one before it ends, and the last one ends at
/// `text_len`.
pub open spec fn spans_contiguous(pieces: Seq<PieceWithId>, text_len: int) -> bool {
    &&& forall|i: int| 0 < i < pieces.len() ==> (#[trigger] pieces[i]).span.0 == pieces[i - 1].span.1
    &&& pieces.len() > 0 ==> pieces.last().span.1 == text_len
}

/// Each record begins where the one before it ends, and the last one ends at
/// `text_len`.
pub open spec fn records_contiguous(records: Seq<SentencePiece>, text_len: int) -> bool {
    &&& forall|i: int|
        0 < i < records.len() ==> (#[trigger] records[i]).begin->0 == records[i - 1].end->0
    &&& records.len() > 0 ==> records.last().end->0 == text_len
}

/// Validation keeps the spans that the engine reported: the pieces of an
/// encode result cover the text contiguously, ending at its byte length,
/// exactly when the response's records do.
pub proof fn lemma_spans_follow_records(
    records: Seq<SentencePiece>,
    pieces: Seq<PieceWithId>,
    text_len: int,
)
    requires
        pieces_of_records(records, pieces),
    ensures
        spans_contiguous(pieces, text_len) == records_contiguous(records, text_len),
{
    if spans_contiguous(pieces, text_len) {
        assert forall|i: int| 0 < i < records.len() implies (#[trigger] records[i]).begin->0
            == records[i - 1].end->0 by {
            assert(piece_of_record(records[i], pieces[i]));
            assert(piece_of_record(records[i - 1], pieces[i - 1]));
        }
        if records.len() > 0 {
            assert(piece_of_record(records[records.len() - 1], pieces[pieces.len() - 1]));
        }
    }
    if records_contiguous(records, text_len) {
        assert forall|i: int| 0 < i < pieces.len() implies (#[trigger] pieces[i]).span.0
            == pieces[i - 1].span.1 by {
            assert(piece_of_record(records[i], pieces[i]));
            assert(piece_of_record(records[i - 1], pieces[i - 1]));
        }
        if pieces.len() > 0 {
            assert(piece_of_record(records[records.len() - 1], pieces[pieces.len() - 1]));
        }
    }
}

} // verus!
