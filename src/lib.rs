//! Binding layer around a native subword tokenization engine.
//!
//! The library holds the parts of the binding that decide things: how the
//! engine's integer status codes translate into errors, how the records of an
//! encode response become pieces, which requests are rejected before they
//! reach the engine, and how the engine's sentinel ids read.
pub mod decode;
pub mod error;
pub mod piece;
pub mod request;
pub mod status;

pub use decode::process_decoded;
pub use error::{SentencePieceError, status_result};
pub use piece::{
    PieceWithId, SentencePiece, piece_from_record, pieces_from_records, process_encode_protobuf,
};
pub use request::{
    MAX_N_BEST, check_filename, check_pieces, has_nul, known_piece_id, native_n_best, optional_id,
    piece_count, required_id,
};
pub use status::{CSentencePieceError, is_known_status};
