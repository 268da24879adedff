use sentencepiece::{
    PieceWithId, SentencePiece, SentencePieceError, piece_from_record, pieces_from_records,
    process_encode_protobuf,
};

fn record(piece: &str, id: u32, begin: u32, end: u32) -> SentencePiece {
    SentencePiece {
        piece: Some(piece.to_string()),
        id: Some(id),
        surface: Some(piece.to_string()),
        begin: Some(begin),
        end: Some(end),
    }
}

fn piece(piece: &str, id: u32, span: (u32, u32)) -> PieceWithId {
    PieceWithId {
        piece: piece.to_string(),
        id,
        span,
    }
}

fn telescope_records() -> Vec<SentencePiece> {
    vec![
        record("▁I", 8, 0, 1),
        record("▁saw", 465, 1, 5),
        record("▁a", 10, 5, 7),
        record("▁girl", 947, 7, 12),
        record("▁with", 41, 12, 17),
        record("▁a", 10, 17, 19),
        record("▁t", 170, 19, 21),
        record("el", 168, 21, 23),
        record("es", 110, 23, 25),
        record("c", 28, 25, 26),
        record("o", 20, 26, 27),
        record("pe", 143, 27, 29),
        record(".", 4, 29, 30),
    ]
}

#[test]
fn encode_response_gives_the_pieces_in_order() {
    let records = telescope_records();
    let pieces = process_encode_protobuf(120, &records).unwrap();
    assert_eq!(
        pieces,
        vec![
            piece("▁I", 8, (0, 1)),
            piece("▁saw", 465, (1, 5)),
            piece("▁a", 10, (5, 7)),
            piece("▁girl", 947, (7, 12)),
            piece("▁with", 41, (12, 17)),
            piece("▁a", 10, (17, 19)),
            piece("▁t", 170, (19, 21)),
            piece("el", 168, (21, 23)),
            piece("es", 110, (23, 25)),
            piece("c", 28, (25, 26)),
            piece("o", 20, (26, 27)),
            piece("pe", 143, (27, 29)),
            piece(".", 4, (29, 30)),
        ]
    );
}

#[test]
fn encoded_spans_are_contiguous_over_the_text() {
    let text = "I saw a girl with a telescope.";
    let pieces = process_encode_protobuf(120, &telescope_records()).unwrap();
    for pair in pieces.windows(2) {
        assert_eq!(pair[1].span.0, pair[0].span.1);
    }
    assert_eq!(pieces.last().unwrap().span.1 as usize, text.len());
}

#[test]
fn nul_piece_survives_validation() {
    let records = vec![
        record("▁T", 239, 0, 1),
        record("est", 382, 1, 4),
        record("\u{0}", 0, 4, 5),
        record("▁", 7, 5, 6),
        record("n", 24, 6, 7),
        record("ul", 231, 7, 9),
    ];
    let pieces = process_encode_protobuf(40, &records).unwrap();
    assert_eq!(pieces[2], piece("\u{0}", 0, (4, 5)));
    assert_eq!(pieces.len(), 6);
}

#[test]
fn empty_response_is_an_encode_error() {
    assert_eq!(
        process_encode_protobuf(0, &telescope_records()),
        Err(SentencePieceError::EncodeError)
    );
    assert_eq!(
        process_encode_protobuf(0, &Vec::new()),
        Err(SentencePieceError::EncodeError)
    );
}

#[test]
fn response_without_records_gives_no_pieces() {
    assert_eq!(process_encode_protobuf(2, &Vec::new()), Ok(Vec::new()));
}

#[test]
fn each_missing_field_is_named() {
    let full = record("pe", 143, 27, 29);
    let mut no_piece = full.clone();
    no_piece.piece = None;
    let mut no_id = full.clone();
    no_id.id = None;
    let mut no_begin = full.clone();
    no_begin.begin = None;
    let mut no_end = full.clone();
    no_end.end = None;
    let mut no_surface = full.clone();
    no_surface.surface = None;
    let missing = |name: &str| Err(SentencePieceError::MissingData(name.to_string()));
    assert_eq!(piece_from_record(&no_piece), missing("piece"));
    assert_eq!(piece_from_record(&no_id), missing("id"));
    assert_eq!(piece_from_record(&no_begin), missing("begin"));
    assert_eq!(piece_from_record(&no_end), missing("end"));
    assert_eq!(piece_from_record(&no_surface), Ok(piece("pe", 143, (27, 29))));
}

#[test]
fn first_missing_field_of_first_incomplete_record_wins() {
    let mut records = telescope_records();
    records[3].end = None;
    records[5].piece = None;
    records[3].id = None;
    assert_eq!(
        pieces_from_records(&records),
        Err(SentencePieceError::MissingData("id".to_string()))
    );
    assert_eq!(
        process_encode_protobuf(9, &records),
        Err(SentencePieceError::MissingData("id".to_string()))
    );
}

#[test]
fn empty_record_lacks_its_piece_first() {
    assert_eq!(
        pieces_from_records(&vec![SentencePiece::default()]),
        Err(SentencePieceError::MissingData("piece".to_string()))
    );
}
