use chess::board::SquareNotation::{D6, E2};
use chess::board::{Board, CastlingAvailability, Square};
use chess::parser::{
    parse_active_color, parse_castling_availability, parse_en_passant_target_square,
    parse_forsyth_edwards_notation, parse_number, parse_piece, parse_piece_placement,
    parse_square, FieldIterator, ParseError,
};
use chess::piece::{Color, Kind, Piece};

fn relative_value(kind: &Kind) -> f32 {
    match kind {
        Kind::Pawn => 1.0,
        Kind::Knight => 3.05,
        Kind::Bishop => 3.33,
        Kind::Rook => 5.63,
        Kind::Queen => 9.5,
        Kind::King => f32::INFINITY,
    }
}

#[test]
fn invalid_piece_error() {
    let result = Board::forsyth_edwards_notation("rnbqkbnr/pppppppp/8/8/8/8/PPPPPPPP/RNBXKBNR w KQkq - 0 1");

    // The record contains an X in the piece placement field, which is invalid
    match result {
        Err(error) => assert_eq!(error, ParseError::InvalidPiece('X')),
        _ => assert!(false),
    };
}

#[test]
fn missing_white_pawn() {
    let result = Board::forsyth_edwards_notation("rnbqkbnr/pppppppp/8/8/8/8/PPPPPPP/RNBQKBNR w KQkq - 0 1");

    // The record is missing a white pawn
    match result {
        Err(error) => assert_eq!(error, ParseError::IncompletePiecePlacement),
        _ => assert!(false),
    };
}

#[test]
fn missing_empty_square() {
    let result = Board::forsyth_edwards_notation("rnbqkbnr/pppppppp/8/8/7/8/PPPPPPPP/RNBQKBNR w KQkq - 0 1");

    // The record is missing an empty square
    match result {
        Err(error) => assert_eq!(error, ParseError::IncompletePiecePlacement),
        _ => assert!(false),
    };
}

#[test]
fn missing_rank() {
    let result = Board::forsyth_edwards_notation("rnbqkbnr/pppppppp/8/8/8/PPPPPPPP/RNBQKBNR w KQkq - 0 1");

    // The record is missing an entire rank
    match result {
        Err(error) => assert_eq!(error, ParseError::IncompletePiecePlacement),
        _ => assert!(false),
    };
}

#[test]
fn missing_white_knight() {
    let result = Board::forsyth_edwards_notation("rnbqkbnr/pppppppp/8/8/8/PPPPPPPP/RBQKBNR w KQkq - 0 1");

    // The record is missing a white knight
    match result {
        Err(error) => assert_eq!(error, ParseError::IncompletePiecePlacement),
        _ => assert!(false),
    };
}

#[test]
fn invalid_active_color() {
    let result = Board::forsyth_edwards_notation("rnbqkbnr/pppppppp/8/8/8/8/PPPPPPPP/RNBQKBNR x KQkq - 0 1");

    // The record contains an x in the active color field, which is invalid
    match result {
        Err(error) => assert_eq!(error, ParseError::InvalidColor('x')),
        _ => assert!(false),
    };
}

#[test]
fn invalid_castling_availability() {
    let result = Board::forsyth_edwards_notation("rnbqkbnr/pppppppp/8/8/8/8/PPPPPPPP/RNBQKBNR w KQkx - 0 1");

    // The record contains an x in the castling availability field, which is invalid
    match result {
        Err(error) => assert_eq!(error, ParseError::InvalidCastling('x')),
        _ => assert!(false),
    };
}

#[test]
fn unexpected_end() {
    let result = Board::forsyth_edwards_notation("rnbqkbnr/pppppppp/8/8/8/8/PPPPPPPP/RNBQKBNR w KQkq");

    // The record is missing the last fields
    match result {
        Err(error) => assert_eq!(error, ParseError::UnexpectedEnd),
        _ => assert!(false),
    };
}

#[test]
fn valid_record_no_captures() {
    let result = Board::forsyth_edwards_notation("rnbqkb1r/ppp1pppp/8/3pP3/6n1/8/PPPPKPPP/RNBQ1BNR w kq d6 0 4");

    // This is a valid record
    match result {
        Ok(board) => {
            // Should still have 32 pieces on the board
            assert_eq!(board.pieces().len(), 32);
            // Should still have 16 white pieces
            assert_eq!(board.white_pieces().len(), 16);
            // Should still have 16 black pieces
            assert_eq!(board.black_pieces().len(), 16);
        }
        _ => assert!(false),
    };
}

#[test]
fn valid_record_end_game() {
    let result = Board::forsyth_edwards_notation("3r4/1p3pk1/p4b2/P3p2p/1PP1P1b1/4K1p1/1R6/2r5 b - - 0 37");

    // This is a valid record
    match result {
        Ok(board) => {
            // Should have only 17 pieces left
            assert_eq!(board.pieces().len(), 17);
            // Should have only 6 white pieces left
            assert_eq!(board.white_pieces().len(), 6);
            // Should have only 11 black pieces left
            assert_eq!(board.black_pieces().len(), 11);
        }
        _ => assert!(false),
    };
}

#[test]
fn starting_position() {
    // Starting position returns a Board without it being wrapped in a Result
    let board = Board::starting_position();

    // Should start with 32 pieces on the board
    assert_eq!(board.pieces().len(), 32);
    // Should start with 16 white pieces
    assert_eq!(board.white_pieces().len(), 16);
    // Should start with 16 black pieces
    assert_eq!(board.black_pieces().len(), 16);

    // (8 pawns × 2 moves) + (2 knights × 2 moves) = 20 moves
    assert_eq!(board.legal_moves().len(), 20);

    // Calculate the relative value of all the pieces (except the king)
    let total_value: f32 = board
        .white_pieces()
        .into_iter()
        .filter(|piece| *piece.kind() != Kind::King)
        .map(|piece| relative_value(piece.kind()))
        .sum();

    // Take floating point errors into account
    assert!(41.5 < total_value && total_value < 41.53);
}

#[test]
fn starting_record_gives_the_starting_position() {
    let board = parse_forsyth_edwards_notation("rnbqkbnr/pppppppp/8/8/8/8/PPPPPPPP/RNBQKBNR w KQkq - 0 1");
    assert_eq!(board, Ok(Board::starting_position()));
    let board = Board::starting_position();
    assert_eq!(board.pieces().len(), 32);
    assert_eq!(board.white_pieces().len(), 16);
    assert_eq!(board.black_pieces().len(), 16);
}

#[test]
fn record_fields_are_all_read() {
    let board = Board::forsyth_edwards_notation("rnbqkb1r/ppp1pppp/8/3pP3/6n1/8/PPPPKPPP/RNBQ1BNR w kq d6 12 40")
        .unwrap();
    assert_eq!(*board.active_color(), Color::White);
    let rights = board.castling_availability();
    assert!(!rights.is_short_castle_available(&Color::White));
    assert!(!rights.is_long_castle_available(&Color::White));
    assert!(rights.is_short_castle_available(&Color::Black));
    assert!(rights.is_long_castle_available(&Color::Black));
    assert_eq!(board.en_passant_target(), Some(Square::from(D6)));
    assert_eq!(board.halfmove_clock(), 12);
    assert_eq!(board.fullmove_number(), 40);
    assert_eq!(board.piece_at(&Square::from(E2)), Some(Piece::new(Color::White, Kind::King)));
    assert_eq!(board.piece_at(&Square::from(D6)), None);
}

#[test]
fn fields_may_be_set_apart_by_any_white_space() {
    let spaced = Board::forsyth_edwards_notation(" \t8/8/8/8/8/8/8/8\u{a0}b\n-   -\r\n3\u{3000}7  trailing words");
    let plain = Board::forsyth_edwards_notation("8/8/8/8/8/8/8/8 b - - 3 7");
    assert!(spaced.is_ok());
    assert_eq!(spaced, plain);
}

#[test]
fn empty_record_ends_unexpectedly() {
    assert_eq!(Board::forsyth_edwards_notation(""), Err(ParseError::UnexpectedEnd));
    assert_eq!(Board::forsyth_edwards_notation("  \n "), Err(ParseError::UnexpectedEnd));
    assert_eq!(Board::forsyth_edwards_notation("8/8/8/8/8/8/8/8 w - - 0"), Err(ParseError::UnexpectedEnd));
}

#[test]
fn invalid_en_passant_target_file() {
    let result = Board::forsyth_edwards_notation("rnbqkbnr/pppppppp/8/8/8/8/PPPPPPPP/RNBQKBNR w KQkq x3 0 1");
    assert_eq!(result, Err(ParseError::InvalidFile('x')));
}

#[test]
fn invalid_en_passant_target_rank() {
    let result = Board::forsyth_edwards_notation("rnbqkbnr/pppppppp/8/8/8/8/PPPPPPPP/RNBQKBNR w KQkq b9 0 1");
    assert_eq!(result, Err(ParseError::InvalidRank('9')));
}

#[test]
fn invalid_counters() {
    let result = Board::forsyth_edwards_notation("8/8/8/8/8/8/8/8 w - - x 1");
    assert_eq!(result, Err(ParseError::InvalidNumber));
    let result = Board::forsyth_edwards_notation("8/8/8/8/8/8/8/8 w - - 0 65536");
    assert_eq!(result, Err(ParseError::InvalidNumber));
}

#[test]
fn the_first_fault_is_the_one_reported() {
    // The faulty piece comes before the short rank.
    let result = Board::forsyth_edwards_notation("rnbqkbnr/ppXppppp/8/8/8/8/PPPPPPP/RNBQKBNR w KQkq - 0 1");
    assert_eq!(result, Err(ParseError::InvalidPiece('X')));
    // The short rank comes before the faulty piece.
    let result = Board::forsyth_edwards_notation("rnbqkbnr/ppppppp/8/8/8/8/PPPPPPPP/RNBXKBNR w KQkq - 0 1");
    assert_eq!(result, Err(ParseError::IncompletePiecePlacement));
    // The placement is read before the colour.
    let result = Board::forsyth_edwards_notation("8/8/8/8/8/8/8/7 x - - 0 1");
    assert_eq!(result, Err(ParseError::IncompletePiecePlacement));
}

#[test]
fn piece_placement_counts_files_and_ranks() {
    let placement = parse_piece_placement("8/8/8/8/8/8/8/4K2r").unwrap();
    assert_eq!(placement.get(&Square::from((5, 1))), Some(Piece::new(Color::White, Kind::King)));
    assert_eq!(placement.get(&Square::from((8, 1))), Some(Piece::new(Color::Black, Kind::Rook)));
    assert_eq!(placement.get(&Square::from((6, 1))), None);
    assert_eq!(parse_piece_placement("9/8/8/8/8/8/8/8"), Err(ParseError::InvalidPiece('9')));
    assert_eq!(parse_piece_placement("0/8/8/8/8/8/8/8"), Err(ParseError::InvalidPiece('0')));
    assert_eq!(parse_piece_placement("88/8/8/8/8/8/8/8"), Err(ParseError::IncompletePiecePlacement));
    assert_eq!(parse_piece_placement("8/8/8/8/8/8/8/8/8"), Err(ParseError::IncompletePiecePlacement));
    assert_eq!(parse_piece_placement("8/8/8/8/8/8/8/8/"), Err(ParseError::IncompletePiecePlacement));
    assert_eq!(parse_piece_placement("ppppppppp/8/8/8/8/8/8/8"), Err(ParseError::IncompletePiecePlacement));
    assert_eq!(parse_piece_placement(""), Err(ParseError::IncompletePiecePlacement));
    let long = "8".repeat(40);
    assert_eq!(parse_piece_placement(&long), Err(ParseError::IncompletePiecePlacement));
    let deep = "8/".repeat(300);
    assert_eq!(parse_piece_placement(&deep), Err(ParseError::IncompletePiecePlacement));
}

#[test]
fn piece_letters() {
    assert_eq!(parse_piece('Q'), Ok(Piece::new(Color::White, Kind::Queen)));
    assert_eq!(parse_piece('n'), Ok(Piece::new(Color::Black, Kind::Knight)));
    assert_eq!(parse_piece('x'), Err(ParseError::InvalidPiece('x')));
    for letter in ['B', 'K', 'N', 'P', 'Q', 'R', 'b', 'k', 'n', 'p', 'q', 'r'] {
        assert_eq!(parse_piece(letter).unwrap().board_representation(), letter);
    }
}

#[test]
fn active_colour_is_one_letter() {
    assert_eq!(parse_active_color("w"), Ok(Color::White));
    assert_eq!(parse_active_color("b"), Ok(Color::Black));
    assert_eq!(parse_active_color("W"), Err(ParseError::InvalidColor('W')));
    assert_eq!(parse_active_color("-"), Err(ParseError::InvalidColor('-')));
    assert_eq!(parse_active_color("wx"), Err(ParseError::InvalidColor('x')));
    assert_eq!(parse_active_color("white"), Err(ParseError::InvalidColor('h')));
    assert_eq!(parse_active_color("bw"), Err(ParseError::InvalidColor('w')));
    assert_eq!(parse_active_color("xw"), Err(ParseError::InvalidColor('x')));
    assert_eq!(parse_active_color(""), Err(ParseError::UnexpectedEnd));
}

#[test]
fn castling_field() {
    assert_eq!(parse_castling_availability("KQkq"), Ok(CastlingAvailability::new(true, true, true, true)));
    assert_eq!(parse_castling_availability("-"), Ok(CastlingAvailability::new(false, false, false, false)));
    assert_eq!(parse_castling_availability("Kq"), Ok(CastlingAvailability::new(true, false, false, true)));
    assert_eq!(parse_castling_availability("qK"), Ok(CastlingAvailability::new(true, false, false, true)));
    assert_eq!(parse_castling_availability("kk"), Ok(CastlingAvailability::new(false, false, true, false)));
    assert_eq!(parse_castling_availability("Q"), Ok(CastlingAvailability::new(false, true, false, false)));
    // A dash stands for no rights only as the whole field.
    assert_eq!(parse_castling_availability("-x"), Err(ParseError::InvalidCastling('-')));
    assert_eq!(parse_castling_availability("K-x"), Err(ParseError::InvalidCastling('-')));
    assert_eq!(parse_castling_availability("K-"), Err(ParseError::InvalidCastling('-')));
    assert_eq!(parse_castling_availability("Q-x"), Err(ParseError::InvalidCastling('-')));
    assert_eq!(parse_castling_availability("--"), Err(ParseError::InvalidCastling('-')));
    // The first character that does not belong is the one reported.
    assert_eq!(parse_castling_availability("Qx-"), Err(ParseError::InvalidCastling('x')));
    assert_eq!(parse_castling_availability("KQkx"), Err(ParseError::InvalidCastling('x')));
    assert_eq!(parse_castling_availability("x"), Err(ParseError::InvalidCastling('x')));
    assert_eq!(CastlingAvailability::default(), CastlingAvailability::new(true, true, true, true));
}

#[test]
fn en_passant_field() {
    assert_eq!(parse_en_passant_target_square("-"), Ok(None));
    assert_eq!(parse_en_passant_target_square("d6"), Ok(Some(Square::from(D6))));
    assert_eq!(parse_en_passant_target_square("a1"), Ok(Some(Square::from((1, 1)))));
    assert_eq!(parse_en_passant_target_square("h8"), Ok(Some(Square::from((8, 8)))));
    // The file letter is looked at first.
    assert_eq!(parse_en_passant_target_square("x"), Err(ParseError::InvalidFile('x')));
    assert_eq!(parse_en_passant_target_square("x3"), Err(ParseError::InvalidFile('x')));
    assert_eq!(parse_en_passant_target_square("i3"), Err(ParseError::InvalidFile('i')));
    assert_eq!(parse_en_passant_target_square("-3"), Err(ParseError::InvalidFile('-')));
    assert_eq!(parse_en_passant_target_square("--"), Err(ParseError::InvalidFile('-')));
    assert_eq!(parse_en_passant_target_square("D6"), Err(ParseError::InvalidFile('D')));
    // Then the rank digit.
    assert_eq!(parse_en_passant_target_square("d"), Err(ParseError::UnexpectedEnd));
    assert_eq!(parse_en_passant_target_square("a0"), Err(ParseError::InvalidRank('0')));
    assert_eq!(parse_en_passant_target_square("b9"), Err(ParseError::InvalidRank('9')));
    // Nothing may follow the two.
    assert_eq!(parse_en_passant_target_square("d6x"), Err(ParseError::InvalidRank('x')));
    assert_eq!(parse_en_passant_target_square("d66"), Err(ParseError::InvalidRank('6')));
    assert_eq!(parse_en_passant_target_square(""), Err(ParseError::UnexpectedEnd));
}

#[test]
fn counters() {
    assert_eq!(parse_number("0"), Ok(0));
    assert_eq!(parse_number("37"), Ok(37));
    assert_eq!(parse_number("007"), Ok(7));
    assert_eq!(parse_number("+5"), Ok(5));
    assert_eq!(parse_number("65535"), Ok(65535));
    assert_eq!(parse_number("65536"), Err(ParseError::InvalidNumber));
    assert_eq!(parse_number("99999999999999999999999"), Err(ParseError::InvalidNumber));
    assert_eq!(parse_number("-1"), Err(ParseError::InvalidNumber));
    assert_eq!(parse_number("+"), Err(ParseError::InvalidNumber));
    assert_eq!(parse_number("++1"), Err(ParseError::InvalidNumber));
    assert_eq!(parse_number("1a"), Err(ParseError::InvalidNumber));
    assert_eq!(parse_number(""), Err(ParseError::InvalidNumber));
    for text in ["0", "12", "+12", "0012", "65535", "65536", "1x", "x", "+", "", "٣"] {
        assert_eq!(parse_number(text).ok(), text.parse::<u16>().ok());
    }
}

#[test]
fn faulty_fields_fail_the_whole_record() {
    let records = [
        ("8/8/8/8/8/8/8/8 wx - - 0 1", ParseError::InvalidColor('x')),
        ("8/8/8/8/8/8/8/8 w K-x - 0 1", ParseError::InvalidCastling('-')),
        ("8/8/8/8/8/8/8/8 w -x - 0 1", ParseError::InvalidCastling('-')),
        ("8/8/8/8/8/8/8/8 w - -3 0 1", ParseError::InvalidFile('-')),
        ("8/8/8/8/8/8/8/8 w - d6x 0 1", ParseError::InvalidRank('x')),
        ("8/8/8/8/8/8/8/8 w - d 0 1", ParseError::UnexpectedEnd),
    ];
    for (record, fault) in records {
        assert_eq!(Board::forsyth_edwards_notation(record), Err(fault));
    }
}

#[test]
fn squares_by_name() {
    assert_eq!(parse_square("e2"), Ok(Square::from(E2)));
    assert_eq!("e2".parse::<Square>(), Ok(Square::from(E2)));
    assert_eq!(parse_square(""), Err(ParseError::UnexpectedEnd));
    assert_eq!(parse_square("e"), Err(ParseError::UnexpectedEnd));
    assert_eq!(parse_square("x"), Err(ParseError::InvalidFile('x')));
    assert_eq!(parse_square("e9"), Err(ParseError::InvalidRank('9')));
}

#[test]
fn field_iterator_walks_the_fields() {
    let mut fields = FieldIterator::new("  one two\t\tthree ");
    assert_eq!(fields.next(), Ok("one"));
    assert_eq!(fields.next(), Ok("two"));
    assert_eq!(fields.next(), Ok("three"));
    assert_eq!(fields.next(), Err(ParseError::UnexpectedEnd));
    assert_eq!(fields.next(), Err(ParseError::UnexpectedEnd));
    let text = "a\u{2003}ß\u{85}c";
    let mut fields = FieldIterator::new(text);
    let mut found = Vec::new();
    while let Ok(field) = fields.next() {
        found.push(field);
    }
    assert_eq!(found, text.split_whitespace().collect::<Vec<&str>>());
}

#[test]
fn positions_are_written_as_records() {
    assert_eq!(
        Board::starting_position().to_forsyth_edwards_notation(),
        "rnbqkbnr/pppppppp/8/8/8/8/PPPPPPPP/RNBQKBNR w KQkq - 0 1"
    );
    assert_eq!(Board::empty().to_forsyth_edwards_notation(), "8/8/8/8/8/8/8/8 w - - 0 1");
}

#[test]
fn records_read_back() {
    let records = [
        "rnbqkbnr/pppppppp/8/8/8/8/PPPPPPPP/RNBQKBNR w KQkq - 0 1",
        "rnbqkb1r/ppp1pppp/8/3pP3/6n1/8/PPPPKPPP/RNBQ1BNR w kq d6 0 4",
        "3r4/1p3pk1/p4b2/P3p2p/1PP1P1b1/4K1p1/1R6/2r5 b - - 0 37",
        "8/8/8/8/8/8/8/8 b Qk a3 65535 0",
        "p6P/1p4P1/2p2P2/3pP3/3Pp3/2P2p2/1P4p1/P6p w K h6 10 65535",
    ];
    for record in records {
        let board = Board::forsyth_edwards_notation(record).unwrap();
        assert_eq!(board.to_forsyth_edwards_notation(), record);
        assert_eq!(Board::forsyth_edwards_notation(&board.to_forsyth_edwards_notation()), Ok(board));
    }
    // A record written loosely reads as the same position as its tidy form.
    let loose = Board::forsyth_edwards_notation("  44/8/8/8/8/8/8/8   w   qKq   e3  +007   012  more").unwrap();
    assert_eq!(loose.to_forsyth_edwards_notation(), "8/8/8/8/8/8/8/8 w Kq e3 7 12");
    assert_eq!(Board::forsyth_edwards_notation(&loose.to_forsyth_edwards_notation()), Ok(loose));
}
