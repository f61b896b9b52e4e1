use chess::board::SquareNotation::{
    A1, A2, A3, A4, A7, A8, B1, B3, B5, C1, C3, C6, D1, D4, D5, D6, D7, D8, E1, E2, E4, E5, E6,
    E7, E8, F1, F3, F5, F6, G1, G8, H1, H3, H7, H8,
};
use chess::board::{
    Action, Board, BoardError, CastlingAvailability, ChessMove, Direction, File, Line,
    MoveStatus, Offset, PiecePlacement, Rank, Square, SquareIterator, SquareStatus,
};
use chess::piece::{Color, Kind, Piece};

fn board(record: &str) -> Board {
    Board::forsyth_edwards_notation(record).unwrap()
}

fn plain(piece: Piece, origin: Square, action: Action, destination: Square) -> ChessMove {
    ChessMove::new(piece, origin, action, destination, MoveStatus::Nothing)
}

fn white(kind: Kind) -> Piece {
    Piece::new(Color::White, kind)
}

fn black(kind: Kind) -> Piece {
    Piece::new(Color::Black, kind)
}

#[test]
fn knight_step_from_g8_reaches_f6() {
    let start = Square::from(G8);
    let destination = start.translate(Offset::new(-1, -2));
    assert_eq!(destination, Square::new(File::from(6), Rank::from(6)));
    assert_eq!(destination, Square::from(F6));
    assert!(destination.is_on_board());
}

#[test]
fn steps_off_the_board_are_not_held_back() {
    let corner = Square::from(A1);
    let off = corner.translate(Offset::new(-1, 0));
    assert_eq!(off, Square::from((0, 1)));
    assert!(!off.is_on_board());
    let far = Square::from(H8).translate(Offset::new(1, 1));
    assert_eq!(far, Square::from((9, 9)));
    assert!(!far.is_on_board());
    assert!(!Board::empty().is_valid(&far));
    assert!(Board::empty().is_valid(&corner));
    assert_eq!(Square::from((250, 4)).translate(Offset::new(100, -100)), Square::from((255, 0)));
}

#[test]
fn offsets_scale() {
    assert_eq!(Offset::new(0, -1).scale(5), Some(Offset::new(0, -5)));
    assert_eq!(Offset::new(1, 1).scale(0), Some(Offset::new(0, 0)));
    assert_eq!(Offset::new(2, -1).scale(64), None);
    assert_eq!(Offset::new(-1, 1).scale(128), None);
    assert_eq!(Offset::new(-1, 1).scale(127), Some(Offset::new(-127, 127)));
    assert_eq!(Direction::DiagonalRightDown.offset(), Offset::new(1, -1));
    assert_eq!(Offset::new(3, -4).file(), 3);
    assert_eq!(Offset::new(3, -4).rank(), -4);
}

#[test]
fn line_from_c1_runs_to_h6() {
    let line = Line::new(Square::from(C1), Direction::DiagonalRightUp).squares();
    let names: Vec<Square> = vec![(4, 2), (5, 3), (6, 4), (7, 5), (8, 6)]
        .into_iter()
        .map(Square::from)
        .collect();
    assert_eq!(line, names);
    assert!(Line::new(Square::from(H8), Direction::VerticalUp).squares().is_empty());
    assert_eq!(Line::new(Square::from(A1), Direction::HorizontalRight).squares().len(), 7);
    assert!(Line::new(Square::from((0, 4)), Direction::HorizontalRight).squares().is_empty());
}

#[test]
fn knight_and_king_squares_stay_on_the_board() {
    assert_eq!(Square::from(A1).squares_on_knight_moves(), vec![Square::from((2, 3)), Square::from((3, 2))]);
    assert_eq!(Square::from(D4).squares_on_knight_moves().len(), 8);
    assert_eq!(Square::from(H8).squares_on_king_move().len(), 3);
    assert_eq!(Square::from(E4).squares_on_king_move().len(), 8);
}

#[test]
fn status_is_relative_to_the_colour_that_asks() {
    let start = Board::starting_position();
    assert_eq!(start.status(&Square::from((3, 7)), &Color::White), SquareStatus::TakenByOpposite);
    assert_eq!(start.status(&Square::from((3, 7)), &Color::Black), SquareStatus::TakenBySame);
    assert_eq!(start.status(&Square::from(E4), &Color::White), SquareStatus::Empty);
    assert_eq!(start.status(&Square::from((9, 9)), &Color::White), SquareStatus::Empty);
    assert!(start.is_empty(&Square::from(E4)));
    assert!(!start.is_empty(&Square::from(E2)));
}

#[test]
fn sliding_stops_at_pieces() {
    let position = board("8/8/8/8/1p1R2P1/8/8/8 w - - 0 1");
    let rook = white(Kind::Rook);
    let origin = Square::from(D4);
    let left = SquareIterator::from_direction(&rook, &origin, &position, None, Direction::HorizontalLeft);
    assert_eq!(left, vec![Square::from((3, 4)), Square::from((2, 4))]);
    let right = SquareIterator::from_direction(&rook, &origin, &position, None, Direction::HorizontalRight);
    assert_eq!(right, vec![Square::from((5, 4)), Square::from((6, 4))]);
    let up = SquareIterator::from_direction(&rook, &origin, &position, Some(2), Direction::VerticalUp);
    assert_eq!(up, vec![Square::from((4, 5)), Square::from((4, 6))]);
    let none = SquareIterator::from_direction(&rook, &origin, &position, Some(0), Direction::VerticalUp);
    assert!(none.is_empty());
    let all = SquareIterator::from_direction(&rook, &origin, &position, Some(200), Direction::VerticalUp);
    assert_eq!(all.len(), 4);
    let moves = position.legal_rook_moves(&origin, &rook);
    assert_eq!(moves.len(), 2 + 2 + 4 + 3);
    assert!(moves.contains(&plain(rook, origin, Action::Capture, Square::from((2, 4)))));
    assert!(moves.contains(&plain(rook, origin, Action::Move, Square::from((6, 4)))));
    assert!(!moves.iter().any(|m| *m.destination_square() == Square::from((7, 4))));
    assert!(!moves.iter().any(|m| *m.destination_square() == Square::from((1, 4))));
}

#[test]
fn single_jumps() {
    let position = board("8/8/2p5/8/1N6/3P4/8/8 w - - 0 1");
    let knight = white(Kind::Knight);
    let origin = Square::from((2, 4));
    assert_eq!(
        SquareIterator::from_single_offset(&knight, &origin, &position, Offset::new(1, 2)),
        vec![Square::from(C6)]
    );
    assert!(SquareIterator::from_single_offset(&knight, &origin, &position, Offset::new(2, -1)).is_empty());
    assert!(SquareIterator::from_single_offset(&knight, &origin, &position, Offset::new(-2, 1)).is_empty());
    assert_eq!(
        SquareIterator::from_single_offset(&knight, &origin, &position, Offset::new(2, 1)),
        vec![Square::from(D5)]
    );
    let moves = position.legal_knight_moves(&origin, &knight);
    assert_eq!(moves.len(), 5);
    assert!(moves.contains(&plain(knight, origin, Action::Capture, Square::from(C6))));
    assert!(moves.contains(&plain(knight, origin, Action::Move, Square::from(D5))));
}

#[test]
fn moves_for_lines_and_groups() {
    let position = board("8/8/8/8/1p1R2P1/8/8/8 w - - 0 1");
    let rook = white(Kind::Rook);
    let origin = Square::from(D4);
    let lines = vec![
        vec![Square::from((3, 4)), Square::from((2, 4)), Square::from((1, 4))],
        vec![Square::from((5, 4)), Square::from((6, 4)), Square::from((7, 4)), Square::from((8, 4))],
        vec![],
    ];
    let moves = position.legal_moves_for_lines(&origin, &rook, lines);
    assert_eq!(
        moves,
        vec![
            plain(rook, origin, Action::Move, Square::from((3, 4))),
            plain(rook, origin, Action::Capture, Square::from((2, 4))),
            plain(rook, origin, Action::Move, Square::from((5, 4))),
            plain(rook, origin, Action::Move, Square::from((6, 4))),
        ]
    );
    let group = vec![Square::from((2, 4)), Square::from((7, 4)), Square::from((1, 1))];
    let moves = position.legal_moves_for_group(&origin, &rook, group);
    assert_eq!(
        moves,
        vec![
            plain(rook, origin, Action::Capture, Square::from((2, 4))),
            plain(rook, origin, Action::Move, Square::from((1, 1))),
        ]
    );
}

#[test]
fn pawn_advances() {
    let start = Board::starting_position();
    let pawn = white(Kind::Pawn);
    let moves = start.legal_pawn_moves(&Square::from(E2), &pawn);
    assert_eq!(
        moves,
        vec![
            plain(pawn, Square::from(E2), Action::Move, Square::from((5, 3))),
            plain(pawn, Square::from(E2), Action::Move, Square::from(E4)),
        ]
    );
    // A piece two squares ahead leaves one step; a piece right ahead leaves none.
    let blocked = board("8/8/8/8/4n3/7n/4P2P/8 w - - 0 1");
    assert_eq!(blocked.legal_pawn_moves(&Square::from(E2), &pawn).len(), 1);
    assert_eq!(blocked.legal_pawn_moves(&Square::from((8, 2)), &pawn).len(), 0);
    // Off the starting rank there is one step only.
    let later = board("8/8/8/8/8/4P3/8/8 w - - 0 1");
    assert_eq!(
        later.legal_pawn_moves(&Square::from((5, 3)), &pawn),
        vec![plain(pawn, Square::from((5, 3)), Action::Move, Square::from(E4))]
    );
    // Black pawns walk down the board.
    let dark = black(Kind::Pawn);
    assert_eq!(
        start.legal_pawn_moves(&Square::from(D7), &dark),
        vec![
            plain(dark, Square::from(D7), Action::Move, Square::from(D6)),
            plain(dark, Square::from(D7), Action::Move, Square::from(D5)),
        ]
    );
}

#[test]
fn pawn_captures_and_en_passant() {
    let position = board("8/8/3p1n2/4P3/8/8/8/8 w - - 0 1");
    let pawn = white(Kind::Pawn);
    let moves = position.legal_pawn_moves(&Square::from(E5), &pawn);
    assert_eq!(
        moves,
        vec![
            plain(pawn, Square::from(E5), Action::Move, Square::from(E6)),
            plain(pawn, Square::from(E5), Action::Capture, Square::from(D6)),
            plain(pawn, Square::from(E5), Action::Capture, Square::from(F6)),
        ]
    );
    let passing = board("8/8/8/3pPp2/8/8/8/8 w - f6 0 1");
    let moves = passing.legal_pawn_moves(&Square::from(E5), &pawn);
    assert_eq!(
        moves,
        vec![
            plain(pawn, Square::from(E5), Action::Move, Square::from(E6)),
            plain(pawn, Square::from(E5), Action::EnPassant, Square::from(F6)),
        ]
    );
    // Own pieces are not captured.
    let own = board("8/8/3N1N2/4P3/8/8/8/8 w - - 0 1");
    assert_eq!(own.legal_pawn_moves(&Square::from(E5), &pawn).len(), 1);
    // On the edge there is one diagonal only.
    let edge = board("8/8/1p6/P7/8/8/8/8 w - - 0 1");
    assert_eq!(edge.legal_pawn_moves(&Square::from((1, 5)), &pawn).len(), 2);
}

#[test]
fn pawn_promotions_come_in_fours() {
    let position = board("3n4/4P3/8/8/8/8/8/8 w - - 0 1");
    let pawn = white(Kind::Pawn);
    let origin = Square::from(E7);
    let moves = position.legal_pawn_moves(&origin, &pawn);
    assert_eq!(
        moves,
        vec![
            plain(pawn, origin, Action::MovePromotion(Kind::Bishop), Square::from(E8)),
            plain(pawn, origin, Action::MovePromotion(Kind::Knight), Square::from(E8)),
            plain(pawn, origin, Action::MovePromotion(Kind::Rook), Square::from(E8)),
            plain(pawn, origin, Action::MovePromotion(Kind::Queen), Square::from(E8)),
            plain(pawn, origin, Action::CapturePromotion(Kind::Bishop), Square::from(D8)),
            plain(pawn, origin, Action::CapturePromotion(Kind::Knight), Square::from(D8)),
            plain(pawn, origin, Action::CapturePromotion(Kind::Rook), Square::from(D8)),
            plain(pawn, origin, Action::CapturePromotion(Kind::Queen), Square::from(D8)),
        ]
    );
    assert_eq!(pawn.target_squares(&origin, &position), vec![Square::from(E8), Square::from(D8)]);
    let dark = board("8/8/8/8/8/8/p7/1R6 b - - 0 1");
    let moves = dark.legal_pawn_moves(&Square::from(A2), &black(Kind::Pawn));
    assert_eq!(moves.len(), 8);
    assert!(moves.iter().all(|m| m.destination_square().rank().value() == 1));
}

#[test]
fn castling_is_offered_when_the_way_is_clear() {
    let position = board("r3k2r/8/8/8/8/8/8/R3K2R w KQkq - 0 1");
    let king = white(Kind::King);
    let moves = position.legal_king_moves(&Square::from(E1), &king);
    assert_eq!(moves.len(), 7);
    assert_eq!(moves[5], plain(king, Square::from(E1), Action::ShortCastle, Square::from(G1)));
    assert_eq!(moves[6], plain(king, Square::from(E1), Action::LongCastle, Square::from(C1)));
    let dark = position.legal_king_moves(&Square::from(E8), &black(Kind::King));
    assert!(dark.contains(&plain(black(Kind::King), Square::from(E8), Action::ShortCastle, Square::from(G8))));
    assert!(dark.contains(&plain(black(Kind::King), Square::from(E8), Action::LongCastle, Square::from((3, 8)))));
    // Without the right there is no castling.
    let spent = board("r3k2r/8/8/8/8/8/8/R3K2R w Kq - 0 1");
    let moves = spent.legal_king_moves(&Square::from(E1), &king);
    assert!(moves.contains(&plain(king, Square::from(E1), Action::ShortCastle, Square::from(G1))));
    assert!(!moves.iter().any(|m| *m.action() == Action::LongCastle));
    // A piece in between bars the way: b1 counts for the long side.
    let barred = board("r3k2r/8/8/8/8/8/8/RN2K1NR w KQkq - 0 1");
    let moves = barred.legal_king_moves(&Square::from(E1), &king);
    assert!(!moves.iter().any(|m| m.action().is_castle()));
    // A king away from home does not castle, whatever the rights say.
    let away = board("8/8/8/8/8/8/4K3/R6R w KQ - 0 1");
    let moves = away.legal_king_moves(&Square::from(E2), &king);
    assert!(!moves.iter().any(|m| m.action().is_castle()));
    assert_eq!(moves.len(), 8);
}

#[test]
fn twenty_moves_at_the_start_none_a_capture() {
    let start = Board::starting_position();
    let moves = start.legal_moves();
    assert_eq!(moves.len(), 20);
    assert!(moves.iter().all(|m| *m.action() == Action::Move));
    assert_eq!(moves.iter().filter(|m| *m.piece().kind() == Kind::Pawn).count(), 16);
    assert_eq!(moves.iter().filter(|m| *m.piece().kind() == Kind::Knight).count(), 4);
    assert_eq!(start.pseudo_legal_moves(), moves);
    assert_eq!(moves[0], plain(white(Kind::Knight), Square::from(B1), Action::Move, Square::from(C3)));
    assert_eq!(moves[1], plain(white(Kind::Knight), Square::from(B1), Action::Move, Square::from(A3)));
    assert_eq!(moves[4], plain(white(Kind::Pawn), Square::from(A2), Action::Move, Square::from(A3)));
    assert_eq!(moves[5], plain(white(Kind::Pawn), Square::from(A2), Action::Move, Square::from(A4)));
}

#[test]
fn end_game_has_forty_five_moves() {
    let position = board("3r4/1p3pk1/p4b2/P3p2p/1PP1P1b1/4K1p1/1R6/2r5 b - - 0 37");
    // (1+1+2) pawn moves, (3+8) bishop moves, (10+14) rook moves, 6 king moves
    assert_eq!(position.pseudo_legal_moves().len(), 45);
    assert_eq!(position.legal_moves().len(), 45);
}

#[test]
fn special_moves_allowed() {
    let position = board("rnbqkbnr/pp2p1pp/8/1p1pPp2/8/5N2/PPPP1PPP/RNBQK2R w KQkq f6 0 5");
    let moves = position.legal_moves();
    // 14 pawn moves, 2 rook moves, 3 king moves, 1 queen move, 6 knight moves
    assert_eq!(moves.len(), 26);
    assert!(moves.iter().any(|m| *m.action() == Action::EnPassant));
    assert!(moves.iter().any(|m| *m.action() == Action::ShortCastle));
}

#[test]
fn no_move_stays_where_it_starts() {
    let records = [
        "rnbqkbnr/pppppppp/8/8/8/8/PPPPPPPP/RNBQKBNR w KQkq - 0 1",
        "r3k2r/8/8/8/8/8/8/R3K2R b KQkq - 0 1",
        "3r4/1p3pk1/p4b2/P3p2p/1PP1P1b1/4K1p1/1R6/2r5 b - - 0 37",
        "6K1/8/8/8/8/8/8/R3k2R w KQkq - 0 1",
        "8/P6p/8/8/8/8/p6P/8 w - - 0 1",
    ];
    for record in records {
        let position = board(record);
        for color in [Color::White, Color::Black] {
            for m in position.moves_of(color) {
                assert_ne!(m.origin_square(), m.destination_square());
                assert!(m.origin_square().is_on_board());
                assert!(m.destination_square().is_on_board());
                assert_eq!(position.piece_at(m.origin_square()), Some(*m.piece()));
                assert_eq!(*m.piece().color(), color);
            }
        }
    }
}

#[test]
fn moves_go_to_the_target_squares() {
    let position = board("r3k2r/pp1n1ppp/2p1pn2/q2p4/1b1P1B2/2NBPN2/PPP2PPP/R2QK2R w KQkq - 4 9");
    for index in 0..64u8 {
        let origin = Square::from((index % 8 + 1, index / 8 + 1));
        if let Some(piece) = position.piece_at(&origin) {
            let targets = piece.target_squares(&origin, &position);
            let moves: Vec<ChessMove> = position
                .piece_moves(&origin, &piece)
                .into_iter()
                .filter(|m| !m.action().is_castle())
                .collect();
            let destinations: Vec<Square> = moves.iter().map(|m| *m.destination_square()).collect();
            assert_eq!(destinations, targets);
        }
    }
}

#[test]
fn check_is_seen() {
    let position = board("rnbqkbnr/ppp1p1pp/3p1p2/4P2Q/8/8/PPPP1PPP/RNB1KBNR b KQkq - 1 3");
    assert!(position.is_in_check(&Color::Black));
    assert!(!position.is_in_check(&Color::White));
    // The pawn steps in between, or the king steps aside.
    let moves = position.legal_moves();
    assert_eq!(
        moves,
        vec![
            plain(black(Kind::Pawn), Square::from((7, 7)), Action::Move, Square::from((7, 6))),
            plain(black(Kind::King), Square::from(E8), Action::Move, Square::from(D7)),
        ]
    );
    assert!(position.pseudo_legal_moves().len() > 1);
    // Without a king there is no check.
    let bare = board("8/8/8/8/8/8/8/R7 w - - 0 1");
    assert!(!bare.is_in_check(&Color::Black));
    assert!(!bare.is_in_check(&Color::White));
    // A pawn gives check diagonally, not straight ahead.
    let pawn = board("8/8/8/3k4/3PP3/8/8/8 b - - 0 1");
    assert!(pawn.is_in_check(&Color::Black));
    let ahead = board("8/8/8/3k4/3P4/8/8/8 b - - 0 1");
    assert!(!ahead.is_in_check(&Color::Black));
}

#[test]
fn pinned_pieces_stay() {
    // The knight on e2 shields the king on e1 from the rook on e8.
    let position = board("4r3/8/8/8/8/8/4N3/4K3 w - - 0 1");
    let moves = position.legal_moves();
    assert!(moves.iter().all(|m| *m.piece().kind() == Kind::King));
    assert_eq!(moves.len(), 4);
    assert_eq!(position.pseudo_legal_moves().len(), 4 + 6);
    let knight = plain(white(Kind::Knight), Square::from(E2), Action::Move, Square::from(C3));
    assert!(!position.is_legal(&knight));
    let king = plain(white(Kind::King), Square::from(E1), Action::Move, Square::from(D1));
    assert!(position.is_legal(&king));
}

#[test]
fn castling_needs_a_safe_path_and_a_rook() {
    let free = board("4k3/8/8/8/8/8/8/R3K2R w KQ - 0 1");
    let king = white(Kind::King);
    let short = plain(king, Square::from(E1), Action::ShortCastle, Square::from(G1));
    let long = plain(king, Square::from(E1), Action::LongCastle, Square::from(C1));
    assert!(free.is_legal(&short));
    assert!(free.is_legal(&long));
    // The king is in check.
    let checked = board("4k3/8/8/8/8/8/4r3/R3K2R w KQ - 0 1");
    assert!(!checked.is_legal(&short));
    assert!(!checked.is_legal(&long));
    // The king would cross an attacked square: f1 for the short side.
    let crossing = board("4k3/8/8/8/8/8/5r2/R3K2R w KQ - 0 1");
    assert!(!crossing.is_legal(&short));
    assert!(crossing.is_legal(&long));
    // The king would land on an attacked square.
    let landing = board("4k3/8/8/8/8/8/6r1/R3K2R w KQ - 0 1");
    assert!(!landing.is_legal(&short));
    assert!(landing.is_legal(&long));
    // An attack on b1 does not matter: the king does not pass it.
    let beside = board("4k3/8/8/8/8/8/1r6/R3K2R w KQ - 0 1");
    assert!(beside.is_legal(&long));
    // The right is there but the rook is not: the move is listed and not legal.
    let gone = board("4k3/8/8/8/8/8/8/R3K3 w KQ - 0 1");
    assert!(gone.pseudo_legal_moves().contains(&short));
    assert!(!gone.legal_moves().contains(&short));
    assert!(gone.legal_moves().contains(&long));
}

#[test]
fn quiet_moves_count_up_and_pawns_and_captures_reset() {
    let mut position = board("r3k2r/pppppppp/8/8/8/8/PPPPPPPP/R3K2R w KQkq - 7 10");
    let knight_like = plain(white(Kind::Rook), Square::from(A1), Action::Move, Square::from(B1));
    assert_eq!(position.make_move(knight_like), Ok(()));
    assert_eq!(position.halfmove_clock(), 8);
    assert_eq!(position.fullmove_number(), 10);
    assert_eq!(*position.active_color(), Color::Black);
    let reply = plain(black(Kind::Rook), Square::from(H8), Action::Move, Square::from(G8));
    assert_eq!(position.make_move(reply), Ok(()));
    assert_eq!(position.halfmove_clock(), 9);
    assert_eq!(position.fullmove_number(), 11);
    assert_eq!(*position.active_color(), Color::White);
    let pawn = plain(white(Kind::Pawn), Square::from(E2), Action::Move, Square::from(E4));
    assert_eq!(position.make_move(pawn), Ok(()));
    assert_eq!(position.halfmove_clock(), 0);
    assert_eq!(position.en_passant_target(), Some(Square::from((5, 3))));
    let quiet = plain(black(Kind::Rook), Square::from(G8), Action::Move, Square::from(H8));
    assert_eq!(position.make_move(quiet), Ok(()));
    assert_eq!(position.halfmove_clock(), 1);
    assert_eq!(position.en_passant_target(), None);
    let mut taking = board("8/8/8/8/8/8/r7/R7 w - - 30 50");
    let capture = plain(white(Kind::Rook), Square::from(A1), Action::Capture, Square::from(A2));
    assert_eq!(taking.make_move(capture), Ok(()));
    assert_eq!(taking.halfmove_clock(), 0);
    assert_eq!(taking.piece_at(&Square::from(A2)), Some(white(Kind::Rook)));
    assert_eq!(taking.piece_at(&Square::from(A1)), None);
    assert_eq!(taking.pieces().len(), 1);
}

#[test]
fn short_castle_moves_king_and_rook() {
    let mut position = board("r3k2r/8/8/8/8/8/8/R3K2R w KQkq - 3 20");
    let king = white(Kind::King);
    let castle = plain(king, Square::from(E1), Action::ShortCastle, Square::from(G1));
    assert_eq!(position.make_move(castle), Ok(()));
    assert_eq!(position.piece_at(&Square::from(G1)), Some(king));
    assert_eq!(position.piece_at(&Square::from(F1)), Some(white(Kind::Rook)));
    assert_eq!(position.piece_at(&Square::from(E1)), None);
    assert_eq!(position.piece_at(&Square::from(H1)), None);
    assert_eq!(position.piece_at(&Square::from(A1)), Some(white(Kind::Rook)));
    let rights = *position.castling_availability();
    assert_eq!(rights, CastlingAvailability::new(false, false, true, true));
    assert_eq!(position.halfmove_clock(), 4);
    // Black castles long.
    let dark = black(Kind::King);
    let castle = plain(dark, Square::from(E8), Action::LongCastle, Square::from((3, 8)));
    assert_eq!(position.make_move(castle), Ok(()));
    assert_eq!(position.piece_at(&Square::from((3, 8))), Some(dark));
    assert_eq!(position.piece_at(&Square::from(D8)), Some(black(Kind::Rook)));
    assert_eq!(position.piece_at(&Square::from(A8)), None);
    assert_eq!(position.piece_at(&Square::from(E8)), None);
    assert_eq!(position.piece_at(&Square::from(H8)), Some(black(Kind::Rook)));
    assert_eq!(*position.castling_availability(), CastlingAvailability::new(false, false, false, false));
    assert_eq!(position.fullmove_number(), 21);
    // The rights do not come back when the king walks home.
    let back = plain(king, Square::from(G1), Action::Move, Square::from(H1));
    assert_eq!(position.make_move(back), Ok(()));
    assert_eq!(*position.castling_availability(), CastlingAvailability::new(false, false, false, false));
}

#[test]
fn rooks_give_up_one_right_each() {
    let mut position = board("r3k2r/8/8/8/8/8/8/R3K2R w KQkq - 0 1");
    let rook = white(Kind::Rook);
    assert_eq!(position.make_move(plain(rook, Square::from(H1), Action::Move, Square::from(H3))), Ok(()));
    assert_eq!(*position.castling_availability(), CastlingAvailability::new(false, true, true, true));
    let dark = black(Kind::Rook);
    assert_eq!(position.make_move(plain(dark, Square::from(A8), Action::Move, Square::from(A7))), Ok(()));
    assert_eq!(*position.castling_availability(), CastlingAvailability::new(false, true, true, false));
    // A rook elsewhere gives up nothing.
    assert_eq!(position.make_move(plain(rook, Square::from(H3), Action::Move, Square::from(H7))), Ok(()));
    assert_eq!(*position.castling_availability(), CastlingAvailability::new(false, true, true, false));
}

#[test]
fn en_passant_takes_the_pawn_beside() {
    let mut position = board("8/8/8/3pPp2/8/8/8/8 w - f6 0 1");
    let pawn = white(Kind::Pawn);
    let capture = plain(pawn, Square::from(E5), Action::EnPassant, Square::from(F6));
    assert_eq!(position.make_move(capture), Ok(()));
    assert_eq!(position.piece_at(&Square::from(F6)), Some(pawn));
    assert_eq!(position.piece_at(&Square::from(F5)), None);
    assert_eq!(position.piece_at(&Square::from(E5)), None);
    assert_eq!(position.piece_at(&Square::from(D5)), Some(black(Kind::Pawn)));
    assert_eq!(position.halfmove_clock(), 0);
    assert_eq!(position.en_passant_target(), None);
}

#[test]
fn promotion_changes_the_pawn() {
    let mut position = board("3n4/4P3/8/8/8/8/8/8 w - - 5 1");
    let pawn = white(Kind::Pawn);
    let promote = plain(pawn, Square::from(E7), Action::CapturePromotion(Kind::Knight), Square::from(D8));
    assert_eq!(position.make_move(promote), Ok(()));
    assert_eq!(position.piece_at(&Square::from(D8)), Some(white(Kind::Knight)));
    assert_eq!(position.piece_at(&Square::from(E7)), None);
    assert_eq!(position.pieces(), vec![white(Kind::Knight)]);
    assert_eq!(position.halfmove_clock(), 0);
}

#[test]
fn moves_that_do_not_fit_are_refused_and_change_nothing() {
    let start = board("r3k2r/8/8/8/8/8/8/RN2K2n w KQkq - 3 20");
    let queen = white(Kind::Queen);
    let mut position = start;
    let missing = plain(queen, Square::from(D4), Action::Move, Square::from(D5));
    assert_eq!(position.make_move(missing), Err(BoardError::PieceMissing(Square::from(D4))));
    assert_eq!(position, start);
    let promote = plain(white(Kind::Pawn), Square::from(B1), Action::MovePromotion(Kind::Queen), Square::from((2, 2)));
    assert_eq!(position.make_move(promote), Err(BoardError::InvalidPromotionPawn(Kind::Knight)));
    assert_eq!(position, start);
    let passing = plain(white(Kind::Pawn), Square::from(A1), Action::EnPassant, Square::from((2, 2)));
    assert_eq!(position.make_move(passing), Err(BoardError::InvalidEnPassantPawn(Kind::Rook)));
    assert_eq!(position, start);
    let castle = plain(white(Kind::King), Square::from(A1), Action::LongCastle, Square::from(C1));
    assert_eq!(position.make_move(castle), Err(BoardError::InvalidCastlingKing(Kind::Rook)));
    assert_eq!(position, start);
    let castle = plain(white(Kind::King), Square::from(E1), Action::ShortCastle, Square::from(G1));
    assert_eq!(position.make_move(castle), Err(BoardError::InvalidCastlingRook(Kind::Knight)));
    assert_eq!(position, start);
    let mut bare = board("4k3/8/8/8/8/8/8/4K3 w KQ - 0 1");
    let before = bare;
    assert_eq!(bare.make_move(castle), Err(BoardError::PieceMissing(Square::from(H1))));
    assert_eq!(bare, before);
}

#[test]
fn placement_inserts_and_removes() {
    let mut placement = PiecePlacement::new();
    let rook = white(Kind::Rook);
    assert_eq!(placement.insert(Square::from(A1), rook), None);
    assert_eq!(placement.insert(Square::from(A1), black(Kind::Queen)), Some(rook));
    assert_eq!(placement.get(&Square::from(A1)), Some(black(Kind::Queen)));
    assert_eq!(placement.get(&Square::from((0, 0))), None);
    assert_eq!(placement.remove(&Square::from((77, 1))), None);
    assert_eq!(placement.remove(&Square::from(A1)), Some(black(Kind::Queen)));
    assert_eq!(placement.remove(&Square::from(A1)), None);
    assert_eq!(placement, PiecePlacement::new());
    let made = Board::new(placement, Color::Black, CastlingAvailability::default(), None, 4, 9);
    assert_eq!(*made.active_color(), Color::Black);
    assert_eq!(made.halfmove_clock(), 4);
    assert_eq!(made.fullmove_number(), 9);
    assert!(made.pieces().is_empty());
    let empty = Board::empty();
    assert!(empty.pieces().is_empty());
    assert_eq!(*empty.active_color(), Color::White);
    assert_eq!(*empty.castling_availability(), CastlingAvailability::new(false, false, false, false));
    assert_eq!(empty.fullmove_number(), 1);
}

#[test]
fn castling_rights_are_given_up_one_by_one() {
    let mut rights = CastlingAvailability::default();
    rights.disable_both(&Color::White);
    rights.disable_kingside(&Color::Black);
    assert!(!rights.is_long_castle_available(&Color::White));
    assert!(!rights.is_short_castle_available(&Color::White));
    assert!(rights.is_long_castle_available(&Color::Black));
    assert!(!rights.is_short_castle_available(&Color::Black));
    rights.disable_queenside(&Color::Black);
    assert_eq!(rights, CastlingAvailability::new(false, false, false, false));
}

#[test]
fn pieces_come_in_the_order_of_their_squares() {
    let position = board("7k/8/8/8/8/8/P7/RN5K w - - 0 1");
    assert_eq!(
        position.pieces(),
        vec![white(Kind::Rook), white(Kind::Knight), white(Kind::King), white(Kind::Pawn), black(Kind::King)]
    );
    assert_eq!(position.black_pieces(), vec![black(Kind::King)]);
    assert_eq!(position.white_pieces().len(), 4);
}

#[test]
fn moves_keep_their_parts() {
    let king = white(Kind::King);
    let m = ChessMove::new(king, Square::from(E1), Action::Capture, Square::from(E2), MoveStatus::Check);
    assert_eq!(*m.piece(), king);
    assert_eq!(*m.origin_square(), Square::from(E1));
    assert_eq!(*m.action(), Action::Capture);
    assert_eq!(*m.destination_square(), Square::from(E2));
    assert_eq!(*m.status(), MoveStatus::Check);
    assert!(m.action().is_capture());
    assert!(Action::EnPassant.is_capture());
    assert!(Action::CapturePromotion(Kind::Rook).is_capture());
    assert!(!Action::MovePromotion(Kind::Rook).is_capture());
    assert!(!Action::ShortCastle.is_capture());
    assert!(Action::LongCastle.is_castle());
    assert_eq!(Line::new(Square::from(F3), Direction::VerticalUp).squares()[1], Square::from(F5));
    assert_eq!(Square::from(B3).translate(Offset::new(0, 2)), Square::from(B5));
}

#[test]
fn moves_in_long_algebraic_notation() {
    let king = white(Kind::King);
    let taking = ChessMove::new(king, Square::from(E1), Action::Capture, Square::from(E2), MoveStatus::Check);
    assert_eq!(taking.notation(), "Ke1xe2+");
    let pawn = white(Kind::Pawn);
    assert_eq!(plain(pawn, Square::from(E2), Action::Move, Square::from(E4)).notation(), "e2e4");
    assert_eq!(
        plain(pawn, Square::from(E7), Action::MovePromotion(Kind::Queen), Square::from(E8)).notation(),
        "e7e8=Q"
    );
    assert_eq!(
        plain(pawn, Square::from(E7), Action::CapturePromotion(Kind::Knight), Square::from(D8)).notation(),
        "e7xd8=N"
    );
    assert_eq!(plain(pawn, Square::from(E5), Action::EnPassant, Square::from(F6)).notation(), "e5xf6 e.p.");
    assert_eq!(plain(king, Square::from(E1), Action::ShortCastle, Square::from(G1)).notation(), "0-0");
    let mate = ChessMove::new(king, Square::from(E1), Action::LongCastle, Square::from(C1), MoveStatus::Checkmate);
    assert_eq!(mate.notation(), "0-0-0#");
    assert_eq!(
        plain(black(Kind::Queen), Square::from(D8), Action::Move, Square::from((9, 0))).notation(),
        "Qd8??"
    );
    assert_eq!(Square::from(H7).name(), "h7");
    assert_eq!(Square::from((2, 5)).name(), "b5");
    assert_eq!(File::from(2).letter(), 'b');
    assert_eq!(File::from(0).letter(), '?');
    assert_eq!(Rank::from(7).digit(), '7');
    assert_eq!(Rank::from(9).digit(), '?');
    assert_eq!(white(Kind::Knight).move_representation(), "N");
    assert_eq!(black(Kind::Pawn).move_representation(), "");
}

#[test]
fn steps_can_be_written_with_operators() {
    let start = Square::from(G8);
    assert_eq!(&start + Offset::new(-1, -2), Square::from(F6));
    assert_eq!(&Square::from(A1) + Offset::new(-1, -1), Square::from((0, 0)));
    assert_eq!(Offset::new(0, -1) * 5, Offset::new(0, -5));
    assert_eq!(Offset::new(0, -1) * 0, Offset::new(0, 0));
    assert_eq!(&File::from(2) + 3, File::from(5));
    assert_eq!(&Rank::from(2) + -3, Rank::from(0));
    assert_eq!(File::from(8).value(), 8);
}

#[test]
fn a_queen_goes_where_rook_and_bishop_go() {
    let position = board("r3k2r/pp1n1ppp/2p1pn2/q2p4/1b1P1B2/2NBPN2/PPP2PPP/R2QK2R w KQkq - 4 9");
    for origin in [Square::from(D4), Square::from(A1), Square::from(H8), Square::from(E5)] {
        for color in [Color::White, Color::Black] {
            let mut both = Piece::new(color, Kind::Rook).target_squares(&origin, &position);
            both.extend(Piece::new(color, Kind::Bishop).target_squares(&origin, &position));
            assert_eq!(Piece::new(color, Kind::Queen).target_squares(&origin, &position), both);
        }
    }
}

#[test]
fn listed_moves_can_be_made() {
    let records = [
        "rnbqkbnr/pppppppp/8/8/8/8/PPPPPPPP/RNBQKBNR w KQkq - 0 1",
        "r3k2r/pp1n1ppp/2p1pn2/q2p4/1b1P1B2/2NBPN2/PPP2PPP/R2QK2R w KQkq - 4 9",
        "8/P6p/8/3pP3/8/8/p6P/8 w - d6 0 1",
        "4k3/8/8/8/8/8/8/R3K3 w KQ - 0 1",
    ];
    for record in records {
        let position = board(record);
        for m in position.pseudo_legal_moves() {
            let mut after = position;
            let made = after.make_move(m);
            if m.action().is_castle() {
                let corner = if *m.action() == Action::ShortCastle { 8 } else { 1 };
                let rook = position.piece_at(&Square::from((corner, m.origin_square().rank().value())));
                assert_eq!(made.is_ok(), rook.map(|piece| *piece.kind()) == Some(Kind::Rook));
            } else {
                assert_eq!(made, Ok(()));
                assert_eq!(*after.active_color(), Color::Black);
                assert_eq!(after.piece_at(m.origin_square()), None);
            }
        }
    }
}
