use chess::board::SquareNotation::{
    A1, B6, C4, C5, D2, D3, D4, D5, D8, E1, E3, E4, E5, F3, F4, F5, G1, G4, G5, H2, H4, H8,
};
use chess::board::{Board, Square};
use chess::piece::{Color, Kind, Piece};

#[test]
fn bishop_test_d4() {
    // Create empty 8×8 board
    let board = Board::empty();

    // Create bishop on d4
    let bishop = Piece::new(Color::White, Kind::Bishop);

    // Calculate the target squares
    let destinations = bishop.target_squares(&D4.into(), &board);

    // Test a square in each direction
    assert_eq!(destinations.len(), 13);
    assert!(destinations.contains(&A1.into()));
    assert!(destinations.contains(&B6.into()));
    assert!(destinations.contains(&H8.into()));
    assert!(destinations.contains(&E3.into()));
}

#[test]
fn test_e4() {
    // Create empty 8×8 board
    let board = Board::empty();

    // Create king on e4
    let king = Piece::new(Color::White, Kind::King);

    // Calculate the target squares
    let destinations = king.target_squares(&E4.into(), &board);

    // Test all target squares
    assert_eq!(destinations.len(), 8);
    assert!(destinations.contains(&D5.into()));
    assert!(destinations.contains(&E5.into()));
    assert!(destinations.contains(&F5.into()));
    assert!(destinations.contains(&D4.into()));
    assert!(destinations.contains(&F4.into()));
    assert!(destinations.contains(&D3.into()));
    assert!(destinations.contains(&E3.into()));
    assert!(destinations.contains(&F3.into()));
}

#[test]
fn knight_test_f4() {
    // Create empty 8×8 board
    let board = Board::empty();

    // Create knight on f3
    let knight = Piece::new(Color::White, Kind::Knight);

    // Calculate the target squares
    let destinations = knight.target_squares(&F3.into(), &board);

    // Test all target squares
    assert_eq!(destinations.len(), 8);
    assert!(destinations.contains(&G5.into()));
    assert!(destinations.contains(&H4.into()));
    assert!(destinations.contains(&H2.into()));
    assert!(destinations.contains(&G1.into()));
    assert!(destinations.contains(&E1.into()));
    assert!(destinations.contains(&D2.into()));
    assert!(destinations.contains(&D4.into()));
    assert!(destinations.contains(&E5.into()));
}

#[test]
fn pawn_test_f4() {
    // Create empty 8×8 board
    let board = Board::empty();

    // Create pawn on f4
    let pawn = Piece::new(Color::Black, Kind::Pawn);

    // Calculate the target squares
    let destinations = pawn.target_squares(&F4.into(), &board);

    // Test all target squares
    assert_eq!(destinations.len(), 1);
    assert!(destinations.contains(&F3.into()));
}

#[test]
fn test_c4() {
    // Create empty 8×8 board
    let board = Board::empty();

    // Create pawn on c4
    let pawn = Piece::new(Color::White, Kind::Pawn);

    // Calculate the target squares
    let destinations = pawn.target_squares(&C4.into(), &board);

    // Test all target squares
    assert_eq!(destinations.len(), 1);
    assert!(destinations.contains(&C5.into()));
}

#[test]
fn queen_test_d4() {
    // Create empty 8×8 board
    let board = Board::empty();

    // Create queen on d4
    let queen = Piece::new(Color::White, Kind::Queen);

    // Calculate the target squares
    let destinations = queen.target_squares(&D4.into(), &board);

    // Test a square in each direction
    assert_eq!(destinations.len(), 27);
    assert!(destinations.contains(&A1.into()));
    assert!(destinations.contains(&B6.into()));
    assert!(destinations.contains(&H8.into()));
    assert!(destinations.contains(&E3.into()));
    assert!(destinations.contains(&C4.into()));
    assert!(destinations.contains(&D2.into()));
    assert!(destinations.contains(&G4.into()));
    assert!(destinations.contains(&D8.into()));
}

#[test]
fn rook_test_d4() {
    // Create empty 8×8 board
    let board = Board::empty();

    // Create rook on d4
    let rook = Piece::new(Color::Black, Kind::Rook);

    // Calculate the target squares
    let destinations = rook.target_squares(&D4.into(), &board);

    // Test a square in each direction
    assert_eq!(destinations.len(), 14);
    assert!(destinations.contains(&C4.into()));
    assert!(destinations.contains(&D2.into()));
    assert!(destinations.contains(&G4.into()));
    assert!(destinations.contains(&D8.into()));
}

#[test]
fn queen_targets_hold_no_square_twice() {
    let board = Board::empty();
    let queen = Piece::new(Color::White, Kind::Queen);
    let destinations = queen.target_squares(&D4.into(), &board);
    for (index, square) in destinations.iter().enumerate() {
        assert!(!destinations[index + 1..].contains(square));
        assert_ne!(*square, Square::from(D4));
    }
}

#[test]
fn board_letters_follow_colour_and_kind() {
    assert_eq!(Piece::new(Color::White, Kind::Rook).board_representation(), 'R');
    assert_eq!(Piece::new(Color::Black, Kind::King).board_representation(), 'k');
    assert_eq!(Piece::new(Color::White, Kind::Knight).board_representation(), 'N');
    assert_eq!(Piece::new(Color::Black, Kind::Pawn).board_representation(), 'p');
}

#[test]
fn promote_changes_kind_and_keeps_colour() {
    let mut piece = Piece::new(Color::Black, Kind::Pawn);
    piece.promote(Kind::Queen);
    assert_eq!(piece, Piece::new(Color::Black, Kind::Queen));
}

#[test]
fn ranks_of_each_colour() {
    assert_eq!(Color::White.first_rank().value(), 1);
    assert_eq!(Color::Black.first_rank().value(), 8);
    assert_eq!(Color::White.second_rank().value(), 2);
    assert_eq!(Color::Black.second_rank().value(), 7);
    assert_eq!(Color::White.promotion_rank().value(), 8);
    assert_eq!(Color::Black.promotion_rank().value(), 1);
    assert_eq!(Color::White.opposite(), Color::Black);
}

#[test]
fn promotable_kinds_are_bishop_knight_rook_queen() {
    assert_eq!(
        Kind::get_promotable_kinds(),
        [Kind::Bishop, Kind::Knight, Kind::Rook, Kind::Queen]
    );
    assert!(!Kind::Pawn.is_promotable());
    assert!(!Kind::King.is_promotable());
}
