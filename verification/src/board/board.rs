//! The position of a game: where the pieces stand, whose turn it is, and
//! what the rules need to remember of the moves made so far.

use super::placement::piece_on;
use super::{CastlingAvailability, File, PiecePlacement, Rank, Square, SquareStatus};
use crate::piece::{Color, Kind, Piece};
use vstd::prelude::*;

verus! {

/// A position as a mathematical value: what a `Board` stands for.
pub struct Position {
    /// The piece on each occupied square. Only squares of the board are
    /// occupied.
    pub placement: Map<Square, Piece>,
    /// The side whose turn it is.
    pub active_color: Color,
    /// The castling rights that are left.
    pub castling_availability: CastlingAvailability,
    /// The square that a pawn has just passed over in a double step, if the
    /// last move was one.
    pub en_passant_target: Option<Square>,
    /// The number of moves of either side since the last pawn move or
    /// capture.
    pub halfmove_clock: nat,
    /// The number of the move that is being played; it grows after each move
    /// of black.
    pub fullmove_number: nat,
}

/// What a piece of `color` finds on `square`: nothing, a piece of its own
/// side, or an enemy piece.
pub open spec fn spec_status(
    placement: Map<Square, Piece>,
    square: Square,
    color: Color,
) -> SquareStatus {
    match piece_on(placement, square) {
        Some(piece) => if piece.color == color {
            SquareStatus::TakenBySame
        } else {
            SquareStatus::TakenByOpposite
        },
        None => SquareStatus::Empty,
    }
}

/// The pieces on the first `count` squares in the order a1, b1, ..., h8, in
/// that order; with a colour given, only the pieces of that colour.
pub open spec fn spec_pieces_upto(
    placement: Map<Square, Piece>,
    color: Option<Color>,
    count: nat,
) -> Seq<Piece>
    decreases count,
{
    if count == 0 {
        Seq::<Piece>::empty()
    } else {
        let before = spec_pieces_upto(placement, color, (count - 1) as nat);
        match piece_on(placement, Square::at(count - 1)) {
            Some(piece) => if color is None || color == Some(piece.color) {
                before.push(piece)
            } else {
                before
            },
            None => before,
        }
    }
}

/// The officer that starts a game on the given file: rook, knight, bishop,
/// queen, king, bishop, knight, rook from the a-file to the h-file.
pub open spec fn spec_starting_officer(file: File) -> Kind {
    if file.0 == 1 || file.0 == 8 {
        Kind::Rook
    } else if file.0 == 2 || file.0 == 7 {
        Kind::Knight
    } else if file.0 == 3 || file.0 == 6 {
        Kind::Bishop
    } else if file.0 == 4 {
        Kind::Queen
    } else {
        Kind::King
    }
}

/// The piece that starts a game on `square`, if any: white officers on the
/// first rank, white pawns on the second, black pawns on the seventh, black
/// officers on the eighth.
pub open spec fn spec_starting_piece(square: Square) -> Option<Piece> {
    if !square.on_board() {
        None
    } else if square.rank.0 == 1 {
        Some(Piece { color: Color::White, kind: spec_starting_officer(square.file) })
    } else if square.rank.0 == 2 {
        Some(Piece { color: Color::White, kind: Kind::Pawn })
    } else if square.rank.0 == 7 {
        Some(Piece { color: Color::Black, kind: Kind::Pawn })
    } else if square.rank.0 == 8 {
        Some(Piece { color: Color::Black, kind: spec_starting_officer(square.file) })
    } else {
        None
    }
}

impl Position {
    /// The piece on `square`, if any.
    pub open spec fn piece_at(self, square: Square) -> Option<Piece> {
        piece_on(self.placement, square)
    }

    /// What a piece of `color` finds on `square`.
    pub open spec fn status(self, square: Square, color: Color) -> SquareStatus {
        spec_status(self.placement, square, color)
    }

    /// All pieces, in the order of their squares: a1, b1, ..., h8.
    pub open spec fn pieces(self) -> Seq<Piece> {
        spec_pieces_upto(self.placement, None, 64)
    }

    /// The pieces of `color`, in the order of their squares.
    pub open spec fn pieces_of(self, color: Color) -> Seq<Piece> {
        spec_pieces_upto(self.placement, Some(color), 64)
    }

    /// A board without pieces: white to move, no castling rights, no pawn to
    /// take in passing, no move made yet.
    pub open spec fn empty() -> Position {
        Position {
            placement: Map::<Square, Piece>::empty(),
            active_color: Color::White,
            castling_availability: CastlingAvailability {
                white_kingside: false,
                white_queenside: false,
                black_kingside: false,
                black_queenside: false,
            },
            en_passant_target: None,
            halfmove_clock: 0,
            fullmove_number: 1,
        }
    }

    /// The position at the start of a game: thirty-two pieces on their home
    /// squares, white to move, every castling right, no pawn to take in
    /// passing, no move made yet.
    pub open spec fn starting() -> Position {
        Position {
            placement: Map::new(
                |square: Square| spec_starting_piece(square) is Some,
                |square: Square| spec_starting_piece(square)->0,
            ),
            active_color: Color::White,
            castling_availability: CastlingAvailability {
                white_kingside: true,
                white_queenside: true,
                black_kingside: true,
                black_queenside: true,
            },
            en_passant_target: None,
            halfmove_clock: 0,
            fullmove_number: 1,
        }
    }
}

/// A chess position.
#[derive(Debug, Clone, Copy, PartialEq, Eq, Hash)]
pub struct Board {
    piece_placement: PiecePlacement,
    active_color: Color,
    castling_availability: CastlingAvailability,
    en_passant_target: Option<Square>,
    halfmove_clock: u16,
    fullmove_number: u16,
}

impl View for Board {
    type V = Position;

    closed spec fn view(&self) -> Position {
        Position {
            placement: self.piece_placement@,
            active_color: self.active_color,
            castling_availability: self.castling_availability,
            en_passant_target: self.en_passant_target,
            halfmove_clock: self.halfmove_clock as nat,
            fullmove_number: self.fullmove_number as nat,
        }
    }
}

impl Board {
    /// Only squares of the board are ever occupied, and the two counters fit
    /// in sixteen bits.
    pub proof fn lemma_view(&self)
        ensures
            super::placement::on_board_only(self@.placement),
            self@.halfmove_clock <= u16::MAX,
            self@.fullmove_number <= u16::MAX,
    {
        self.piece_placement.lemma_on_board_only();
    }

    /// The position with the given parts.
    pub fn new(
        piece_placement: PiecePlacement,
        active_color: Color,
        castling_availability: CastlingAvailability,
        en_passant_target: Option<Square>,
        halfmove_clock: u16,
        fullmove_number: u16,
    ) -> (board: Board)
        ensures
            board@ == (Position {
                placement: piece_placement@,
                active_color,
                castling_availability,
                en_passant_target,
                halfmove_clock: halfmove_clock as nat,
                fullmove_number: fullmove_number as nat,
            }),
    {
        Board {
            piece_placement,
            active_color,
            castling_availability,
            en_passant_target,
            halfmove_clock,
            fullmove_number,
        }
    }

    /// A board without pieces: white to move, no castling rights, no pawn to
    /// take in passing, no move made yet.
    pub fn empty() -> (board: Board)
        ensures
            board@ == Position::empty(),
    {
        Board {
            piece_placement: PiecePlacement::new(),
            active_color: Color::White,
            castling_availability: CastlingAvailability::new(false, false, false, false),
            en_passant_target: None,
            halfmove_clock: 0,
            fullmove_number: 1,
        }
    }

    /// The position at the start of a game.
    pub fn starting_position() -> (board: Board)
        ensures
            board@ == Position::starting(),
    {
        let mut placement = PiecePlacement::new();
        let mut file: u8 = 1;
        while file <= 8
            invariant
                1 <= file <= 9,
                forall|square: Square|
                    placement@.dom().contains(square) <==> #[trigger] spec_starting_piece(
                        square,
                    ) is Some && square.file.0 < file,
                forall|square: Square|
                    #[trigger] placement@.dom().contains(square) ==> Some(placement@[square])
                        == spec_starting_piece(square),
            decreases 9 - file,
        {
            let officer = if file == 1 || file == 8 {
                Kind::Rook
            } else if file == 2 || file == 7 {
                Kind::Knight
            } else if file == 3 || file == 6 {
                Kind::Bishop
            } else if file == 4 {
                Kind::Queen
            } else {
                Kind::King
            };
            placement.insert(Square::new(File(file), Rank(1)), Piece::new(Color::White, officer));
            placement.insert(
                Square::new(File(file), Rank(2)),
                Piece::new(Color::White, Kind::Pawn),
            );
            placement.insert(
                Square::new(File(file), Rank(7)),
                Piece::new(Color::Black, Kind::Pawn),
            );
            placement.insert(Square::new(File(file), Rank(8)), Piece::new(Color::Black, officer));
            file = file + 1;
        }
        assert(placement@ =~= Position::starting().placement);
        Board {
            piece_placement: placement,
            active_color: Color::White,
            castling_availability: CastlingAvailability::new(true, true, true, true),
            en_passant_target: None,
            halfmove_clock: 0,
            fullmove_number: 1,
        }
    }

    /// Where the pieces stand.
    pub fn piece_placement(&self) -> (placement: &PiecePlacement)
        ensures
            placement@ == self@.placement,
    {
        &self.piece_placement
    }

    /// The side whose turn it is.
    pub fn active_color(&self) -> (color: &Color)
        ensures
            *color == self@.active_color,
    {
        &self.active_color
    }

    /// The castling rights that are left.
    pub fn castling_availability(&self) -> (rights: &CastlingAvailability)
        ensures
            *rights == self@.castling_availability,
    {
        &self.castling_availability
    }

    /// The square that a pawn has just passed over in a double step, if the
    /// last move was one.
    pub fn en_passant_target(&self) -> (target: Option<Square>)
        ensures
            target == self@.en_passant_target,
    {
        self.en_passant_target
    }

    /// The number of moves of either side since the last pawn move or
    /// capture.
    pub fn halfmove_clock(&self) -> (clock: u16)
        ensures
            clock == self@.halfmove_clock,
    {
        self.halfmove_clock
    }

    /// The number of the move that is being played.
    pub fn fullmove_number(&self) -> (number: u16)
        ensures
            number == self@.fullmove_number,
    {
        self.fullmove_number
    }

    /// The piece on `square`, if any.
    pub fn piece_at(&self, square: &Square) -> (piece: Option<Piece>)
        ensures
            piece == self@.piece_at(*square),
    {
        self.piece_placement.get(square)
    }

    /// Whether `square` lies on the board: file and rank between 1 and 8.
    pub fn is_valid(&self, square: &Square) -> (valid: bool)
        ensures
            valid == square.on_board(),
    {
        square.is_on_board()
    }

    /// Whether no piece stands on `square`.
    pub fn is_empty(&self, square: &Square) -> (empty: bool)
        ensures
            empty == (self@.piece_at(*square) is None),
    {
        self.piece_placement.get(square).is_none()
    }

    /// What a piece of `color` finds on `square`: nothing, a piece of its
    /// own side, or an enemy piece.
    pub fn status(&self, square: &Square, color: &Color) -> (status: SquareStatus)
        ensures
            status == self@.status(*square, *color),
    {
        match self.piece_placement.get(square) {
            Some(piece) => {
                if piece.color == *color {
                    SquareStatus::TakenBySame
                } else {
                    SquareStatus::TakenByOpposite
                }
            },
            None => SquareStatus::Empty,
        }
    }

    /// The pieces on the board, in the order of their squares: a1, b1, ...,
    /// h8; with a colour given, only the pieces of that colour.
    fn pieces_where(&self, color: Option<Color>) -> (pieces: Vec<Piece>)
        ensures
            pieces@ == spec_pieces_upto(self@.placement, color, 64),
    {
        let mut pieces: Vec<Piece> = Vec::new();
        let mut index: usize = 0;
        while index < 64
            invariant
                index <= 64,
                pieces@ == spec_pieces_upto(self@.placement, color, index as nat),
            decreases 64 - index,
        {
            match self.piece_placement.at_index(index) {
                Some(piece) => {
                    let wanted = match color {
                        Some(color) => piece.color == color,
                        None => true,
                    };
                    if wanted {
                        pieces.push(piece);
                    }
                },
                None => {},
            }
            index = index + 1;
        }
        pieces
    }

    /// All pieces on the board, in the order of their squares: a1, b1, ...,
    /// h8.
    pub fn pieces(&self) -> (pieces: Vec<Piece>)
        ensures
            pieces@ == self@.pieces(),
    {
        self.pieces_where(None)
    }

    /// The white pieces on the board, in the order of their squares.
    pub fn white_pieces(&self) -> (pieces: Vec<Piece>)
        ensures
            pieces@ == self@.pieces_of(Color::White),
    {
        self.pieces_where(Some(Color::White))
    }

    /// The black pieces on the board, in the order of their squares.
    pub fn black_pieces(&self) -> (pieces: Vec<Piece>)
        ensures
            pieces@ == self@.pieces_of(Color::Black),
    {
        self.pieces_where(Some(Color::Black))
    }
}

} // verus!
