//! Moves: which piece goes from where to where, and what kind of move it is.

use super::Square;
use crate::piece::{Kind, Piece};
use vstd::prelude::*;

verus! {

/// What a move does besides taking a piece from one square to another.
#[derive(Debug, Clone, Copy, PartialEq, Eq, Hash, Structural)]
pub enum Action {
    /// The piece goes to an empty square.
    Move,
    /// The piece takes the piece that stands on the destination.
    Capture,
    /// A pawn takes, in passing, the pawn that has just stepped two squares.
    EnPassant,
    /// A pawn reaches the last rank on an empty square and becomes a piece
    /// of the given kind.
    MovePromotion(Kind),
    /// A pawn reaches the last rank by a capture and becomes a piece of the
    /// given kind.
    CapturePromotion(Kind),
    /// The king castles with the rook on the h-file.
    ShortCastle,
    /// The king castles with the rook on the a-file.
    LongCastle,
}

impl Action {
    /// Whether the action takes an enemy piece off the board.
    pub open spec fn spec_is_capture(&self) -> bool {
        *self is Capture || *self is CapturePromotion || *self is EnPassant
    }

    /// Whether the action is one of the two castling moves.
    pub open spec fn spec_is_castle(&self) -> bool {
        *self is ShortCastle || *self is LongCastle
    }

    /// Whether a promotion, if the action is one, is to a kind that a pawn
    /// may become: bishop, knight, rook or queen.
    pub open spec fn well_formed(&self) -> bool {
        match *self {
            Action::MovePromotion(kind) => kind.spec_is_promotable(),
            Action::CapturePromotion(kind) => kind.spec_is_promotable(),
            _ => true,
        }
    }

    /// Whether the action takes an enemy piece off the board.
    #[verifier::when_used_as_spec(spec_is_capture)]
    pub fn is_capture(&self) -> (capture: bool)
        ensures
            capture == self.spec_is_capture(),
    {
        match self {
            Action::Capture | Action::CapturePromotion(_) | Action::EnPassant => true,
            _ => false,
        }
    }

    /// Whether the action is one of the two castling moves.
    #[verifier::when_used_as_spec(spec_is_castle)]
    pub fn is_castle(&self) -> (castle: bool)
        ensures
            castle == self.spec_is_castle(),
    {
        match self {
            Action::ShortCastle | Action::LongCastle => true,
            _ => false,
        }
    }
}

/// What a move does to the opponent's king. The position lists its moves
/// without working this out and marks them `Nothing`.
#[derive(Debug, Clone, Copy, PartialEq, Eq, Hash, Structural)]
pub enum MoveStatus {
    /// The opponent is checkmated.
    Checkmate,
    /// The opponent is in check.
    Check,
    /// Nothing of the kind is claimed.
    Nothing,
}

/// A move of one piece. It holds copies of the piece and of the two
/// squares, so it stays a value of its own when the position changes.
#[derive(Debug, Clone, Copy, PartialEq, Eq, Hash, Structural)]
pub struct ChessMove {
    /// The piece that moves.
    pub piece: Piece,
    /// The square the piece leaves.
    pub origin_square: Square,
    /// What kind of move it is.
    pub action: Action,
    /// The square the piece goes to.
    pub destination_square: Square,
    /// What the move does to the opponent's king, where that is known.
    pub status: MoveStatus,
}

impl ChessMove {
    /// Whether this is a move between two different squares of the board,
    /// promoting, if it promotes, to a kind that a pawn may become.
    pub open spec fn well_formed(&self) -> bool {
        &&& self.origin_square.on_board()
        &&& self.destination_square.on_board()
        &&& self.origin_square != self.destination_square
        &&& self.action.well_formed()
    }

    /// The move of `piece` from `origin` to `destination` by `action`,
    /// with nothing claimed about check.
    pub open spec fn plain(
        piece: Piece,
        origin: Square,
        action: Action,
        destination: Square,
    ) -> ChessMove {
        ChessMove {
            piece,
            origin_square: origin,
            action,
            destination_square: destination,
            status: MoveStatus::Nothing,
        }
    }

    /// The move with the given parts.
    pub fn new(
        piece: Piece,
        origin_square: Square,
        action: Action,
        destination_square: Square,
        status: MoveStatus,
    ) -> (chess_move: ChessMove)
        ensures
            chess_move == (ChessMove { piece, origin_square, action, destination_square, status }),
    {
        ChessMove { piece, origin_square, action, destination_square, status }
    }

    /// The piece that moves.
    pub fn piece(&self) -> (piece: &Piece)
        ensures
            *piece == self.piece,
    {
        &self.piece
    }

    /// The square the piece leaves.
    pub fn origin_square(&self) -> (square: &Square)
        ensures
            *square == self.origin_square,
    {
        &self.origin_square
    }

    /// What kind of move it is.
    pub fn action(&self) -> (action: &Action)
        ensures
            *action == self.action,
    {
        &self.action
    }

    /// The square the piece goes to.
    pub fn destination_square(&self) -> (square: &Square)
        ensures
            *square == self.destination_square,
    {
        &self.destination_square
    }

    /// What the move does to the opponent's king, where that is known.
    pub fn status(&self) -> (status: &MoveStatus)
        ensures
            *status == self.status,
    {
        &self.status
    }
}

} // verus!
