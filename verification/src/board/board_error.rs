//! Why a move could not be made.

use super::Square;
use crate::piece::Kind;
use vstd::prelude::*;

verus! {

/// A move does not fit the position it was to be made in, most often
/// because it was listed for an earlier position.
#[derive(Debug, Clone, Copy, PartialEq, Eq, Hash, Structural)]
pub enum BoardError {
    /// No piece stands on the square from which one was to be taken.
    PieceMissing(Square),
    /// A promotion was asked of a piece of the given kind, which is no pawn.
    InvalidPromotionPawn(Kind),
    /// A capture in passing was asked of a piece of the given kind, which is
    /// no pawn.
    InvalidEnPassantPawn(Kind),
    /// Castling was asked of a piece of the given kind, which is no king.
    InvalidCastlingKing(Kind),
    /// The piece on the rook's home square is of the given kind, which is no
    /// rook.
    InvalidCastlingRook(Kind),
}

} // verus!
