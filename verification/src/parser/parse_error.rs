//! Why a record in Forsyth–Edwards Notation could not be read.

use vstd::prelude::*;

verus! {

/// What is wrong with a record. Reading stops at the first fault, and no
/// position comes of a faulty record.
#[derive(Debug, Clone, Copy, PartialEq, Eq, Hash, Structural)]
pub enum ParseError {
    /// The castling field is not `-` and holds the given character, which is
    /// none of `K`, `Q`, `k` and `q`.
    InvalidCastling(char),
    /// The active colour field is neither `w` nor `b`: the given character
    /// is the first in it that does not belong.
    InvalidColor(char),
    /// The name of a square starts with the given character, which is no
    /// file letter from `a` to `h`.
    InvalidFile(char),
    /// The name of a square has the given character where a rank digit from
    /// `1` to `8` was due, or, in the en-passant field, behind that digit.
    InvalidRank(char),
    /// The piece placement field holds the given character, which stands
    /// for no piece.
    InvalidPiece(char),
    /// A counter is not a number that fits in sixteen bits.
    InvalidNumber,
    /// The record ends before its sixth field, or a field before it is
    /// complete.
    UnexpectedEnd,
    /// The piece placement field does not describe eight ranks of eight
    /// files each.
    IncompletePiecePlacement,
}

} // verus!
