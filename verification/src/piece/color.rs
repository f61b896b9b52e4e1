//! The two sides of a game and the ranks that matter to each.

use crate::board::Rank;
use vstd::prelude::*;

verus! {

/// The two colours of pieces: black and white.
#[derive(Debug, Clone, Copy, PartialEq, Eq, Hash, Structural)]
pub enum Color {
    /// The black pieces, or the player who moves them.
    Black,
    /// The white pieces, or the player who moves them.
    White,
}

impl Color {
    /// The other colour.
    pub open spec fn spec_opposite(&self) -> Color {
        match self {
            Color::White => Color::Black,
            Color::Black => Color::White,
        }
    }

    /// The rank on which the king and the other officers start: 1 for
    /// white, 8 for black.
    pub open spec fn spec_first_rank(&self) -> Rank {
        match self {
            Color::White => Rank(1),
            Color::Black => Rank(8),
        }
    }

    /// The rank on which the pawns start: 2 for white, 7 for black.
    pub open spec fn spec_second_rank(&self) -> Rank {
        match self {
            Color::White => Rank(2),
            Color::Black => Rank(7),
        }
    }

    /// The rank on which a pawn promotes: 8 for white, 1 for black.
    pub open spec fn spec_promotion_rank(&self) -> Rank {
        match self {
            Color::White => Rank(8),
            Color::Black => Rank(1),
        }
    }

    /// The change of rank of one pawn step: up the board for white, down
    /// for black.
    pub open spec fn spec_pawn_step(&self) -> i8 {
        match self {
            Color::White => 1i8,
            Color::Black => -1i8,
        }
    }

    /// The other colour.
    #[verifier::when_used_as_spec(spec_opposite)]
    pub fn opposite(&self) -> (other: Color)
        ensures
            other == self.spec_opposite(),
    {
        match self {
            Color::White => Color::Black,
            Color::Black => Color::White,
        }
    }

    /// The starting rank of the king and the other officers.
    #[verifier::when_used_as_spec(spec_first_rank)]
    pub fn first_rank(&self) -> (rank: Rank)
        ensures
            rank == self.spec_first_rank(),
    {
        match self {
            Color::White => Rank(1),
            Color::Black => Rank(8),
        }
    }

    /// The starting rank of the pawns.
    #[verifier::when_used_as_spec(spec_second_rank)]
    pub fn second_rank(&self) -> (rank: Rank)
        ensures
            rank == self.spec_second_rank(),
    {
        match self {
            Color::White => Rank(2),
            Color::Black => Rank(7),
        }
    }

    /// The rank at which pawns promote.
    #[verifier::when_used_as_spec(spec_promotion_rank)]
    pub fn promotion_rank(&self) -> (rank: Rank)
        ensures
            rank == self.spec_promotion_rank(),
    {
        match self {
            Color::White => Rank(8),
            Color::Black => Rank(1),
        }
    }

    /// The change of rank of one pawn step.
    #[verifier::when_used_as_spec(spec_pawn_step)]
    pub fn pawn_step(&self) -> (step: i8)
        ensures
            step == self.spec_pawn_step(),
    {
        match self {
            Color::White => 1,
            Color::Black => -1,
        }
    }
}

} // verus!
