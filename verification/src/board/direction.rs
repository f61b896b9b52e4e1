//! The eight directions in which a piece can slide.

use super::Offset;
use vstd::prelude::*;

verus! {

/// A direction on the board, seen from white's side.
#[derive(Debug, Clone, Copy, PartialEq, Eq, Hash, Structural)]
pub enum Direction {
    /// Along a rank, towards the h-file.
    HorizontalRight,
    /// Along a rank, towards the a-file.
    HorizontalLeft,
    /// Along a file, towards the eighth rank.
    VerticalUp,
    /// Along a file, towards the first rank.
    VerticalDown,
    /// Towards the h-file and the eighth rank.
    DiagonalRightUp,
    /// Towards the h-file and the first rank.
    DiagonalRightDown,
    /// Towards the a-file and the eighth rank.
    DiagonalLeftUp,
    /// Towards the a-file and the first rank.
    DiagonalLeftDown,
}

impl Direction {
    /// One step in this direction.
    pub open spec fn spec_offset(&self) -> Offset {
        match self {
            Direction::HorizontalRight => Offset { file: 1, rank: 0 },
            Direction::HorizontalLeft => Offset { file: -1i8, rank: 0 },
            Direction::VerticalUp => Offset { file: 0, rank: 1 },
            Direction::VerticalDown => Offset { file: 0, rank: -1i8 },
            Direction::DiagonalRightUp => Offset { file: 1, rank: 1 },
            Direction::DiagonalRightDown => Offset { file: 1, rank: -1i8 },
            Direction::DiagonalLeftUp => Offset { file: -1i8, rank: 1 },
            Direction::DiagonalLeftDown => Offset { file: -1i8, rank: -1i8 },
        }
    }

    /// The four directions along ranks and files, in the order in which a
    /// rook tries them.
    pub open spec fn spec_straight() -> Seq<Direction> {
        seq![
            Direction::HorizontalRight,
            Direction::HorizontalLeft,
            Direction::VerticalUp,
            Direction::VerticalDown,
        ]
    }

    /// The four diagonal directions, in the order in which a bishop tries
    /// them.
    pub open spec fn spec_diagonal() -> Seq<Direction> {
        seq![
            Direction::DiagonalRightUp,
            Direction::DiagonalRightDown,
            Direction::DiagonalLeftUp,
            Direction::DiagonalLeftDown,
        ]
    }

    /// All eight directions: the straight ones, then the diagonal ones.
    pub open spec fn spec_all() -> Seq<Direction> {
        Direction::spec_straight() + Direction::spec_diagonal()
    }

    /// One step in this direction.
    #[verifier::when_used_as_spec(spec_offset)]
    pub fn offset(&self) -> (offset: Offset)
        ensures
            offset == self.spec_offset(),
    {
        match self {
            Direction::HorizontalRight => Offset { file: 1, rank: 0 },
            Direction::HorizontalLeft => Offset { file: -1, rank: 0 },
            Direction::VerticalUp => Offset { file: 0, rank: 1 },
            Direction::VerticalDown => Offset { file: 0, rank: -1 },
            Direction::DiagonalRightUp => Offset { file: 1, rank: 1 },
            Direction::DiagonalRightDown => Offset { file: 1, rank: -1 },
            Direction::DiagonalLeftUp => Offset { file: -1, rank: 1 },
            Direction::DiagonalLeftDown => Offset { file: -1, rank: -1 },
        }
    }

    /// The four directions along ranks and files.
    pub fn straight() -> (directions: [Direction; 4])
        ensures
            directions@ == Direction::spec_straight(),
    {
        let directions = [
            Direction::HorizontalRight,
            Direction::HorizontalLeft,
            Direction::VerticalUp,
            Direction::VerticalDown,
        ];
        assert(directions@ =~= Direction::spec_straight());
        directions
    }

    /// The four diagonal directions.
    pub fn diagonal() -> (directions: [Direction; 4])
        ensures
            directions@ == Direction::spec_diagonal(),
    {
        let directions = [
            Direction::DiagonalRightUp,
            Direction::DiagonalRightDown,
            Direction::DiagonalLeftUp,
            Direction::DiagonalLeftDown,
        ];
        assert(directions@ =~= Direction::spec_diagonal());
        directions
    }

    /// All eight directions.
    pub fn all() -> (directions: [Direction; 8])
        ensures
            directions@ == Direction::spec_all(),
    {
        let directions = [
            Direction::HorizontalRight,
            Direction::HorizontalLeft,
            Direction::VerticalUp,
            Direction::VerticalDown,
            Direction::DiagonalRightUp,
            Direction::DiagonalRightDown,
            Direction::DiagonalLeftUp,
            Direction::DiagonalLeftDown,
        ];
        assert(directions@ =~= Direction::spec_all());
        directions
    }
}

} // verus!
