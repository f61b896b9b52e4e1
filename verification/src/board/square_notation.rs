//! The sixty-four squares by name.

use super::{File, Rank, Square};
use vstd::prelude::*;
use vstd::std_specs::convert::FromSpecImpl;

verus! {

/// The squares of the board by their usual names: the letter of the file,
/// then the number of the rank.
#[allow(missing_docs)]
#[derive(Debug, Clone, Copy, PartialEq, Eq, Hash, Structural)]
pub enum SquareNotation {
    // A file
    A1,
    A2,
    A3,
    A4,
    A5,
    A6,
    A7,
    A8,
    // B file
    B1,
    B2,
    B3,
    B4,
    B5,
    B6,
    B7,
    B8,
    // C file
    C1,
    C2,
    C3,
    C4,
    C5,
    C6,
    C7,
    C8,
    // D file
    D1,
    D2,
    D3,
    D4,
    D5,
    D6,
    D7,
    D8,
    // E file
    E1,
    E2,
    E3,
    E4,
    E5,
    E6,
    E7,
    E8,
    // F file
    F1,
    F2,
    F3,
    F4,
    F5,
    F6,
    F7,
    F8,
    // G file
    G1,
    G2,
    G3,
    G4,
    G5,
    G6,
    G7,
    G8,
    // H file
    H1,
    H2,
    H3,
    H4,
    H5,
    H6,
    H7,
    H8,
}

impl SquareNotation {
    /// The square that the name stands for.
    pub open spec fn spec_square(self) -> Square {
        match self {
            SquareNotation::A1 => Square { file: File(1), rank: Rank(1) },
            SquareNotation::A2 => Square { file: File(1), rank: Rank(2) },
            SquareNotation::A3 => Square { file: File(1), rank: Rank(3) },
            SquareNotation::A4 => Square { file: File(1), rank: Rank(4) },
            SquareNotation::A5 => Square { file: File(1), rank: Rank(5) },
            SquareNotation::A6 => Square { file: File(1), rank: Rank(6) },
            SquareNotation::A7 => Square { file: File(1), rank: Rank(7) },
            SquareNotation::A8 => Square { file: File(1), rank: Rank(8) },
            SquareNotation::B1 => Square { file: File(2), rank: Rank(1) },
            SquareNotation::B2 => Square { file: File(2), rank: Rank(2) },
            SquareNotation::B3 => Square { file: File(2), rank: Rank(3) },
            SquareNotation::B4 => Square { file: File(2), rank: Rank(4) },
            SquareNotation::B5 => Square { file: File(2), rank: Rank(5) },
            SquareNotation::B6 => Square { file: File(2), rank: Rank(6) },
            SquareNotation::B7 => Square { file: File(2), rank: Rank(7) },
            SquareNotation::B8 => Square { file: File(2), rank: Rank(8) },
            SquareNotation::C1 => Square { file: File(3), rank: Rank(1) },
            SquareNotation::C2 => Square { file: File(3), rank: Rank(2) },
            SquareNotation::C3 => Square { file: File(3), rank: Rank(3) },
            SquareNotation::C4 => Square { file: File(3), rank: Rank(4) },
            SquareNotation::C5 => Square { file: File(3), rank: Rank(5) },
            SquareNotation::C6 => Square { file: File(3), rank: Rank(6) },
            SquareNotation::C7 => Square { file: File(3), rank: Rank(7) },
            SquareNotation::C8 => Square { file: File(3), rank: Rank(8) },
            SquareNotation::D1 => Square { file: File(4), rank: Rank(1) },
            SquareNotation::D2 => Square { file: File(4), rank: Rank(2) },
            SquareNotation::D3 => Square { file: File(4), rank: Rank(3) },
            SquareNotation::D4 => Square { file: File(4), rank: Rank(4) },
            SquareNotation::D5 => Square { file: File(4), rank: Rank(5) },
            SquareNotation::D6 => Square { file: File(4), rank: Rank(6) },
            SquareNotation::D7 => Square { file: File(4), rank: Rank(7) },
            SquareNotation::D8 => Square { file: File(4), rank: Rank(8) },
            SquareNotation::E1 => Square { file: File(5), rank: Rank(1) },
            SquareNotation::E2 => Square { file: File(5), rank: Rank(2) },
            SquareNotation::E3 => Square { file: File(5), rank: Rank(3) },
            SquareNotation::E4 => Square { file: File(5), rank: Rank(4) },
            SquareNotation::E5 => Square { file: File(5), rank: Rank(5) },
            SquareNotation::E6 => Square { file: File(5), rank: Rank(6) },
            SquareNotation::E7 => Square { file: File(5), rank: Rank(7) },
            SquareNotation::E8 => Square { file: File(5), rank: Rank(8) },
            SquareNotation::F1 => Square { file: File(6), rank: Rank(1) },
            SquareNotation::F2 => Square { file: File(6), rank: Rank(2) },
            SquareNotation::F3 => Square { file: File(6), rank: Rank(3) },
            SquareNotation::F4 => Square { file: File(6), rank: Rank(4) },
            SquareNotation::F5 => Square { file: File(6), rank: Rank(5) },
            SquareNotation::F6 => Square { file: File(6), rank: Rank(6) },
            SquareNotation::F7 => Square { file: File(6), rank: Rank(7) },
            SquareNotation::F8 => Square { file: File(6), rank: Rank(8) },
            SquareNotation::G1 => Square { file: File(7), rank: Rank(1) },
            SquareNotation::G2 => Square { file: File(7), rank: Rank(2) },
            SquareNotation::G3 => Square { file: File(7), rank: Rank(3) },
            SquareNotation::G4 => Square { file: File(7), rank: Rank(4) },
            SquareNotation::G5 => Square { file: File(7), rank: Rank(5) },
            SquareNotation::G6 => Square { file: File(7), rank: Rank(6) },
            SquareNotation::G7 => Square { file: File(7), rank: Rank(7) },
            SquareNotation::G8 => Square { file: File(7), rank: Rank(8) },
            SquareNotation::H1 => Square { file: File(8), rank: Rank(1) },
            SquareNotation::H2 => Square { file: File(8), rank: Rank(2) },
            SquareNotation::H3 => Square { file: File(8), rank: Rank(3) },
            SquareNotation::H4 => Square { file: File(8), rank: Rank(4) },
            SquareNotation::H5 => Square { file: File(8), rank: Rank(5) },
            SquareNotation::H6 => Square { file: File(8), rank: Rank(6) },
            SquareNotation::H7 => Square { file: File(8), rank: Rank(7) },
            SquareNotation::H8 => Square { file: File(8), rank: Rank(8) },
        }
    }
}

impl From<SquareNotation> for Square {
    /// The square that the name stands for. It lies on the board.
    fn from(value: SquareNotation) -> (square: Square)
        ensures
            square == value.spec_square(),
            square.on_board(),
    {
        let (file, rank): (u8, u8) = match value {
            SquareNotation::A1 => (1, 1),
            SquareNotation::A2 => (1, 2),
            SquareNotation::A3 => (1, 3),
            SquareNotation::A4 => (1, 4),
            SquareNotation::A5 => (1, 5),
            SquareNotation::A6 => (1, 6),
            SquareNotation::A7 => (1, 7),
            SquareNotation::A8 => (1, 8),
            SquareNotation::B1 => (2, 1),
            SquareNotation::B2 => (2, 2),
            SquareNotation::B3 => (2, 3),
            SquareNotation::B4 => (2, 4),
            SquareNotation::B5 => (2, 5),
            SquareNotation::B6 => (2, 6),
            SquareNotation::B7 => (2, 7),
            SquareNotation::B8 => (2, 8),
            SquareNotation::C1 => (3, 1),
            SquareNotation::C2 => (3, 2),
            SquareNotation::C3 => (3, 3),
            SquareNotation::C4 => (3, 4),
            SquareNotation::C5 => (3, 5),
            SquareNotation::C6 => (3, 6),
            SquareNotation::C7 => (3, 7),
            SquareNotation::C8 => (3, 8),
            SquareNotation::D1 => (4, 1),
            SquareNotation::D2 => (4, 2),
            SquareNotation::D3 => (4, 3),
            SquareNotation::D4 => (4, 4),
            SquareNotation::D5 => (4, 5),
            SquareNotation::D6 => (4, 6),
            SquareNotation::D7 => (4, 7),
            SquareNotation::D8 => (4, 8),
            SquareNotation::E1 => (5, 1),
            SquareNotation::E2 => (5, 2),
            SquareNotation::E3 => (5, 3),
            SquareNotation::E4 => (5, 4),
            SquareNotation::E5 => (5, 5),
            SquareNotation::E6 => (5, 6),
            SquareNotation::E7 => (5, 7),
            SquareNotation::E8 => (5, 8),
            SquareNotation::F1 => (6, 1),
            SquareNotation::F2 => (6, 2),
            SquareNotation::F3 => (6, 3),
            SquareNotation::F4 => (6, 4),
            SquareNotation::F5 => (6, 5),
            SquareNotation::F6 => (6, 6),
            SquareNotation::F7 => (6, 7),
            SquareNotation::F8 => (6, 8),
            SquareNotation::G1 => (7, 1),
            SquareNotation::G2 => (7, 2),
            SquareNotation::G3 => (7, 3),
            SquareNotation::G4 => (7, 4),
            SquareNotation::G5 => (7, 5),
            SquareNotation::G6 => (7, 6),
            SquareNotation::G7 => (7, 7),
            SquareNotation::G8 => (7, 8),
            SquareNotation::H1 => (8, 1),
            SquareNotation::H2 => (8, 2),
            SquareNotation::H3 => (8, 3),
            SquareNotation::H4 => (8, 4),
            SquareNotation::H5 => (8, 5),
            SquareNotation::H6 => (8, 6),
            SquareNotation::H7 => (8, 7),
            SquareNotation::H8 => (8, 8),
        };
        Square { file: File(file), rank: Rank(rank) }
    }
}

impl FromSpecImpl<SquareNotation> for Square {
    open spec fn obeys_from_spec() -> bool {
        true
    }

    open spec fn from_spec(value: SquareNotation) -> Square {
        value.spec_square()
    }
}

} // verus!
