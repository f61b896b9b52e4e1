//! Squares of the board.

use super::{File, Offset, Rank};
use vstd::prelude::*;
use vstd::std_specs::convert::FromSpecImpl;
use vstd::std_specs::ops::AddSpecImpl;

verus! {

/// A square, named by its file and its rank. A square of the board has both
/// between 1 and 8; a value outside that range is the result of a step off
/// the board and is never occupied.
#[derive(Debug, Clone, Copy, PartialEq, Eq, Hash, Structural)]
pub struct Square {
    /// The column of the square.
    pub file: File,
    /// The row of the square.
    pub rank: Rank,
}

impl Square {
    /// Whether the square lies on the board: file and rank between 1 and 8.
    pub open spec fn on_board(&self) -> bool {
        self.file.on_board() && self.rank.on_board()
    }

    /// The place of an on-board square in the order a1, b1, ..., h1, a2, ...,
    /// h8, counted from 0.
    pub open spec fn index(self) -> int {
        (self.rank.0 - 1) * 8 + (self.file.0 - 1)
    }

    /// The square at place `index` in the order a1, b1, ..., h8.
    pub open spec fn at(index: int) -> Square {
        Square { file: File((index % 8 + 1) as u8), rank: Rank((index / 8 + 1) as u8) }
    }

    /// The square reached from this one by the step `offset`. It may lie off
    /// the board.
    pub open spec fn spec_translate(&self, offset: Offset) -> Square {
        Square { file: self.file.spec_shift(offset.file), rank: self.rank.spec_shift(offset.rank) }
    }

    /// The square on the given file and rank.
    pub fn new(file: File, rank: Rank) -> (square: Square)
        ensures
            square == (Square { file, rank }),
    {
        Square { file, rank }
    }

    /// The column of the square.
    pub fn file(&self) -> (file: &File)
        ensures
            *file == self.file,
    {
        &self.file
    }

    /// The row of the square.
    pub fn rank(&self) -> (rank: &Rank)
        ensures
            *rank == self.rank,
    {
        &self.rank
    }

    /// Whether the square lies on the board.
    #[verifier::when_used_as_spec(on_board)]
    pub fn is_on_board(&self) -> (valid: bool)
        ensures
            valid == self.on_board(),
    {
        1 <= self.file.0 && self.file.0 <= 8 && 1 <= self.rank.0 && self.rank.0 <= 8
    }

    /// The square reached from this one by the step `offset`. Nothing holds
    /// the result to the board: test it before using it as a square of the
    /// board.
    #[verifier::when_used_as_spec(spec_translate)]
    pub fn translate(&self, offset: Offset) -> (square: Square)
        ensures
            square == self.spec_translate(offset),
            self.on_board() ==> (square.on_board() <==> {
                &&& 1 <= self.file.0 + offset.file <= 8
                &&& 1 <= self.rank.0 + offset.rank <= 8
            }),
            square.on_board() && self.on_board() ==> {
                &&& square.file.0 == self.file.0 + offset.file
                &&& square.rank.0 == self.rank.0 + offset.rank
            },
    {
        Square { file: self.file.shift(offset.file), rank: self.rank.shift(offset.rank) }
    }
}

impl From<(u8, u8)> for Square {
    /// The square on the file and the rank with the given numbers, file
    /// first.
    fn from(value: (u8, u8)) -> (square: Square)
        ensures
            square == (Square { file: File(value.0), rank: Rank(value.1) }),
    {
        Square { file: File(value.0), rank: Rank(value.1) }
    }
}

impl FromSpecImpl<(u8, u8)> for Square {
    open spec fn obeys_from_spec() -> bool {
        true
    }

    open spec fn from_spec(value: (u8, u8)) -> Square {
        Square { file: File(value.0), rank: Rank(value.1) }
    }
}

impl core::ops::Add<Offset> for &Square {
    type Output = Square;

    /// The square reached from this one by the step `offset`, as
    /// `translate` gives it.
    fn add(self, offset: Offset) -> (square: Square)
        ensures
            square == self.spec_translate(offset),
    {
        self.translate(offset)
    }
}

impl AddSpecImpl<Offset> for &Square {
    open spec fn obeys_add_spec() -> bool {
        true
    }

    open spec fn add_req(self, offset: Offset) -> bool {
        true
    }

    open spec fn add_spec(self, offset: Offset) -> Square {
        self.spec_translate(offset)
    }
}

/// An on-board square and its place in the order a1, b1, ..., h8 name each
/// other.
pub proof fn lemma_square_index(square: Square)
    requires
        square.on_board(),
    ensures
        0 <= square.index() < 64,
        Square::at(square.index()) == square,
{
}

/// Every place from 0 to 63 is that of exactly one on-board square.
pub proof fn lemma_square_at(index: int)
    requires
        0 <= index < 64,
    ensures
        Square::at(index).on_board(),
        Square::at(index).index() == index,
{
}

} // verus!
