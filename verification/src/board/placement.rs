//! Where the pieces stand.

use super::{File, Rank, Square};
use crate::piece::Piece;
use vstd::prelude::*;

verus! {

/// The pieces on the board: for each square at most one. Its view is the
/// map from the occupied squares to the pieces on them.
#[derive(Debug, Clone, Copy, PartialEq, Eq, Hash)]
pub struct PiecePlacement {
    cells: [Option<Piece>; 64],
}

impl View for PiecePlacement {
    type V = Map<Square, Piece>;

    closed spec fn view(&self) -> Map<Square, Piece> {
        Map::new(
            |square: Square| square.on_board() && self.cells@[square.index()] is Some,
            |square: Square| self.cells@[square.index()]->0,
        )
    }
}

/// The piece that `placement` holds on `square`, if any.
pub open spec fn piece_on(placement: Map<Square, Piece>, square: Square) -> Option<Piece> {
    if placement.dom().contains(square) {
        Some(placement[square])
    } else {
        None
    }
}

/// Whether every occupied square of `placement` lies on the board.
pub open spec fn on_board_only(placement: Map<Square, Piece>) -> bool {
    forall|square: Square| #[trigger] placement.dom().contains(square) ==> square.on_board()
}

impl PiecePlacement {
    /// Only squares of the board are ever occupied.
    pub proof fn lemma_on_board_only(&self)
        ensures
            on_board_only(self@),
    {
    }

    /// A board without pieces.
    pub fn new() -> (placement: PiecePlacement)
        ensures
            placement@ == Map::<Square, Piece>::empty(),
    {
        let placement = PiecePlacement { cells: [None; 64] };
        assert(placement@ =~= Map::<Square, Piece>::empty());
        placement
    }

    /// The piece on `square`, if any. A square off the board holds none.
    pub fn get(&self, square: &Square) -> (piece: Option<Piece>)
        ensures
            piece == piece_on(self@, *square),
    {
        if square.is_on_board() {
            let index: usize = ((square.rank.0 - 1) * 8 + (square.file.0 - 1)) as usize;
            self.cells[index]
        } else {
            None
        }
    }

    /// The piece on the square at place `index` in the order a1, b1, ...,
    /// h8, if any.
    pub fn at_index(&self, index: usize) -> (piece: Option<Piece>)
        requires
            index < 64,
        ensures
            piece == piece_on(self@, Square::at(index as int)),
    {
        self.cells[index]
    }

    /// Puts `piece` on `square`, in place of any piece that stood there, and
    /// returns that piece.
    pub fn insert(&mut self, square: Square, piece: Piece) -> (previous: Option<Piece>)
        requires
            square.on_board(),
        ensures
            final(self)@ == old(self)@.insert(square, piece),
            previous == piece_on(old(self)@, square),
    {
        let index: usize = ((square.rank.0 - 1) * 8 + (square.file.0 - 1)) as usize;
        let previous = self.cells[index];
        self.cells[index] = Some(piece);
        proof {
            assert forall|other: Square| other.on_board() && other != square implies other.index()
                != square.index() by {
                super::square::lemma_square_index(other);
                super::square::lemma_square_index(square);
            }
            assert(self@ =~= old(self)@.insert(square, piece));
        }
        previous
    }

    /// Takes the piece off `square` and returns it. Where none stood there,
    /// and on a square off the board, nothing changes.
    pub fn remove(&mut self, square: &Square) -> (removed: Option<Piece>)
        ensures
            final(self)@ == old(self)@.remove(*square),
            removed == piece_on(old(self)@, *square),
    {
        if square.is_on_board() {
            let index: usize = ((square.rank.0 - 1) * 8 + (square.file.0 - 1)) as usize;
            let removed = self.cells[index];
            self.cells[index] = None;
            proof {
                assert forall|other: Square|
                    other.on_board() && other != *square implies other.index()
                    != square.index() by {
                    super::square::lemma_square_index(other);
                    super::square::lemma_square_index(*square);
                }
                assert(self@ =~= old(self)@.remove(*square));
            }
            removed
        } else {
            assert(self@ =~= old(self)@.remove(*square));
            None
        }
    }
}

/// The square at place `index` in the order a1, b1, ..., h8.
pub fn square_at(index: usize) -> (square: Square)
    requires
        index < 64,
    ensures
        square == Square::at(index as int),
        square.on_board(),
        square.index() == index,
{
    Square { file: File((index % 8 + 1) as u8), rank: Rank((index / 8 + 1) as u8) }
}

} // verus!
