//! The six kinds of chess piece.

use vstd::prelude::*;

verus! {

/// What a piece is, which decides how it moves.
#[derive(Debug, Clone, Copy, PartialEq, Eq, Hash, Structural)]
pub enum Kind {
    /// Moves along diagonals.
    Bishop,
    /// Moves one square in any direction, and castles.
    King,
    /// Jumps in an L shape.
    Knight,
    /// Advances along its file and captures diagonally.
    Pawn,
    /// Moves along ranks, files and diagonals.
    Queen,
    /// Moves along ranks and files.
    Rook,
}

impl Kind {
    /// Whether a pawn may promote to this kind: every kind but pawn and king.
    pub open spec fn spec_is_promotable(&self) -> bool {
        self == Kind::Bishop || self == Kind::Knight || self == Kind::Rook || self == Kind::Queen
    }

    /// The kinds a pawn may promote to, in the order in which promotions are
    /// listed.
    pub open spec fn spec_promotable_kinds() -> Seq<Kind> {
        seq![Kind::Bishop, Kind::Knight, Kind::Rook, Kind::Queen]
    }

    /// The letter that stands for this kind in move notation; a pawn has none.
    pub open spec fn spec_letter(self) -> Seq<char> {
        match self {
            Kind::Bishop => seq!['B'],
            Kind::King => seq!['K'],
            Kind::Knight => seq!['N'],
            Kind::Pawn => Seq::<char>::empty(),
            Kind::Queen => seq!['Q'],
            Kind::Rook => seq!['R'],
        }
    }

    /// Whether a pawn may promote to this kind.
    #[verifier::when_used_as_spec(spec_is_promotable)]
    pub fn is_promotable(&self) -> (promotable: bool)
        ensures
            promotable == self.spec_is_promotable(),
    {
        match self {
            Kind::Bishop | Kind::Knight | Kind::Rook | Kind::Queen => true,
            Kind::Pawn | Kind::King => false,
        }
    }

    /// The kinds a pawn may promote to.
    pub fn get_promotable_kinds() -> (kinds: [Kind; 4])
        ensures
            kinds@ == Kind::spec_promotable_kinds(),
            forall|kind: Kind| kind.spec_is_promotable() <==> kinds@.contains(kind),
    {
        let kinds = [Kind::Bishop, Kind::Knight, Kind::Rook, Kind::Queen];
        proof {
            assert(kinds@ =~= Kind::spec_promotable_kinds());
            assert forall|kind: Kind| kind.spec_is_promotable() implies kinds@.contains(kind) by {
                if kind == Kind::Bishop {
                    assert(kinds@[0] == kind);
                } else if kind == Kind::Knight {
                    assert(kinds@[1] == kind);
                } else if kind == Kind::Rook {
                    assert(kinds@[2] == kind);
                } else {
                    assert(kinds@[3] == kind);
                }
            }
        }
        kinds
    }
}

} // verus!
