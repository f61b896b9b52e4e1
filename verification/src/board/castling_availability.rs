//! Which castling moves the two players still have a right to.

use crate::piece::Color;
use vstd::prelude::*;

verus! {

/// Whether each player may still castle on each side. A right is lost for
/// good once the king, or the rook of that side, has left its home square.
#[derive(Debug, Clone, Copy, PartialEq, Eq, Hash, Structural)]
pub struct CastlingAvailability {
    /// White may castle with the rook on the h-file.
    pub white_kingside: bool,
    /// White may castle with the rook on the a-file.
    pub white_queenside: bool,
    /// Black may castle with the rook on the h-file.
    pub black_kingside: bool,
    /// Black may castle with the rook on the a-file.
    pub black_queenside: bool,
}

impl CastlingAvailability {
    /// Whether `color` may castle on the king's side.
    pub open spec fn spec_short(&self, color: &Color) -> bool {
        match color {
            Color::White => self.white_kingside,
            Color::Black => self.black_kingside,
        }
    }

    /// Whether `color` may castle on the queen's side.
    pub open spec fn spec_long(&self, color: &Color) -> bool {
        match color {
            Color::White => self.white_queenside,
            Color::Black => self.black_queenside,
        }
    }

    /// These rights without the right of `color` to castle on the king's
    /// side.
    pub open spec fn without_kingside(self, color: Color) -> CastlingAvailability {
        match color {
            Color::White => CastlingAvailability { white_kingside: false, ..self },
            Color::Black => CastlingAvailability { black_kingside: false, ..self },
        }
    }

    /// These rights without the right of `color` to castle on the queen's
    /// side.
    pub open spec fn without_queenside(self, color: Color) -> CastlingAvailability {
        match color {
            Color::White => CastlingAvailability { white_queenside: false, ..self },
            Color::Black => CastlingAvailability { black_queenside: false, ..self },
        }
    }

    /// These rights without any right of `color`.
    pub open spec fn without_both(self, color: Color) -> CastlingAvailability {
        self.without_kingside(color).without_queenside(color)
    }

    /// Whether every right held here is also held in `earlier`: no right has
    /// come back.
    pub open spec fn within(self, earlier: CastlingAvailability) -> bool {
        &&& self.white_kingside ==> earlier.white_kingside
        &&& self.white_queenside ==> earlier.white_queenside
        &&& self.black_kingside ==> earlier.black_kingside
        &&& self.black_queenside ==> earlier.black_queenside
    }

    /// The rights with the four given values.
    pub fn new(
        white_kingside: bool,
        white_queenside: bool,
        black_kingside: bool,
        black_queenside: bool,
    ) -> (rights: CastlingAvailability)
        ensures
            rights == (CastlingAvailability {
                white_kingside,
                white_queenside,
                black_kingside,
                black_queenside,
            }),
    {
        CastlingAvailability { white_kingside, white_queenside, black_kingside, black_queenside }
    }

    /// Whether `color` may castle on the king's side.
    #[verifier::when_used_as_spec(spec_short)]
    pub fn is_short_castle_available(&self, color: &Color) -> (available: bool)
        ensures
            available == self.spec_short(color),
    {
        match color {
            Color::White => self.white_kingside,
            Color::Black => self.black_kingside,
        }
    }

    /// Whether `color` may castle on the queen's side.
    #[verifier::when_used_as_spec(spec_long)]
    pub fn is_long_castle_available(&self, color: &Color) -> (available: bool)
        ensures
            available == self.spec_long(color),
    {
        match color {
            Color::White => self.white_queenside,
            Color::Black => self.black_queenside,
        }
    }

    /// Takes both rights from `color`.
    pub fn disable_both(&mut self, color: &Color)
        ensures
            *final(self) == old(self).without_both(*color),
    {
        self.disable_kingside(color);
        self.disable_queenside(color);
    }

    /// Takes from `color` the right to castle on the king's side.
    pub fn disable_kingside(&mut self, color: &Color)
        ensures
            *final(self) == old(self).without_kingside(*color),
    {
        match color {
            Color::White => {
                self.white_kingside = false;
            },
            Color::Black => {
                self.black_kingside = false;
            },
        }
    }

    /// Takes from `color` the right to castle on the queen's side.
    pub fn disable_queenside(&mut self, color: &Color)
        ensures
            *final(self) == old(self).without_queenside(*color),
    {
        match color {
            Color::White => {
                self.white_queenside = false;
            },
            Color::Black => {
                self.black_queenside = false;
            },
        }
    }
}

impl Default for CastlingAvailability {
    /// The rights at the start of a game: all four.
    fn default() -> (rights: CastlingAvailability)
        ensures
            rights == (CastlingAvailability {
                white_kingside: true,
                white_queenside: true,
                black_kingside: true,
                black_queenside: true,
            }),
    {
        CastlingAvailability {
            white_kingside: true,
            white_queenside: true,
            black_kingside: true,
            black_queenside: true,
        }
    }
}

} // verus!
