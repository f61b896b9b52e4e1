//! Chess pieces: a colour and a kind.

use vstd::prelude::*;

pub use color::Color;
pub use kind::Kind;

mod color;
mod kind;

verus! {

/// A chess piece. It does not know where it stands: the board pairs it with
/// a square.
#[derive(Debug, Clone, Copy, PartialEq, Eq, Hash, Structural)]
pub struct Piece {
    /// The side the piece belongs to.
    pub color: Color,
    /// What the piece is.
    pub kind: Kind,
}

impl Piece {
    /// The letter that stands for this piece in Forsyth–Edwards Notation:
    /// upper case for white, lower case for black.
    pub open spec fn spec_board_representation(&self) -> char {
        match (self.color, self.kind) {
            (Color::White, Kind::Bishop) => 'B',
            (Color::Black, Kind::Bishop) => 'b',
            (Color::White, Kind::King) => 'K',
            (Color::Black, Kind::King) => 'k',
            (Color::White, Kind::Knight) => 'N',
            (Color::Black, Kind::Knight) => 'n',
            (Color::White, Kind::Pawn) => 'P',
            (Color::Black, Kind::Pawn) => 'p',
            (Color::White, Kind::Queen) => 'Q',
            (Color::Black, Kind::Queen) => 'q',
            (Color::White, Kind::Rook) => 'R',
            (Color::Black, Kind::Rook) => 'r',
        }
    }

    /// A piece of the given colour and kind.
    pub fn new(color: Color, kind: Kind) -> (piece: Piece)
        ensures
            piece == (Piece { color, kind }),
    {
        Piece { color, kind }
    }

    /// The side the piece belongs to.
    pub fn color(&self) -> (color: &Color)
        ensures
            *color == self.color,
    {
        &self.color
    }

    /// What the piece is.
    pub fn kind(&self) -> (kind: &Kind)
        ensures
            *kind == self.kind,
    {
        &self.kind
    }

    /// Turns the piece into another kind, keeping its colour.
    pub fn promote(&mut self, kind: Kind)
        ensures
            *final(self) == (Piece { color: old(self).color, kind }),
    {
        self.kind = kind;
    }

    /// The letter that stands for this piece on a board written as text.
    #[verifier::when_used_as_spec(spec_board_representation)]
    pub fn board_representation(&self) -> (letter: char)
        ensures
            letter == self.spec_board_representation(),
    {
        match (self.color, self.kind) {
            (Color::White, Kind::Bishop) => 'B',
            (Color::Black, Kind::Bishop) => 'b',
            (Color::White, Kind::King) => 'K',
            (Color::Black, Kind::King) => 'k',
            (Color::White, Kind::Knight) => 'N',
            (Color::Black, Kind::Knight) => 'n',
            (Color::White, Kind::Pawn) => 'P',
            (Color::Black, Kind::Pawn) => 'p',
            (Color::White, Kind::Queen) => 'Q',
            (Color::Black, Kind::Queen) => 'q',
            (Color::White, Kind::Rook) => 'R',
            (Color::Black, Kind::Rook) => 'r',
        }
    }
}

} // verus!
