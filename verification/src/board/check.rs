//! Check, and the moves that do not leave the own king in it.

use super::move_laws::moves_of_color;
use super::moves::spec_moves_of;
use super::placement::{piece_on, square_at};
use super::square::lemma_square_index;
use super::{
    Board, CastlingAvailability, ChessMove, File, PiecePlacement, Position, Square,
};
use crate::piece::{Color, Kind, Piece};
use vstd::prelude::*;

verus! {

/// Whether one of `moves` goes to `target`.
pub open spec fn spec_reaches(moves: Seq<ChessMove>, target: Square) -> bool {
    exists|i: int| 0 <= i < moves.len() && (#[trigger] moves[i]).destination_square == target
}

/// Whether a king of `color` stands on a square that a move of the other
/// colour goes to. Without a king of `color` there is no check.
pub open spec fn spec_in_check(
    placement: Map<Square, Piece>,
    castling: CastlingAvailability,
    en_passant_target: Option<Square>,
    color: Color,
) -> bool {
    exists|square: Square|
        #[trigger] piece_on(placement, square) == Some(Piece { color, kind: Kind::King })
            && spec_reaches(
            spec_moves_of(placement, castling, en_passant_target, color.spec_opposite()),
            square,
        )
}

/// The square that the king crosses when it castles by `chess_move`: the
/// one halfway between the move's origin and its destination.
pub open spec fn spec_crossed_square(chess_move: ChessMove) -> Square {
    Square {
        file: File(
            ((chess_move.origin_square.file.0 + chess_move.destination_square.file.0) / 2) as u8,
        ),
        rank: chess_move.origin_square.rank,
    }
}

/// The first `count` of `moves` that are legal in `position`, in order.
pub open spec fn spec_legal_upto(
    position: Position,
    moves: Seq<ChessMove>,
    count: nat,
) -> Seq<ChessMove>
    decreases count,
{
    if count == 0 || count > moves.len() {
        Seq::<ChessMove>::empty()
    } else {
        let before = spec_legal_upto(position, moves, (count - 1) as nat);
        if position.is_legal(moves[count - 1]) {
            before.push(moves[count - 1])
        } else {
            before
        }
    }
}

impl Position {
    /// Whether `color` is in check: its king stands on a square that some
    /// move of the other colour goes to.
    pub open spec fn is_in_check(self, color: Color) -> bool {
        spec_in_check(
            self.placement,
            self.castling_availability,
            self.en_passant_target,
            color,
        )
    }

    /// This position with the piece on the origin of `chess_move` set down
    /// on the square that a castling king crosses instead.
    pub open spec fn with_king_crossing(self, chess_move: ChessMove) -> Position {
        Position {
            placement: self.placement.remove(chess_move.origin_square).insert(
                spec_crossed_square(chess_move),
                chess_move.piece,
            ),
            ..self
        }
    }

    /// Whether the side to move may make `chess_move` under the rules of
    /// check.
    ///
    /// The move must be one that can be made, and after it the side that
    /// made it must not be in check. Castling asks for more: the king must
    /// not be in check before it castles, nor would it be if it stopped on
    /// the square it crosses.
    pub open spec fn is_legal(self, chess_move: ChessMove) -> bool {
        match self.make_move(chess_move) {
            Err(_) => false,
            Ok(after) => {
                &&& !after.is_in_check(self.active_color)
                &&& chess_move.action.spec_is_castle() ==> {
                    &&& !self.is_in_check(self.active_color)
                    &&& !self.with_king_crossing(chess_move).is_in_check(self.active_color)
                }
            },
        }
    }

    /// The moves of the side to move that are legal: those of
    /// `pseudo_legal_moves` that `is_legal` accepts, in the same order.
    pub open spec fn legal_moves(self) -> Seq<ChessMove> {
        spec_legal_upto(self, self.pseudo_legal_moves(), self.pseudo_legal_moves().len())
    }
}

/// The legal moves of a position are among the moves it lists for the side
/// to move, so each goes from a square of the board to another one, and
/// each is legal.
pub proof fn lemma_legal_moves(position: Position, moves: Seq<ChessMove>, count: nat)
    requires
        count <= moves.len(),
    ensures
        forall|i: int|
            0 <= i < spec_legal_upto(position, moves, count).len() ==> {
                &&& position.is_legal(#[trigger] spec_legal_upto(position, moves, count)[i])
                &&& exists|j: int|
                    0 <= j < count && moves[j] == spec_legal_upto(position, moves, count)[i]
            },
        forall|j: int|
            0 <= j < count && position.is_legal(moves[j]) ==> spec_legal_upto(
                position,
                moves,
                count,
            ).contains(#[trigger] moves[j]),
    decreases count,
{
    if count > 0 {
        let before = spec_legal_upto(position, moves, (count - 1) as nat);
        let all = spec_legal_upto(position, moves, count);
        lemma_legal_moves(position, moves, (count - 1) as nat);
        assert forall|i: int| 0 <= i < all.len() implies {
            &&& position.is_legal(#[trigger] all[i])
            &&& exists|j: int| 0 <= j < count && moves[j] == all[i]
        } by {
            if i < before.len() {
                assert(all[i] == before[i]);
                let j = choose|j: int| 0 <= j < count - 1 && moves[j] == before[i];
                assert(0 <= j < count && moves[j] == all[i]);
            } else {
                assert(all[i] == moves[count - 1]);
            }
        }
        assert forall|j: int| 0 <= j < count && position.is_legal(moves[j]) implies all.contains(
            #[trigger] moves[j],
        ) by {
            if j < count - 1 {
                assert(before.contains(moves[j]));
                let i = choose|i: int| 0 <= i < before.len() && before[i] == moves[j];
                assert(all[i] == moves[j]);
            } else {
                assert(all[all.len() - 1] == moves[j]);
            }
        }
    }
}

impl Board {
    /// Whether one of `moves` goes to `target`.
    fn reaches(moves: &Vec<ChessMove>, target: &Square) -> (reached: bool)
        ensures
            reached == spec_reaches(moves@, *target),
    {
        let mut index: usize = 0;
        while index < moves.len()
            invariant
                index <= moves@.len(),
                forall|i: int| 0 <= i < index ==> (#[trigger] moves@[i]).destination_square != *target,
            decreases moves@.len() - index,
        {
            if moves[index].destination_square == *target {
                return true;
            }
            index = index + 1;
        }
        false
    }

    /// Whether `color` is in check: whether its king stands on a square that
    /// some move of the other colour goes to, whoever is to move. The moves
    /// looked at are all that the other colour's pieces can make, not only
    /// those that are legal. Without a king of `color` the answer is no.
    pub fn is_in_check(&self, color: &Color) -> (in_check: bool)
        ensures
            in_check == self@.is_in_check(*color),
    {
        let moves = self.moves_of(color.opposite());
        let king = Piece::new(*color, Kind::King);
        let mut index: usize = 0;
        while index < 64
            invariant
                index <= 64,
                king == (Piece { color: *color, kind: Kind::King }),
                moves@ == self@.moves_of(color.spec_opposite()),
                forall|i: int|
                    0 <= i < index ==> !(piece_on(self@.placement, #[trigger] Square::at(i))
                        == Some(king) && spec_reaches(moves@, Square::at(i))),
            decreases 64 - index,
        {
            let square = square_at(index);
            match self.piece_at(&square) {
                Some(piece) => {
                    if piece == king && Board::reaches(&moves, &square) {
                        return true;
                    }
                },
                None => {},
            }
            index = index + 1;
        }
        proof {
            self.lemma_view();
            assert forall|square: Square|
                !(#[trigger] piece_on(self@.placement, square) == Some(king) && spec_reaches(
                    moves@,
                    square,
                )) by {
                if piece_on(self@.placement, square) == Some(king) {
                    assert(self@.placement.dom().contains(square));
                    lemma_square_index(square);
                    assert(Square::at(square.index()) == square);
                }
            }
        }
        false
    }

    /// Whether the side to move may make `chess_move` under the rules of
    /// check: the move can be made, it does not leave the side that makes it
    /// in check, and a castling king is not in check where it stands nor on
    /// the square it crosses.
    pub fn is_legal(&self, chess_move: &ChessMove) -> (legal: bool)
        requires
            chess_move.destination_square.on_board(),
        ensures
            legal == self@.is_legal(*chess_move),
    {
        let mover = *self.active_color();
        let mut after = Board::new(
            *self.piece_placement(),
            mover,
            *self.castling_availability(),
            self.en_passant_target(),
            0,
            0,
        );
        match after.make_move(*chess_move) {
            Err(_) => false,
            Ok(()) => {
                if after.is_in_check(&mover) {
                    false
                } else if chess_move.action.is_castle() {
                    if self.is_in_check(&mover) {
                        false
                    } else {
                        let origin = chess_move.origin_square;
                        let crossed = Square::new(
                            File(
                                ((origin.file.0 as u16 + chess_move.destination_square.file.0 as u16)
                                    / 2) as u8,
                            ),
                            origin.rank,
                        );
                        proof {
                            self.lemma_view();
                            assert(origin.on_board());
                        }
                        let mut placement: PiecePlacement = *self.piece_placement();
                        placement.remove(&origin);
                        placement.insert(crossed, chess_move.piece);
                        let crossing = Board::new(
                            placement,
                            mover,
                            *self.castling_availability(),
                            self.en_passant_target(),
                            0,
                            0,
                        );
                        !crossing.is_in_check(&mover)
                    }
                } else {
                    true
                }
            },
        }
    }

    /// The legal moves of the side to move: every move that its pieces can
    /// make and that `is_legal` accepts, in the order of
    /// `pseudo_legal_moves`.
    ///
    /// Each move goes from a square of the board to another one.
    pub fn legal_moves(&self) -> (moves: Vec<ChessMove>)
        ensures
            moves@ == self@.legal_moves(),
            forall|i: int|
                0 <= i < moves@.len() ==> (#[trigger] moves@[i]).origin_square
                    != moves@[i].destination_square,
            forall|i: int| 0 <= i < moves@.len() ==> (#[trigger] moves@[i]).well_formed(),
    {
        let candidates = self.pseudo_legal_moves();
        let mut moves: Vec<ChessMove> = Vec::new();
        let mut index: usize = 0;
        while index < candidates.len()
            invariant
                index <= candidates@.len(),
                candidates@ == self@.pseudo_legal_moves(),
                moves_of_color(
                    candidates@,
                    self@.placement,
                    self@.castling_availability,
                    self@.active_color,
                ),
                moves@ == spec_legal_upto(self@, candidates@, index as nat),
                forall|i: int| 0 <= i < moves@.len() ==> (#[trigger] moves@[i]).well_formed(),
            decreases candidates@.len() - index,
        {
            let candidate = candidates[index];
            assert(candidates@[index as int].well_formed());
            if self.is_legal(&candidate) {
                moves.push(candidate);
            }
            index = index + 1;
        }
        moves
    }
}

} // verus!
