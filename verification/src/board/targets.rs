//! The squares that each kind of piece can go to from a square of a given
//! position, castling aside.

use super::board::spec_status;
use super::line::spec_line;
use super::placement::piece_on;
use super::square_iterator::{spec_from_single_offset, spec_walk};
use super::{Board, Direction, Offset, Square, SquareIterator, SquareStatus};
use crate::piece::{Color, Kind, Piece};
use vstd::prelude::*;

verus! {

/// The squares at the given offsets from `origin` that lie on the board, in
/// the order of the offsets.
pub open spec fn spec_jump_squares(origin: Square, offsets: Seq<Offset>) -> Seq<Square>
    decreases offsets.len(),
{
    if offsets.len() == 0 {
        Seq::<Square>::empty()
    } else {
        let before = spec_jump_squares(origin, offsets.drop_last());
        let target = origin.spec_translate(offsets.last());
        if target.on_board() {
            before.push(target)
        } else {
            before
        }
    }
}

/// The squares of `group` on which no piece of `color` stands, in order.
pub open spec fn spec_keep_free(
    placement: Map<Square, Piece>,
    color: Color,
    group: Seq<Square>,
) -> Seq<Square>
    decreases group.len(),
{
    if group.len() == 0 {
        Seq::<Square>::empty()
    } else {
        let before = spec_keep_free(placement, color, group.drop_last());
        if spec_status(placement, group.last(), color) != SquareStatus::TakenBySame {
            before.push(group.last())
        } else {
            before
        }
    }
}

/// The lines from `origin` in each of `directions`, in that order.
pub open spec fn spec_lines(origin: Square, directions: Seq<Direction>) -> Seq<Seq<Square>> {
    Seq::new(directions.len(), |i: int| spec_line(origin, directions[i]))
}

/// The squares that a piece of `color` can go to by walking each of
/// `lines` from its start, line after line.
pub open spec fn spec_walk_lines(
    placement: Map<Square, Piece>,
    color: Color,
    lines: Seq<Seq<Square>>,
) -> Seq<Square>
    decreases lines.len(),
{
    if lines.len() == 0 {
        Seq::<Square>::empty()
    } else {
        spec_walk_lines(placement, color, lines.drop_last()) + spec_walk(
            placement,
            color,
            lines.last(),
        )
    }
}

/// The squares that a pawn of `color` on `origin` can advance to: the
/// square ahead if it is empty, and the one beyond it too if the pawn
/// stands on its starting rank and that square is empty as well.
pub open spec fn spec_pawn_push_targets(
    placement: Map<Square, Piece>,
    color: Color,
    origin: Square,
) -> Seq<Square> {
    let ahead = Offset { file: 0, rank: color.spec_pawn_step() };
    let one = origin.spec_translate(ahead);
    let two = one.spec_translate(ahead);
    if !one.on_board() || piece_on(placement, one) is Some {
        Seq::<Square>::empty()
    } else if origin.rank == color.spec_second_rank() && piece_on(placement, two) is None {
        seq![one, two]
    } else {
        seq![one]
    }
}

/// The square that a pawn of `color` on `origin` can capture on towards
/// `side` (-1 for the a-file, 1 for the h-file): the square diagonally
/// ahead if an enemy stands on it, or if it is empty and is the square
/// `en_passant_target`; otherwise none.
pub open spec fn spec_pawn_capture_target(
    placement: Map<Square, Piece>,
    en_passant_target: Option<Square>,
    color: Color,
    origin: Square,
    side: i8,
) -> Seq<Square> {
    let target = origin.spec_translate(Offset { file: side, rank: color.spec_pawn_step() });
    if !target.on_board() {
        Seq::<Square>::empty()
    } else {
        match spec_status(placement, target, color) {
            SquareStatus::TakenByOpposite => seq![target],
            SquareStatus::Empty => if en_passant_target == Some(target) {
                seq![target]
            } else {
                Seq::<Square>::empty()
            },
            SquareStatus::TakenBySame => Seq::<Square>::empty(),
        }
    }
}

/// The squares that a pawn of `color` on `origin` can go to: its advances,
/// then its capture towards the a-file, then its capture towards the
/// h-file.
pub open spec fn spec_pawn_targets(
    placement: Map<Square, Piece>,
    en_passant_target: Option<Square>,
    color: Color,
    origin: Square,
) -> Seq<Square> {
    spec_pawn_push_targets(placement, color, origin) + spec_pawn_capture_target(
        placement,
        en_passant_target,
        color,
        origin,
        -1i8,
    ) + spec_pawn_capture_target(placement, en_passant_target, color, origin, 1i8)
}

/// The squares that `piece` can go to from `origin`, castling aside.
///
/// A bishop walks the four diagonals, a rook the four straight lines, a
/// queen all eight, each up to the first piece in the way. A knight and a
/// king take each of their eight jumps that stays on the board and does not
/// land on a piece of their own colour. A pawn advances and captures as
/// `spec_pawn_targets` says.
pub open spec fn spec_target_squares(
    placement: Map<Square, Piece>,
    en_passant_target: Option<Square>,
    piece: Piece,
    origin: Square,
) -> Seq<Square> {
    match piece.kind {
        Kind::Bishop => spec_walk_lines(
            placement,
            piece.color,
            spec_lines(origin, Direction::spec_diagonal()),
        ),
        Kind::Rook => spec_walk_lines(
            placement,
            piece.color,
            spec_lines(origin, Direction::spec_straight()),
        ),
        Kind::Queen => spec_walk_lines(
            placement,
            piece.color,
            spec_lines(origin, Direction::spec_all()),
        ),
        Kind::Knight => spec_keep_free(
            placement,
            piece.color,
            spec_jump_squares(origin, Offset::spec_knight_jumps()),
        ),
        Kind::King => spec_keep_free(
            placement,
            piece.color,
            spec_jump_squares(origin, Offset::spec_king_steps()),
        ),
        Kind::Pawn => spec_pawn_targets(placement, en_passant_target, piece.color, origin),
    }
}

impl Square {
    /// The squares at the given offsets from this one that lie on the
    /// board, in the order of the offsets.
    fn squares_at(&self, offsets: &[Offset; 8]) -> (squares: Vec<Square>)
        ensures
            squares@ == spec_jump_squares(*self, offsets@),
    {
        let mut squares: Vec<Square> = Vec::new();
        let mut index: usize = 0;
        while index < 8
            invariant
                index <= 8,
                squares@ == spec_jump_squares(*self, offsets@.take(index as int)),
            decreases 8 - index,
        {
            let target = self.translate(offsets[index]);
            assert(offsets@.take(index + 1).drop_last() =~= offsets@.take(index as int));
            if target.is_on_board() {
                squares.push(target);
            }
            index = index + 1;
        }
        assert(offsets@.take(8) =~= offsets@);
        squares
    }

    /// The squares of the board that are a knight's jump away.
    pub fn squares_on_knight_moves(&self) -> (squares: Vec<Square>)
        ensures
            squares@ == spec_jump_squares(*self, Offset::spec_knight_jumps()),
    {
        self.squares_at(&Offset::knight_jumps())
    }

    /// The squares of the board that are a king's step away.
    pub fn squares_on_king_move(&self) -> (squares: Vec<Square>)
        ensures
            squares@ == spec_jump_squares(*self, Offset::spec_king_steps()),
    {
        self.squares_at(&Offset::king_steps())
    }
}

/// Keeping the free squares of a group with one more square at its end
/// keeps the free squares of the group and then, where it is free, that
/// square: the same as trying the single jump to it.
proof fn lemma_jump_targets_step(
    placement: Map<Square, Piece>,
    color: Color,
    origin: Square,
    offsets: Seq<Offset>,
)
    requires
        offsets.len() > 0,
    ensures
        spec_keep_free(placement, color, spec_jump_squares(origin, offsets)) == spec_keep_free(
            placement,
            color,
            spec_jump_squares(origin, offsets.drop_last()),
        ) + spec_from_single_offset(placement, color, origin, offsets.last()),
{
    let before = spec_jump_squares(origin, offsets.drop_last());
    let target = origin.spec_translate(offsets.last());
    let kept = spec_keep_free(placement, color, before);
    if target.on_board() {
        assert(before.push(target).drop_last() =~= before);
        if spec_status(placement, target, color) != SquareStatus::TakenBySame {
            assert(kept.push(target) =~= kept + seq![target]);
        } else {
            assert(kept =~= kept + Seq::<Square>::empty());
        }
    } else {
        assert(kept =~= kept + Seq::<Square>::empty());
    }
}

impl Piece {
    /// The squares that this piece can reach by its jumps at `offsets`.
    fn jump_targets(&self, origin: &Square, board: &Board, offsets: &[Offset; 8]) -> (squares: Vec<
        Square,
    >)
        ensures
            squares@ == spec_keep_free(
                board@.placement,
                self.color,
                spec_jump_squares(*origin, offsets@),
            ),
    {
        let mut squares: Vec<Square> = Vec::new();
        let mut index: usize = 0;
        while index < 8
            invariant
                index <= 8,
                squares@ == spec_keep_free(
                    board@.placement,
                    self.color,
                    spec_jump_squares(*origin, offsets@.take(index as int)),
                ),
            decreases 8 - index,
        {
            let mut found = SquareIterator::from_single_offset(self, origin, board, offsets[index]);
            proof {
                assert(offsets@.take(index + 1).drop_last() =~= offsets@.take(index as int));
                lemma_jump_targets_step(
                    board@.placement,
                    self.color,
                    *origin,
                    offsets@.take(index + 1),
                );
            }
            squares.append(&mut found);
            index = index + 1;
        }
        assert(offsets@.take(8) =~= offsets@);
        squares
    }

    /// The squares that this piece can reach by sliding in `directions`.
    fn slide_targets(&self, origin: &Square, board: &Board, directions: &[Direction]) -> (squares:
        Vec<Square>)
        ensures
            squares@ == spec_walk_lines(
                board@.placement,
                self.color,
                spec_lines(*origin, directions@),
            ),
    {
        let mut squares: Vec<Square> = Vec::new();
        let mut index: usize = 0;
        while index < directions.len()
            invariant
                index <= directions@.len(),
                squares@ == spec_walk_lines(
                    board@.placement,
                    self.color,
                    spec_lines(*origin, directions@.take(index as int)),
                ),
            decreases directions@.len() - index,
        {
            let mut found = SquareIterator::from_direction(
                self,
                origin,
                board,
                None,
                directions[index],
            );
            proof {
                let longer = spec_lines(*origin, directions@.take(index + 1));
                assert(longer.drop_last() =~= spec_lines(
                    *origin,
                    directions@.take(index as int),
                ));
                assert(longer.last() == spec_line(*origin, directions@[index as int]));
            }
            squares.append(&mut found);
            index = index + 1;
        }
        assert(directions@.take(directions@.len() as int) =~= directions@);
        squares
    }

    /// The squares that this piece, taken as a pawn, can advance to from
    /// `origin`.
    pub fn pawn_push_targets(&self, origin: &Square, board: &Board) -> (squares: Vec<Square>)
        ensures
            squares@ == spec_pawn_push_targets(board@.placement, self.color, *origin),
    {
        let ahead = Offset::new(0, self.color.pawn_step());
        let mut squares: Vec<Square> = Vec::new();
        let one = origin.translate(ahead);
        if one.is_on_board() && board.is_empty(&one) {
            squares.push(one);
            let two = one.translate(ahead);
            if origin.rank.0 == self.color.second_rank().0 && board.is_empty(&two) {
                squares.push(two);
            }
        }
        assert(squares@ =~= spec_pawn_push_targets(board@.placement, self.color, *origin));
        squares
    }

    /// The square that this piece, taken as a pawn, can capture on from
    /// `origin` towards `side`: -1 for the a-file, 1 for the h-file.
    pub fn pawn_capture_target(&self, origin: &Square, board: &Board, side: i8) -> (squares: Vec<
        Square,
    >)
        ensures
            squares@ == spec_pawn_capture_target(
                board@.placement,
                board@.en_passant_target,
                self.color,
                *origin,
                side,
            ),
    {
        let target = origin.translate(Offset::new(side, self.color.pawn_step()));
        let mut squares: Vec<Square> = Vec::new();
        if target.is_on_board() {
            match board.status(&target, &self.color) {
                SquareStatus::TakenByOpposite => {
                    squares.push(target);
                },
                SquareStatus::Empty => {
                    match board.en_passant_target() {
                        Some(passed) => {
                            if passed == target {
                                squares.push(target);
                            }
                        },
                        None => {},
                    }
                },
                SquareStatus::TakenBySame => {},
            }
        }
        assert(squares@ =~= spec_pawn_capture_target(
            board@.placement,
            board@.en_passant_target,
            self.color,
            *origin,
            side,
        ));
        squares
    }

    /// The squares that this piece, taken as a pawn, can go to from
    /// `origin`.
    fn pawn_targets(&self, origin: &Square, board: &Board) -> (squares: Vec<Square>)
        ensures
            squares@ == spec_pawn_targets(
                board@.placement,
                board@.en_passant_target,
                self.color,
                *origin,
            ),
    {
        let mut squares = self.pawn_push_targets(origin, board);
        let mut left = self.pawn_capture_target(origin, board, -1);
        let mut right = self.pawn_capture_target(origin, board, 1);
        squares.append(&mut left);
        squares.append(&mut right);
        squares
    }

    /// The squares that this piece can go to from `origin` on `board`,
    /// castling aside.
    ///
    /// A bishop, a rook and a queen slide along their lines up to the first
    /// piece in the way, which they may take if it is an enemy. A knight
    /// and a king jump to each square of theirs that is not held by their
    /// own side. A pawn advances onto empty squares and captures
    /// diagonally, in passing too. Whether the move would leave the own king
    /// in check is not looked at. From a square of the board no square is
    /// listed twice.
    pub fn target_squares(&self, origin: &Square, board: &Board) -> (squares: Vec<Square>)
        ensures
            squares@ == spec_target_squares(
                board@.placement,
                board@.en_passant_target,
                *self,
                *origin,
            ),
            origin.on_board() ==> squares@.no_duplicates(),
    {
        proof {
            if origin.on_board() {
                super::target_laws::lemma_targets_differ(
                    board@.placement,
                    board@.en_passant_target,
                    *self,
                    *origin,
                );
            }
        }
        match self.kind {
            Kind::Bishop => self.slide_targets(origin, board, Direction::diagonal().as_slice()),
            Kind::Rook => self.slide_targets(origin, board, Direction::straight().as_slice()),
            Kind::Queen => self.slide_targets(origin, board, Direction::all().as_slice()),
            Kind::Knight => self.jump_targets(origin, board, &Offset::knight_jumps()),
            Kind::King => self.jump_targets(origin, board, &Offset::king_steps()),
            Kind::Pawn => self.pawn_targets(origin, board),
        }
    }
}

} // verus!
