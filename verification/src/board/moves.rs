//! The moves that the pieces of a position can make, before asking whether
//! a move leaves the own king in check.

use super::board::spec_status;
use super::move_laws::{
    lemma_moves_leave_their_square, lemma_piece_moves_from, moves_from, moves_of_color,
};
use super::placement::{piece_on, square_at};
use super::targets::{
    spec_jump_squares, spec_keep_free, spec_lines, spec_pawn_capture_target,
    spec_pawn_push_targets, spec_walk_lines,
};
use super::{
    Action, Board, CastlingAvailability, ChessMove, Direction, File, Line, MoveStatus, Offset,
    Position, Square, SquareIterator, SquareStatus,
};
use crate::piece::{Color, Kind, Piece};
use vstd::prelude::*;

verus! {

/// The move of `piece` from `origin` to `target`: a capture if an enemy
/// stands there, a plain move otherwise.
pub open spec fn spec_move_to(
    placement: Map<Square, Piece>,
    piece: Piece,
    origin: Square,
    target: Square,
) -> ChessMove {
    ChessMove::plain(
        piece,
        origin,
        if spec_status(placement, target, piece.color) == SquareStatus::TakenByOpposite {
            Action::Capture
        } else {
            Action::Move
        },
        target,
    )
}

/// The moves of `piece` from `origin` to each of `targets`, in order.
pub open spec fn spec_moves_to(
    placement: Map<Square, Piece>,
    piece: Piece,
    origin: Square,
    targets: Seq<Square>,
) -> Seq<ChessMove> {
    Seq::new(targets.len(), |i: int| spec_move_to(placement, piece, origin, targets[i]))
}

/// The moves of `piece` from `origin` along the given lines: on each line
/// a move to every empty square up to the first piece in the way, and the
/// capture of that piece if it is an enemy.
pub open spec fn spec_moves_for_lines(
    placement: Map<Square, Piece>,
    piece: Piece,
    origin: Square,
    lines: Seq<Seq<Square>>,
) -> Seq<ChessMove> {
    spec_moves_to(placement, piece, origin, spec_walk_lines(placement, piece.color, lines))
}

/// The moves of `piece` from `origin` to the squares of `group`: none to a
/// square held by its own side, a capture where an enemy stands, a plain
/// move to an empty square.
pub open spec fn spec_moves_for_group(
    placement: Map<Square, Piece>,
    piece: Piece,
    origin: Square,
    group: Seq<Square>,
) -> Seq<ChessMove> {
    spec_moves_to(placement, piece, origin, spec_keep_free(placement, piece.color, group))
}

/// The moves of `piece` sliding from `origin` in each of `directions`.
pub open spec fn spec_slider_moves(
    placement: Map<Square, Piece>,
    piece: Piece,
    origin: Square,
    directions: Seq<Direction>,
) -> Seq<ChessMove> {
    spec_moves_for_lines(placement, piece, origin, spec_lines(origin, directions))
}

/// The moves of `piece` jumping from `origin` by each of `offsets`.
pub open spec fn spec_jumper_moves(
    placement: Map<Square, Piece>,
    piece: Piece,
    origin: Square,
    offsets: Seq<Offset>,
) -> Seq<ChessMove> {
    spec_moves_for_group(placement, piece, origin, spec_jump_squares(origin, offsets))
}

/// The square on which the king of `color` starts a game: e1 or e8.
pub open spec fn spec_king_home(color: Color) -> Square {
    Square { file: File(5), rank: color.spec_first_rank() }
}

/// The square on `file` of the rank of `square`.
pub open spec fn spec_same_rank(square: Square, file: u8) -> Square {
    Square { file: File(file), rank: square.rank }
}

/// The castling moves of `piece` from `origin`.
///
/// A side is offered when `origin` is the home square of the king of the
/// piece's colour, that colour still has the right to castle on that side,
/// and the squares between the king's and the rook's home squares are
/// empty: the f- and g-file for the short side, the b-, c- and d-file for
/// the long side. The king goes two files towards the rook. The short side
/// comes first.
///
/// Neither the rook nor any attack on the king or on the squares it crosses
/// is looked at here; `Position::is_legal` asks for both.
pub open spec fn spec_castling_moves(
    placement: Map<Square, Piece>,
    castling: CastlingAvailability,
    piece: Piece,
    origin: Square,
) -> Seq<ChessMove> {
    let at_home = origin == spec_king_home(piece.color);
    let short = if at_home && castling.spec_short(&piece.color) && piece_on(
        placement,
        spec_same_rank(origin, 6),
    ) is None && piece_on(placement, spec_same_rank(origin, 7)) is None {
        seq![ChessMove::plain(piece, origin, Action::ShortCastle, spec_same_rank(origin, 7))]
    } else {
        Seq::<ChessMove>::empty()
    };
    let long = if at_home && castling.spec_long(&piece.color) && piece_on(
        placement,
        spec_same_rank(origin, 4),
    ) is None && piece_on(placement, spec_same_rank(origin, 3)) is None && piece_on(
        placement,
        spec_same_rank(origin, 2),
    ) is None {
        seq![ChessMove::plain(piece, origin, Action::LongCastle, spec_same_rank(origin, 3))]
    } else {
        Seq::<ChessMove>::empty()
    };
    short + long
}

/// The moves of `piece`, taken as a king, from `origin`: its steps, then its
/// castling moves.
pub open spec fn spec_king_moves(
    placement: Map<Square, Piece>,
    castling: CastlingAvailability,
    piece: Piece,
    origin: Square,
) -> Seq<ChessMove> {
    spec_jumper_moves(placement, piece, origin, Offset::spec_king_steps()) + spec_castling_moves(
        placement,
        castling,
        piece,
        origin,
    )
}

/// The four promotions of the pawn `piece` that goes from `origin` to
/// `target`: to bishop, knight, rook and queen, in that order.
pub open spec fn spec_promotions(
    piece: Piece,
    origin: Square,
    target: Square,
    capture: bool,
) -> Seq<ChessMove> {
    Seq::new(
        4,
        |i: int|
            ChessMove::plain(
                piece,
                origin,
                if capture {
                    Action::CapturePromotion(Kind::spec_promotable_kinds()[i])
                } else {
                    Action::MovePromotion(Kind::spec_promotable_kinds()[i])
                },
                target,
            ),
    )
}

/// The moves by which the pawn `piece` goes from `origin` to `target`:
/// the four promotions if `target` is on the promotion rank of its colour,
/// otherwise the one move or capture.
pub open spec fn spec_pawn_arrival(
    piece: Piece,
    origin: Square,
    target: Square,
    capture: bool,
) -> Seq<ChessMove> {
    if target.rank == piece.color.spec_promotion_rank() {
        spec_promotions(piece, origin, target, capture)
    } else {
        seq![
            ChessMove::plain(
                piece,
                origin,
                if capture {
                    Action::Capture
                } else {
                    Action::Move
                },
                target,
            ),
        ]
    }
}

/// The moves by which the pawn `piece` advances from `origin` to each of
/// `targets`, in order.
pub open spec fn spec_pawn_advances(
    piece: Piece,
    origin: Square,
    targets: Seq<Square>,
) -> Seq<ChessMove>
    decreases targets.len(),
{
    if targets.len() == 0 {
        Seq::<ChessMove>::empty()
    } else {
        spec_pawn_advances(piece, origin, targets.drop_last()) + spec_pawn_arrival(
            piece,
            origin,
            targets.last(),
            false,
        )
    }
}

/// The captures of the pawn `piece` from `origin` towards `side` (-1 for
/// the a-file, 1 for the h-file): the capture of an enemy diagonally ahead,
/// which promotes on the last rank; or the capture in passing onto the
/// empty square `en_passant_target`.
pub open spec fn spec_pawn_capture_moves(
    placement: Map<Square, Piece>,
    en_passant_target: Option<Square>,
    piece: Piece,
    origin: Square,
    side: i8,
) -> Seq<ChessMove> {
    let targets = spec_pawn_capture_target(placement, en_passant_target, piece.color, origin, side);
    if targets.len() == 0 {
        Seq::<ChessMove>::empty()
    } else if spec_status(placement, targets[0], piece.color) == SquareStatus::TakenByOpposite {
        spec_pawn_arrival(piece, origin, targets[0], true)
    } else {
        seq![ChessMove::plain(piece, origin, Action::EnPassant, targets[0])]
    }
}

/// The moves of `piece`, taken as a pawn, from `origin`: its advances, then
/// its captures towards the a-file, then those towards the h-file.
pub open spec fn spec_pawn_moves(
    placement: Map<Square, Piece>,
    en_passant_target: Option<Square>,
    piece: Piece,
    origin: Square,
) -> Seq<ChessMove> {
    spec_pawn_advances(piece, origin, spec_pawn_push_targets(placement, piece.color, origin))
        + spec_pawn_capture_moves(placement, en_passant_target, piece, origin, -1i8)
        + spec_pawn_capture_moves(placement, en_passant_target, piece, origin, 1i8)
}

/// The moves of `piece` from `origin`, by its kind.
pub open spec fn spec_piece_moves(
    placement: Map<Square, Piece>,
    castling: CastlingAvailability,
    en_passant_target: Option<Square>,
    piece: Piece,
    origin: Square,
) -> Seq<ChessMove> {
    match piece.kind {
        Kind::Bishop => spec_slider_moves(placement, piece, origin, Direction::spec_diagonal()),
        Kind::Rook => spec_slider_moves(placement, piece, origin, Direction::spec_straight()),
        Kind::Queen => spec_slider_moves(placement, piece, origin, Direction::spec_all()),
        Kind::Knight => spec_jumper_moves(placement, piece, origin, Offset::spec_knight_jumps()),
        Kind::King => spec_king_moves(placement, castling, piece, origin),
        Kind::Pawn => spec_pawn_moves(placement, en_passant_target, piece, origin),
    }
}

/// The moves of the pieces of `color` that stand on the first `count`
/// squares in the order a1, b1, ..., h8: square after square, for each
/// piece the moves of `spec_piece_moves`.
pub open spec fn spec_moves_upto(
    placement: Map<Square, Piece>,
    castling: CastlingAvailability,
    en_passant_target: Option<Square>,
    color: Color,
    count: nat,
) -> Seq<ChessMove>
    decreases count,
{
    if count == 0 {
        Seq::<ChessMove>::empty()
    } else {
        let before = spec_moves_upto(
            placement,
            castling,
            en_passant_target,
            color,
            (count - 1) as nat,
        );
        let origin = Square::at(count - 1);
        match piece_on(placement, origin) {
            Some(piece) => if piece.color == color {
                before + spec_piece_moves(placement, castling, en_passant_target, piece, origin)
            } else {
                before
            },
            None => before,
        }
    }
}

/// All moves of the pieces of `color`.
pub open spec fn spec_moves_of(
    placement: Map<Square, Piece>,
    castling: CastlingAvailability,
    en_passant_target: Option<Square>,
    color: Color,
) -> Seq<ChessMove> {
    spec_moves_upto(placement, castling, en_passant_target, color, 64)
}

impl Position {
    /// All moves of the pieces of `color`, whoever is to move.
    pub open spec fn moves_of(self, color: Color) -> Seq<ChessMove> {
        spec_moves_of(self.placement, self.castling_availability, self.en_passant_target, color)
    }

    /// The moves of the side to move, before asking whether a move leaves
    /// its king in check.
    pub open spec fn pseudo_legal_moves(self) -> Seq<ChessMove> {
        self.moves_of(self.active_color)
    }
}

impl Board {
    /// The moves of `piece` from `origin` to each of `targets`: a capture
    /// where an enemy stands, a plain move elsewhere.
    pub fn moves_to(&self, origin: &Square, piece: &Piece, targets: &Vec<Square>) -> (moves: Vec<
        ChessMove,
    >)
        ensures
            moves@ == spec_moves_to(self@.placement, *piece, *origin, targets@),
    {
        let mut moves: Vec<ChessMove> = Vec::new();
        let mut index: usize = 0;
        while index < targets.len()
            invariant
                index <= targets@.len(),
                moves@ == spec_moves_to(
                    self@.placement,
                    *piece,
                    *origin,
                    targets@.take(index as int),
                ),
            decreases targets@.len() - index,
        {
            let target = targets[index];
            let action = match self.status(&target, piece.color()) {
                SquareStatus::TakenByOpposite => Action::Capture,
                _ => Action::Move,
            };
            moves.push(ChessMove::new(*piece, *origin, action, target, MoveStatus::Nothing));
            assert(moves@ =~= spec_moves_to(
                self@.placement,
                *piece,
                *origin,
                targets@.take(index + 1),
            ));
            index = index + 1;
        }
        assert(targets@.take(targets@.len() as int) =~= targets@);
        moves
    }

    /// The moves of `piece` from `origin` along the given lines of squares.
    /// Each line is walked from its start: a move to every empty square,
    /// the capture of the first piece in the way if it is an enemy, and
    /// nothing beyond that piece.
    pub fn legal_moves_for_lines(
        &self,
        origin: &Square,
        piece: &Piece,
        lines: Vec<Vec<Square>>,
    ) -> (moves: Vec<ChessMove>)
        ensures
            moves@ == spec_moves_for_lines(
                self@.placement,
                *piece,
                *origin,
                Seq::new(lines@.len(), |i: int| lines@[i]@),
            ),
    {
        let ghost all = Seq::new(lines@.len(), |i: int| lines@[i]@);
        let mut targets: Vec<Square> = Vec::new();
        let mut index: usize = 0;
        while index < lines.len()
            invariant
                index <= lines@.len(),
                all == Seq::new(lines@.len(), |i: int| lines@[i]@),
                targets@ == spec_walk_lines(self@.placement, piece.color, all.take(index as int)),
            decreases lines@.len() - index,
        {
            let mut found = SquareIterator::along(piece, self, &lines[index]);
            proof {
                assert(all.take(index + 1).drop_last() =~= all.take(index as int));
                assert(all.take(index + 1).last() == lines@[index as int]@);
            }
            targets.append(&mut found);
            index = index + 1;
        }
        assert(all.take(lines@.len() as int) =~= all);
        self.moves_to(origin, piece, &targets)
    }

    /// The moves of `piece` from `origin` to the squares of `group`: none
    /// to a square held by its own side, a capture where an enemy stands, a
    /// plain move to an empty square.
    pub fn legal_moves_for_group(&self, origin: &Square, piece: &Piece, group: Vec<Square>) -> (moves:
        Vec<ChessMove>)
        ensures
            moves@ == spec_moves_for_group(self@.placement, *piece, *origin, group@),
    {
        let mut targets: Vec<Square> = Vec::new();
        let mut index: usize = 0;
        while index < group.len()
            invariant
                index <= group@.len(),
                targets@ == spec_keep_free(
                    self@.placement,
                    piece.color,
                    group@.take(index as int),
                ),
            decreases group@.len() - index,
        {
            let target = group[index];
            assert(group@.take(index + 1).drop_last() =~= group@.take(index as int));
            match self.status(&target, piece.color()) {
                SquareStatus::TakenBySame => {},
                _ => {
                    targets.push(target);
                },
            }
            index = index + 1;
        }
        assert(group@.take(group@.len() as int) =~= group@);
        self.moves_to(origin, piece, &targets)
    }

    /// The moves of `piece` sliding from `origin` in each of `directions`.
    fn slider_moves(&self, origin: &Square, piece: &Piece, directions: &[Direction]) -> (moves: Vec<
        ChessMove,
    >)
        ensures
            moves@ == spec_slider_moves(self@.placement, *piece, *origin, directions@),
    {
        let mut lines: Vec<Vec<Square>> = Vec::new();
        let mut index: usize = 0;
        while index < directions.len()
            invariant
                index <= directions@.len(),
                lines@.len() == index,
                forall|i: int|
                    0 <= i < index ==> (#[trigger] lines@[i])@ == super::line::spec_line(
                        *origin,
                        directions@[i],
                    ),
            decreases directions@.len() - index,
        {
            lines.push(Line::new(*origin, directions[index]).squares());
            index = index + 1;
        }
        assert(Seq::new(lines@.len(), |i: int| lines@[i]@) =~= spec_lines(*origin, directions@));
        self.legal_moves_for_lines(origin, piece, lines)
    }

    /// The moves of `piece`, taken as a bishop, from `origin`: along the
    /// four diagonals.
    pub fn legal_bishop_moves(&self, origin: &Square, piece: &Piece) -> (moves: Vec<ChessMove>)
        ensures
            moves@ == spec_slider_moves(
                self@.placement,
                *piece,
                *origin,
                Direction::spec_diagonal(),
            ),
    {
        self.slider_moves(origin, piece, Direction::diagonal().as_slice())
    }

    /// The moves of `piece`, taken as a rook, from `origin`: along the rank
    /// and the file.
    pub fn legal_rook_moves(&self, origin: &Square, piece: &Piece) -> (moves: Vec<ChessMove>)
        ensures
            moves@ == spec_slider_moves(
                self@.placement,
                *piece,
                *origin,
                Direction::spec_straight(),
            ),
    {
        self.slider_moves(origin, piece, Direction::straight().as_slice())
    }

    /// The moves of `piece`, taken as a queen, from `origin`: along the
    /// rank, the file and the four diagonals.
    pub fn legal_queen_moves(&self, origin: &Square, piece: &Piece) -> (moves: Vec<ChessMove>)
        ensures
            moves@ == spec_slider_moves(self@.placement, *piece, *origin, Direction::spec_all()),
    {
        self.slider_moves(origin, piece, Direction::all().as_slice())
    }

    /// The moves of `piece`, taken as a knight, from `origin`.
    pub fn legal_knight_moves(&self, origin: &Square, piece: &Piece) -> (moves: Vec<ChessMove>)
        ensures
            moves@ == spec_jumper_moves(
                self@.placement,
                *piece,
                *origin,
                Offset::spec_knight_jumps(),
            ),
    {
        self.legal_moves_for_group(origin, piece, origin.squares_on_knight_moves())
    }

    /// The moves of `piece`, taken as a king, from `origin`: a step to each
    /// neighbouring square not held by its own side, then castling.
    ///
    /// Castling on a side is offered when the king stands on its home
    /// square, its colour still has the right to castle on that side, and
    /// the squares between king and rook are empty. Whether the rook is
    /// there, and whether the king is attacked where it stands, where it
    /// passes or where it lands, is not looked at here: `legal_moves` does
    /// that.
    pub fn legal_king_moves(&self, origin: &Square, piece: &Piece) -> (moves: Vec<ChessMove>)
        ensures
            moves@ == spec_king_moves(
                self@.placement,
                self@.castling_availability,
                *piece,
                *origin,
            ),
    {
        let mut moves = self.legal_moves_for_group(origin, piece, origin.squares_on_king_move());
        let ghost steps = moves@;
        let home = Square::new(File(5), piece.color.first_rank());
        let at_home = *origin == home;
        let rights = self.castling_availability();
        if at_home && rights.is_short_castle_available(piece.color()) && self.is_empty(
            &Square::new(File(6), origin.rank),
        ) && self.is_empty(&Square::new(File(7), origin.rank)) {
            moves.push(
                ChessMove::new(
                    *piece,
                    *origin,
                    Action::ShortCastle,
                    Square::new(File(7), origin.rank),
                    MoveStatus::Nothing,
                ),
            );
        }
        if at_home && rights.is_long_castle_available(piece.color()) && self.is_empty(
            &Square::new(File(4), origin.rank),
        ) && self.is_empty(&Square::new(File(3), origin.rank)) && self.is_empty(
            &Square::new(File(2), origin.rank),
        ) {
            moves.push(
                ChessMove::new(
                    *piece,
                    *origin,
                    Action::LongCastle,
                    Square::new(File(3), origin.rank),
                    MoveStatus::Nothing,
                ),
            );
        }
        assert(moves@ =~= steps + spec_castling_moves(
            self@.placement,
            self@.castling_availability,
            *piece,
            *origin,
        ));
        moves
    }

    /// The moves by which the pawn `piece` goes from `origin` to `target`:
    /// the four promotions on the last rank, otherwise one move or capture.
    fn pawn_arrival(piece: &Piece, origin: &Square, target: Square, capture: bool) -> (moves: Vec<
        ChessMove,
    >)
        ensures
            moves@ == spec_pawn_arrival(*piece, *origin, target, capture),
    {
        let mut moves: Vec<ChessMove> = Vec::new();
        if target.rank.0 == piece.color.promotion_rank().0 {
            let kinds = Kind::get_promotable_kinds();
            let mut index: usize = 0;
            while index < 4
                invariant
                    index <= 4,
                    kinds@ == Kind::spec_promotable_kinds(),
                    moves@ == spec_promotions(*piece, *origin, target, capture).take(index as int),
                decreases 4 - index,
            {
                let action = if capture {
                    Action::CapturePromotion(kinds[index])
                } else {
                    Action::MovePromotion(kinds[index])
                };
                moves.push(ChessMove::new(*piece, *origin, action, target, MoveStatus::Nothing));
                assert(moves@ =~= spec_promotions(*piece, *origin, target, capture).take(
                    index + 1,
                ));
                index = index + 1;
            }
            assert(spec_promotions(*piece, *origin, target, capture).take(4) =~= spec_promotions(
                *piece,
                *origin,
                target,
                capture,
            ));
        } else {
            let action = if capture {
                Action::Capture
            } else {
                Action::Move
            };
            moves.push(ChessMove::new(*piece, *origin, action, target, MoveStatus::Nothing));
            assert(moves@ =~= spec_pawn_arrival(*piece, *origin, target, capture));
        }
        moves
    }

    /// The captures of the pawn `piece` from `origin` towards `side`.
    fn pawn_capture_moves(&self, origin: &Square, piece: &Piece, side: i8) -> (moves: Vec<
        ChessMove,
    >)
        ensures
            moves@ == spec_pawn_capture_moves(
                self@.placement,
                self@.en_passant_target,
                *piece,
                *origin,
                side,
            ),
    {
        let targets = piece.pawn_capture_target(origin, self, side);
        if targets.len() == 0 {
            Vec::new()
        } else {
            let target = targets[0];
            match self.status(&target, piece.color()) {
                SquareStatus::TakenByOpposite => Board::pawn_arrival(piece, origin, target, true),
                _ => {
                    let mut moves: Vec<ChessMove> = Vec::new();
                    moves.push(
                        ChessMove::new(
                            *piece,
                            *origin,
                            Action::EnPassant,
                            target,
                            MoveStatus::Nothing,
                        ),
                    );
                    assert(moves@ =~= seq![
                        ChessMove::plain(*piece, *origin, Action::EnPassant, target),
                    ]);
                    moves
                },
            }
        }
    }

    /// The moves of `piece`, taken as a pawn, from `origin`.
    ///
    /// The pawn advances one square if that square is empty, and a second
    /// one from its starting rank if that is empty too. It captures an
    /// enemy on either square diagonally ahead, and captures in passing
    /// onto such a square if it is empty and is the position's en-passant
    /// target. An advance or capture that lands on the last rank is listed
    /// four times, once for each kind the pawn may become.
    pub fn legal_pawn_moves(&self, origin: &Square, piece: &Piece) -> (moves: Vec<ChessMove>)
        ensures
            moves@ == spec_pawn_moves(
                self@.placement,
                self@.en_passant_target,
                *piece,
                *origin,
            ),
    {
        let targets = piece.pawn_push_targets(origin, self);
        let mut moves: Vec<ChessMove> = Vec::new();
        let mut index: usize = 0;
        while index < targets.len()
            invariant
                index <= targets@.len(),
                moves@ == spec_pawn_advances(*piece, *origin, targets@.take(index as int)),
            decreases targets@.len() - index,
        {
            let mut arrival = Board::pawn_arrival(piece, origin, targets[index], false);
            assert(targets@.take(index + 1).drop_last() =~= targets@.take(index as int));
            moves.append(&mut arrival);
            index = index + 1;
        }
        assert(targets@.take(targets@.len() as int) =~= targets@);
        let mut left = self.pawn_capture_moves(origin, piece, -1);
        let mut right = self.pawn_capture_moves(origin, piece, 1);
        moves.append(&mut left);
        moves.append(&mut right);
        moves
    }

    /// The moves of `piece` from `origin`, by its kind. From a square of
    /// the board, each is a move of `piece` from `origin` to another square
    /// of the board.
    pub fn piece_moves(&self, origin: &Square, piece: &Piece) -> (moves: Vec<ChessMove>)
        ensures
            moves@ == spec_piece_moves(
                self@.placement,
                self@.castling_availability,
                self@.en_passant_target,
                *piece,
                *origin,
            ),
            origin.on_board() ==> moves_from(moves@, *piece, *origin),
    {
        proof {
            if origin.on_board() {
                lemma_piece_moves_from(
                    self@.placement,
                    self@.castling_availability,
                    self@.en_passant_target,
                    *piece,
                    *origin,
                );
            }
        }
        match piece.kind {
            Kind::Bishop => self.legal_bishop_moves(origin, piece),
            Kind::Knight => self.legal_knight_moves(origin, piece),
            Kind::King => self.legal_king_moves(origin, piece),
            Kind::Pawn => self.legal_pawn_moves(origin, piece),
            Kind::Queen => self.legal_queen_moves(origin, piece),
            Kind::Rook => self.legal_rook_moves(origin, piece),
        }
    }

    /// All moves of the pieces of `color`, whoever is to move: square after
    /// square in the order a1, b1, ..., h8, for each piece its moves.
    ///
    /// Each is a move of a piece of `color` from the square on which it
    /// stands to another square of the board, by an action that fits the
    /// piece.
    pub fn moves_of(&self, color: Color) -> (moves: Vec<ChessMove>)
        ensures
            moves@ == self@.moves_of(color),
            moves_of_color(moves@, self@.placement, self@.castling_availability, color),
            forall|i: int|
                0 <= i < moves@.len() ==> (#[trigger] moves@[i]).origin_square
                    != moves@[i].destination_square,
    {
        proof {
            lemma_moves_leave_their_square(self@, color);
        }
        let mut moves: Vec<ChessMove> = Vec::new();
        let mut index: usize = 0;
        while index < 64
            invariant
                index <= 64,
                moves@ == spec_moves_upto(
                    self@.placement,
                    self@.castling_availability,
                    self@.en_passant_target,
                    color,
                    index as nat,
                ),
            decreases 64 - index,
        {
            let origin = square_at(index);
            match self.piece_at(&origin) {
                Some(piece) => {
                    if piece.color == color {
                        let mut found = self.piece_moves(&origin, &piece);
                        moves.append(&mut found);
                    }
                },
                None => {},
            }
            index = index + 1;
        }
        moves
    }

    /// The moves of the side to move, before asking whether a move leaves
    /// its king in check. Each goes from a square of the board to another
    /// one.
    pub fn pseudo_legal_moves(&self) -> (moves: Vec<ChessMove>)
        ensures
            moves@ == self@.pseudo_legal_moves(),
            moves_of_color(
                moves@,
                self@.placement,
                self@.castling_availability,
                self@.active_color,
            ),
            forall|i: int|
                0 <= i < moves@.len() ==> (#[trigger] moves@[i]).origin_square
                    != moves@[i].destination_square,
    {
        self.moves_of(*self.active_color())
    }
}

} // verus!
