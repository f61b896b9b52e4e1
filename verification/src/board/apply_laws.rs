//! What holds of every move that is made.

use super::move_laws::lemma_moves_leave_their_square;
use super::moves::{spec_king_home, spec_same_rank};
use super::placement::piece_on;
use super::{Action, BoardError, ChessMove, Position, Square};
use crate::piece::{Color, Kind, Piece};
use vstd::prelude::*;

verus! {

/// A move that is neither a pawn move nor a capture adds one to the
/// halfmove clock; a pawn move or a capture sets it to zero. The piece that
/// counts is the one that stands on the move's origin.
pub proof fn lemma_halfmove_clock(position: Position, chess_move: ChessMove)
    requires
        position.make_move(chess_move) is Ok,
    ensures
        position.piece_at(chess_move.origin_square) matches Some(moving) && {
            let after = position.make_move(chess_move)->Ok_0;
            &&& (moving.kind == Kind::Pawn || chess_move.action.spec_is_capture())
                ==> after.halfmove_clock == 0
            &&& !(moving.kind == Kind::Pawn || chess_move.action.spec_is_capture())
                ==> after.halfmove_clock == position.halfmove_clock + 1
        },
{
}

/// Every move passes the turn to the other side, and the fullmove number
/// grows by one exactly when black has moved.
pub proof fn lemma_turns_alternate(position: Position, chess_move: ChessMove)
    requires
        position.make_move(chess_move) is Ok,
    ensures
        ({
            let after = position.make_move(chess_move)->Ok_0;
            &&& after.active_color == position.active_color.spec_opposite()
            &&& after.active_color != position.active_color
            &&& position.active_color == Color::Black ==> after.fullmove_number
                == position.fullmove_number + 1
            &&& position.active_color == Color::White ==> after.fullmove_number
                == position.fullmove_number
        }),
{
}

/// No move brings a castling right back: every right held after a move was
/// held before it.
pub proof fn lemma_castling_rights_never_return(position: Position, chess_move: ChessMove)
    requires
        position.make_move(chess_move) is Ok,
    ensures
        position.make_move(chess_move)->Ok_0.castling_availability.within(
            position.castling_availability,
        ),
{
}

/// Once a colour has lost both castling rights, no sequence of moves gives
/// it one back.
pub proof fn lemma_castling_rights_stay_lost(position: Position, moves: Seq<ChessMove>, color: Color)
    requires
        !position.castling_availability.spec_short(&color),
        !position.castling_availability.spec_long(&color),
    ensures
        spec_after_all(position, moves) matches Ok(after) ==> {
            &&& !after.castling_availability.spec_short(&color)
            &&& !after.castling_availability.spec_long(&color)
        },
    decreases moves.len(),
{
    if moves.len() > 0 {
        lemma_castling_rights_stay_lost(position, moves.drop_last(), color);
    }
}

/// The position after making each of `moves` in turn, or the first error.
pub open spec fn spec_after_all(position: Position, moves: Seq<ChessMove>) -> Result<
    Position,
    BoardError,
>
    decreases moves.len(),
{
    if moves.len() == 0 {
        Ok(position)
    } else {
        match spec_after_all(position, moves.drop_last()) {
            Err(error) => Err(error),
            Ok(before) => before.make_move(moves.last()),
        }
    }
}

/// The en-passant target is set only by the double step of a pawn, to the
/// square the pawn passed over, and every other move clears it.
pub proof fn lemma_en_passant_target(position: Position, chess_move: ChessMove)
    requires
        position.make_move(chess_move) is Ok,
        chess_move.origin_square.on_board(),
        chess_move.destination_square.on_board(),
    ensures
        position.make_move(chess_move)->Ok_0.en_passant_target matches Some(passed) ==> {
            &&& position.piece_at(chess_move.origin_square) matches Some(moving) && moving.kind
                == Kind::Pawn
            &&& chess_move.action == Action::Move
            &&& passed.file == chess_move.origin_square.file
            &&& passed.on_board()
            &&& (passed.rank.0 == chess_move.origin_square.rank.0 + 1 && passed.rank.0 + 1
                == chess_move.destination_square.rank.0 || passed.rank.0 + 1
                == chess_move.origin_square.rank.0 && passed.rank.0
                == chess_move.destination_square.rank.0 + 1)
        },
{
}

/// Every move that a position lists for a colour can be made, but for
/// castling when no rook stands in the corner: a castling move can be made
/// exactly when a rook stands on the rook's home square.
pub proof fn lemma_listed_moves_can_be_made(position: Position, color: Color, i: int)
    requires
        0 <= i < position.moves_of(color).len(),
    ensures
        ({
            let chess_move = position.moves_of(color)[i];
            let corner = spec_same_rank(
                chess_move.origin_square,
                if chess_move.action == Action::ShortCastle {
                    8
                } else {
                    1
                },
            );
            if chess_move.action.spec_is_castle() {
                position.make_move(chess_move) is Ok <==> (piece_on(position.placement, corner)
                    matches Some(rook) && rook.kind == Kind::Rook)
            } else {
                position.make_move(chess_move) is Ok
            }
        }),
{
    lemma_moves_leave_their_square(position, color);
    let chess_move = position.moves_of(color)[i];
    assert(chess_move.well_formed());
    if chess_move.action == Action::ShortCastle {
        let corner = spec_same_rank(chess_move.origin_square, 8);
        assert(corner != chess_move.destination_square);
        assert(corner != chess_move.origin_square);
    } else if chess_move.action == Action::LongCastle {
        let corner = spec_same_rank(chess_move.origin_square, 1);
        assert(corner != chess_move.destination_square);
        assert(corner != chess_move.origin_square);
    }
}

/// Castling short moves king and rook at once and costs both rights.
///
/// For a short castling move that a position lists for a colour and that
/// can be made: the king goes from the e-file to the g-file of its first
/// rank, two files towards the rook; the rook goes from the h-file to the
/// f-file, next to the king; no other square changes; and the colour has
/// neither castling right afterwards.
pub proof fn lemma_short_castle(position: Position, color: Color, i: int)
    requires
        0 <= i < position.moves_of(color).len(),
        position.moves_of(color)[i].action == Action::ShortCastle,
        position.make_move(position.moves_of(color)[i]) is Ok,
    ensures
        ({
            let chess_move = position.moves_of(color)[i];
            let after = position.make_move(chess_move)->Ok_0;
            let home = spec_king_home(color);
            let king = Piece { color, kind: Kind::King };
            &&& chess_move.piece == king
            &&& chess_move.origin_square == home
            &&& chess_move.destination_square == spec_same_rank(home, 7)
            &&& piece_on(position.placement, spec_same_rank(home, 8)) matches Some(rook)
            &&& rook.kind == Kind::Rook
            &&& after.placement == position.placement.remove(home).remove(
                spec_same_rank(home, 8),
            ).insert(spec_same_rank(home, 7), king).insert(spec_same_rank(home, 6), rook)
            &&& piece_on(after.placement, home) is None
            &&& piece_on(after.placement, spec_same_rank(home, 8)) is None
            &&& piece_on(after.placement, spec_same_rank(home, 7)) == Some(king)
            &&& piece_on(after.placement, spec_same_rank(home, 6)) == Some(rook)
            &&& !after.castling_availability.spec_short(&color)
            &&& !after.castling_availability.spec_long(&color)
        }),
{
    lemma_moves_leave_their_square(position, color);
    let chess_move = position.moves_of(color)[i];
    let after = position.make_move(chess_move)->Ok_0;
    let home = spec_king_home(color);
    let king = Piece { color, kind: Kind::King };
    assert(chess_move.well_formed());
    assert(chess_move.piece == king);
    let rook = piece_on(position.placement, spec_same_rank(home, 8))->0;
    assert(after.placement =~= position.placement.remove(home).remove(
        spec_same_rank(home, 8),
    ).insert(spec_same_rank(home, 7), king).insert(spec_same_rank(home, 6), rook));
}

/// Castling long moves king and rook at once and costs both rights: the
/// king goes from the e-file to the c-file, the rook from the a-file to the
/// d-file.
pub proof fn lemma_long_castle(position: Position, color: Color, i: int)
    requires
        0 <= i < position.moves_of(color).len(),
        position.moves_of(color)[i].action == Action::LongCastle,
        position.make_move(position.moves_of(color)[i]) is Ok,
    ensures
        ({
            let chess_move = position.moves_of(color)[i];
            let after = position.make_move(chess_move)->Ok_0;
            let home = spec_king_home(color);
            let king = Piece { color, kind: Kind::King };
            &&& chess_move.piece == king
            &&& chess_move.origin_square == home
            &&& chess_move.destination_square == spec_same_rank(home, 3)
            &&& piece_on(position.placement, spec_same_rank(home, 1)) matches Some(rook)
            &&& rook.kind == Kind::Rook
            &&& after.placement == position.placement.remove(home).remove(
                spec_same_rank(home, 1),
            ).insert(spec_same_rank(home, 3), king).insert(spec_same_rank(home, 4), rook)
            &&& !after.castling_availability.spec_short(&color)
            &&& !after.castling_availability.spec_long(&color)
        }),
{
    lemma_moves_leave_their_square(position, color);
    let chess_move = position.moves_of(color)[i];
    let after = position.make_move(chess_move)->Ok_0;
    let home = spec_king_home(color);
    let king = Piece { color, kind: Kind::King };
    assert(chess_move.well_formed());
    assert(chess_move.piece == king);
    let rook = piece_on(position.placement, spec_same_rank(home, 1))->0;
    assert(after.placement =~= position.placement.remove(home).remove(
        spec_same_rank(home, 1),
    ).insert(spec_same_rank(home, 3), king).insert(spec_same_rank(home, 4), rook));
}

/// A move leaves every square alone but its origin, its destination, and,
/// for castling and for a capture in passing, the squares of the rook and
/// of the pawn that is taken.
pub proof fn lemma_other_squares_keep_their_pieces(
    position: Position,
    chess_move: ChessMove,
    square: Square,
)
    requires
        position.make_move(chess_move) is Ok,
        square != chess_move.origin_square,
        square != chess_move.destination_square,
        chess_move.action.spec_is_castle() ==> square.rank != chess_move.origin_square.rank,
        chess_move.action == Action::EnPassant ==> square.rank != chess_move.origin_square.rank,
    ensures
        piece_on(position.make_move(chess_move)->Ok_0.placement, square) == piece_on(
            position.placement,
            square,
        ),
{
}

/// A move that cannot be made is refused for one of five reasons, each with
/// its own error.
pub proof fn lemma_errors(position: Position, chess_move: ChessMove)
    ensures
        position.piece_at(chess_move.origin_square) is None ==> position.make_move(chess_move)
            == Err::<Position, BoardError>(
            BoardError::PieceMissing(chess_move.origin_square),
        ),
        position.piece_at(chess_move.origin_square) matches Some(moving) ==> {
            &&& (chess_move.action is MovePromotion || chess_move.action is CapturePromotion)
                && moving.kind != Kind::Pawn ==> position.make_move(chess_move) == Err::<
                Position,
                BoardError,
            >(BoardError::InvalidPromotionPawn(moving.kind))
            &&& chess_move.action == Action::EnPassant && moving.kind != Kind::Pawn
                ==> position.make_move(chess_move) == Err::<Position, BoardError>(
                BoardError::InvalidEnPassantPawn(moving.kind),
            )
            &&& chess_move.action.spec_is_castle() && moving.kind != Kind::King
                ==> position.make_move(chess_move) == Err::<Position, BoardError>(
                BoardError::InvalidCastlingKing(moving.kind),
            )
            &&& (chess_move.action == Action::Move || chess_move.action == Action::Capture)
                ==> position.make_move(chess_move) is Ok
        },
{
}

} // verus!
