//! Making a move: from a position and a move to the position after it.

use super::moves::spec_same_rank;
use super::placement::piece_on;
use super::{
    Action, Board, BoardError, CastlingAvailability, ChessMove, File, PiecePlacement, Position,
    Rank, Square,
};
use crate::piece::{Color, Kind, Piece};
use vstd::prelude::*;

verus! {

/// Whether a move of the piece `moving` by `action` sets the halfmove clock
/// back to zero: every pawn move and every capture does.
pub open spec fn spec_resets_clock(moving: Piece, action: Action) -> bool {
    moving.kind == Kind::Pawn || action.spec_is_capture()
}

/// The castling rights that are left once the piece `moving` has left
/// `origin`. A king takes both rights of its colour with it; a rook that
/// leaves the h-file corner of its colour takes the right to castle short,
/// one that leaves the a-file corner the right to castle long.
pub open spec fn spec_rights_after(
    rights: CastlingAvailability,
    moving: Piece,
    origin: Square,
) -> CastlingAvailability {
    if moving.kind == Kind::King {
        rights.without_both(moving.color)
    } else if moving.kind == Kind::Rook && origin == (Square {
        file: File(8),
        rank: moving.color.spec_first_rank(),
    }) {
        rights.without_kingside(moving.color)
    } else if moving.kind == Kind::Rook && origin == (Square {
        file: File(1),
        rank: moving.color.spec_first_rank(),
    }) {
        rights.without_queenside(moving.color)
    } else {
        rights
    }
}

/// Whether the piece `moving` makes, by `chess_move`, the double step of a
/// pawn: a plain move of a pawn along its file over two ranks.
pub open spec fn spec_is_double_step(moving: Piece, chess_move: ChessMove) -> bool {
    &&& moving.kind == Kind::Pawn
    &&& chess_move.action == Action::Move
    &&& chess_move.origin_square.file == chess_move.destination_square.file
    &&& (chess_move.destination_square.rank.0 == chess_move.origin_square.rank.0 + 2
        || chess_move.destination_square.rank.0 + 2 == chess_move.origin_square.rank.0)
}

/// The square that a pawn may be taken on in passing after `chess_move`:
/// the square passed over if the move was the double step of a pawn,
/// otherwise none.
pub open spec fn spec_passed_square(moving: Piece, chess_move: ChessMove) -> Option<Square> {
    if spec_is_double_step(moving, chess_move) {
        Some(
            Square {
                file: chess_move.origin_square.file,
                rank: Rank(
                    ((chess_move.origin_square.rank.0 + chess_move.destination_square.rank.0)
                        / 2) as u8,
                ),
            },
        )
    } else {
        None
    }
}

/// What castling does to the pieces, once the king `moving` has been lifted
/// off its square: the king is put on the move's destination; then the
/// piece on `rook_file` of the king's rank, which must be a rook, goes to
/// `rook_target` of that rank.
pub open spec fn spec_castle(
    lifted: Map<Square, Piece>,
    moving: Piece,
    chess_move: ChessMove,
    rook_file: u8,
    rook_target: u8,
) -> Result<Map<Square, Piece>, BoardError> {
    if moving.kind != Kind::King {
        Err(BoardError::InvalidCastlingKing(moving.kind))
    } else {
        let with_king = lifted.insert(chess_move.destination_square, moving);
        let rook_home = spec_same_rank(chess_move.origin_square, rook_file);
        match piece_on(with_king, rook_home) {
            None => Err(BoardError::PieceMissing(rook_home)),
            Some(rook) => if rook.kind != Kind::Rook {
                Err(BoardError::InvalidCastlingRook(rook.kind))
            } else {
                Ok(
                    with_king.remove(rook_home).insert(
                        spec_same_rank(chess_move.origin_square, rook_target),
                        rook,
                    ),
                )
            },
        }
    }
}

/// Where the pieces stand after `chess_move`, given that the piece
/// `moving` stood on its origin.
///
/// The piece leaves its origin. A plain move or capture puts it on the
/// destination, in place of whatever stood there. A promotion puts a piece
/// of the new kind there and asks that `moving` be a pawn. A capture in
/// passing asks the same, puts the pawn on the destination and clears the
/// square on the destination's file and the origin's rank. Castling asks
/// that `moving` be a king and moves the rook as `spec_castle` says.
pub open spec fn spec_placement_after(
    placement: Map<Square, Piece>,
    moving: Piece,
    chess_move: ChessMove,
) -> Result<Map<Square, Piece>, BoardError> {
    let lifted = placement.remove(chess_move.origin_square);
    let destination = chess_move.destination_square;
    match chess_move.action {
        Action::Move => Ok(lifted.insert(destination, moving)),
        Action::Capture => Ok(lifted.insert(destination, moving)),
        Action::MovePromotion(kind) => if moving.kind != Kind::Pawn {
            Err(BoardError::InvalidPromotionPawn(moving.kind))
        } else {
            Ok(lifted.insert(destination, Piece { color: moving.color, kind }))
        },
        Action::CapturePromotion(kind) => if moving.kind != Kind::Pawn {
            Err(BoardError::InvalidPromotionPawn(moving.kind))
        } else {
            Ok(lifted.insert(destination, Piece { color: moving.color, kind }))
        },
        Action::EnPassant => if moving.kind != Kind::Pawn {
            Err(BoardError::InvalidEnPassantPawn(moving.kind))
        } else {
            Ok(
                lifted.insert(destination, moving).remove(
                    Square { file: destination.file, rank: chess_move.origin_square.rank },
                ),
            )
        },
        Action::ShortCastle => spec_castle(lifted, moving, chess_move, 8, 6),
        Action::LongCastle => spec_castle(lifted, moving, chess_move, 1, 4),
    }
}

impl Position {
    /// The position after `chess_move`, or why the move cannot be made.
    ///
    /// The piece that moves is the one that stands on the move's origin;
    /// without one the move fails with `PieceMissing`. The pieces are set
    /// as `spec_placement_after` says. The turn passes to the other side,
    /// and the move number grows when it passes from black to white. The
    /// halfmove clock is zero after a pawn move or a capture and one more
    /// than before otherwise. A king or rook that leaves its home square
    /// takes castling rights with it, and only the double step of a pawn
    /// leaves an en-passant target.
    pub open spec fn make_move(self, chess_move: ChessMove) -> Result<Position, BoardError> {
        match piece_on(self.placement, chess_move.origin_square) {
            None => Err(BoardError::PieceMissing(chess_move.origin_square)),
            Some(moving) => match spec_placement_after(self.placement, moving, chess_move) {
                Err(error) => Err(error),
                Ok(placement) => Ok(
                    Position {
                        placement,
                        active_color: self.active_color.spec_opposite(),
                        castling_availability: spec_rights_after(
                            self.castling_availability,
                            moving,
                            chess_move.origin_square,
                        ),
                        en_passant_target: spec_passed_square(moving, chess_move),
                        halfmove_clock: if spec_resets_clock(moving, chess_move.action) {
                            0
                        } else {
                            self.halfmove_clock + 1
                        },
                        fullmove_number: if self.active_color == Color::Black {
                            self.fullmove_number + 1
                        } else {
                            self.fullmove_number
                        },
                    },
                ),
            },
        }
    }

    /// Whether the position after `chess_move`, if the move can be made,
    /// has counters that fit in sixteen bits.
    pub open spec fn counters_fit_after(self, chess_move: ChessMove) -> bool {
        match self.make_move(chess_move) {
            Ok(after) => after.halfmove_clock <= u16::MAX && after.fullmove_number <= u16::MAX,
            Err(_) => true,
        }
    }
}

impl Board {
    /// Moves the rook when castling: the king, already lifted off its
    /// square, is put on the move's destination, and the rook goes from
    /// `rook_file` to `rook_target` on the king's rank.
    fn castle(
        placement: &mut PiecePlacement,
        moving: Piece,
        chess_move: &ChessMove,
        rook_file: u8,
        rook_target: u8,
    ) -> (result: Result<(), BoardError>)
        requires
            chess_move.destination_square.on_board(),
            chess_move.origin_square.on_board(),
            1 <= rook_target <= 8,
        ensures
            match spec_castle(old(placement)@, moving, *chess_move, rook_file, rook_target) {
                Ok(after) => result is Ok && final(placement)@ == after,
                Err(error) => result == Err::<(), BoardError>(error),
            },
    {
        if moving.kind != Kind::King {
            return Err(BoardError::InvalidCastlingKing(moving.kind));
        }
        placement.insert(chess_move.destination_square, moving);
        let rook_home = Square::new(File(rook_file), chess_move.origin_square.rank);
        match placement.remove(&rook_home) {
            None => Err(BoardError::PieceMissing(rook_home)),
            Some(rook) => {
                if rook.kind != Kind::Rook {
                    Err(BoardError::InvalidCastlingRook(rook.kind))
                } else {
                    placement.insert(
                        Square::new(File(rook_target), chess_move.origin_square.rank),
                        rook,
                    );
                    Ok(())
                }
            },
        }
    }

    /// Makes `chess_move` on this board, or says why it cannot be made and
    /// leaves the board as it was.
    ///
    /// The piece that moves is the one on the move's origin square. It is
    /// an error if there is none, if a promotion or a capture in passing is
    /// asked of a piece that is no pawn, if castling is asked of a piece
    /// that is no king, or if no rook stands in the corner to castle with.
    /// Otherwise the pieces are set, the turn passes to the other side, the
    /// counters move on, castling rights are given up and the en-passant
    /// target is set or cleared, as `Position::make_move` says.
    ///
    /// The destination must be a square of the board, and the counters
    /// after the move must fit in sixteen bits.
    pub fn make_move(&mut self, chess_move: ChessMove) -> (result: Result<(), BoardError>)
        requires
            chess_move.destination_square.on_board(),
            old(self)@.counters_fit_after(chess_move),
        ensures
            match old(self)@.make_move(chess_move) {
                Ok(after) => result is Ok && final(self)@ == after,
                Err(error) => result == Err::<(), BoardError>(error) && final(self)@ == old(
                    self,
                )@,
            },
            result is Ok ==> final(self)@.active_color == old(self)@.active_color.spec_opposite(),
            result is Ok ==> final(self)@.castling_availability.within(
                old(self)@.castling_availability,
            ),
    {
        let origin = chess_move.origin_square;
        let destination = chess_move.destination_square;
        let mut placement: PiecePlacement = *self.piece_placement();
        let moving = match placement.remove(&origin) {
            None => {
                return Err(BoardError::PieceMissing(origin));
            },
            Some(moving) => moving,
        };
        proof {
            self.lemma_view();
            assert(origin.on_board());
        }
        match chess_move.action {
            Action::Move | Action::Capture => {
                placement.insert(destination, moving);
            },
            Action::MovePromotion(kind) | Action::CapturePromotion(kind) => {
                if moving.kind != Kind::Pawn {
                    return Err(BoardError::InvalidPromotionPawn(moving.kind));
                }
                let mut promoted = moving;
                promoted.promote(kind);
                placement.insert(destination, promoted);
            },
            Action::EnPassant => {
                if moving.kind != Kind::Pawn {
                    return Err(BoardError::InvalidEnPassantPawn(moving.kind));
                }
                placement.insert(destination, moving);
                placement.remove(&Square::new(destination.file, origin.rank));
            },
            Action::ShortCastle => {
                match Board::castle(&mut placement, moving, &chess_move, 8, 6) {
                    Err(error) => {
                        return Err(error);
                    },
                    Ok(()) => {},
                }
            },
            Action::LongCastle => {
                match Board::castle(&mut placement, moving, &chess_move, 1, 4) {
                    Err(error) => {
                        return Err(error);
                    },
                    Ok(()) => {},
                }
            },
        }
        let mut rights: CastlingAvailability = *self.castling_availability();
        if moving.kind == Kind::King {
            rights.disable_both(&moving.color);
        } else if moving.kind == Kind::Rook && origin.rank.0 == moving.color.first_rank().0 {
            if origin.file.0 == 8 {
                rights.disable_kingside(&moving.color);
            } else if origin.file.0 == 1 {
                rights.disable_queenside(&moving.color);
            }
        }
        let double_step = moving.kind == Kind::Pawn && chess_move.action == Action::Move
            && origin.file.0 == destination.file.0 && (destination.rank.0 == origin.rank.0 + 2
            || destination.rank.0 + 2 == origin.rank.0);
        let en_passant_target = if double_step {
            Some(Square::new(origin.file, Rank((origin.rank.0 + destination.rank.0) / 2)))
        } else {
            None
        };
        let halfmove_clock: u16 = if moving.kind == Kind::Pawn || chess_move.action.is_capture() {
            0
        } else {
            self.halfmove_clock() + 1
        };
        let active_color = *self.active_color();
        let fullmove_number: u16 = match active_color {
            Color::Black => self.fullmove_number() + 1,
            Color::White => self.fullmove_number(),
        };
        *self = Board::new(
            placement,
            active_color.opposite(),
            rights,
            en_passant_target,
            halfmove_clock,
            fullmove_number,
        );
        Ok(())
    }
}

} // verus!
