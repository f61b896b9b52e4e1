//! What holds of every move that a position lists.

use super::line::{lemma_line, spec_line};
use super::moves::{
    spec_castling_moves, spec_jumper_moves, spec_king_home, spec_move_to, spec_moves_to,
    spec_moves_upto, spec_pawn_advances, spec_pawn_arrival, spec_pawn_capture_moves,
    spec_piece_moves, spec_promotions, spec_same_rank,
};
use super::placement::piece_on;
use super::square::lemma_square_at;
use super::square_iterator::lemma_walk_is_prefix;
use super::targets::{
    spec_jump_squares, spec_keep_free, spec_lines, spec_pawn_capture_target,
    spec_pawn_push_targets, spec_target_squares, spec_walk_lines,
};
use super::{
    Action, CastlingAvailability, ChessMove, Direction, MoveStatus, Offset, Position, Square,
};
use crate::piece::{Color, Kind, Piece};
use vstd::prelude::*;

verus! {

/// Whether every square of `targets` lies on the board and is another
/// square than `origin`.
pub open spec fn targets_away(targets: Seq<Square>, origin: Square) -> bool {
    forall|i: int|
        0 <= i < targets.len() ==> (#[trigger] targets[i]).on_board() && targets[i] != origin
}

/// Whether every move of `moves` is a move of `piece` from `origin` to
/// another square of the board, promoting only to kinds a pawn may become,
/// with nothing claimed about check.
pub open spec fn moves_from(moves: Seq<ChessMove>, piece: Piece, origin: Square) -> bool {
    forall|i: int|
        0 <= i < moves.len() ==> {
            &&& (#[trigger] moves[i]).piece == piece
            &&& moves[i].origin_square == origin
            &&& moves[i].status == MoveStatus::Nothing
            &&& moves[i].well_formed()
        }
}

/// Whether the action of `chess_move` is one that its piece can take in
/// `placement` with the rights `castling`: only a pawn promotes or takes in
/// passing, and only a king castles, from its home square, two files
/// towards the rook, with the right to do so and with the squares between
/// it and the rook's corner empty.
pub open spec fn action_fits(
    chess_move: ChessMove,
    placement: Map<Square, Piece>,
    castling: CastlingAvailability,
) -> bool {
    let piece = chess_move.piece;
    let origin = chess_move.origin_square;
    match chess_move.action {
        Action::Move => true,
        Action::Capture => true,
        Action::EnPassant => piece.kind == Kind::Pawn,
        Action::MovePromotion(_) => piece.kind == Kind::Pawn,
        Action::CapturePromotion(_) => piece.kind == Kind::Pawn,
        Action::ShortCastle => {
            &&& piece.kind == Kind::King
            &&& origin == spec_king_home(piece.color)
            &&& chess_move.destination_square == spec_same_rank(origin, 7)
            &&& castling.spec_short(&piece.color)
            &&& piece_on(placement, spec_same_rank(origin, 6)) is None
            &&& piece_on(placement, spec_same_rank(origin, 7)) is None
        },
        Action::LongCastle => {
            &&& piece.kind == Kind::King
            &&& origin == spec_king_home(piece.color)
            &&& chess_move.destination_square == spec_same_rank(origin, 3)
            &&& castling.spec_long(&piece.color)
            &&& piece_on(placement, spec_same_rank(origin, 4)) is None
            &&& piece_on(placement, spec_same_rank(origin, 3)) is None
            &&& piece_on(placement, spec_same_rank(origin, 2)) is None
        },
    }
}

/// Whether every move of `moves` is a move of a piece of `color` that
/// stands, in `placement`, on the move's origin, to another square of the
/// board, by an action that fits the piece.
pub open spec fn moves_of_color(
    moves: Seq<ChessMove>,
    placement: Map<Square, Piece>,
    castling: CastlingAvailability,
    color: Color,
) -> bool {
    forall|i: int|
        0 <= i < moves.len() ==> {
            &&& (#[trigger] moves[i]).well_formed()
            &&& moves[i].piece.color == color
            &&& moves[i].status == MoveStatus::Nothing
            &&& piece_on(placement, moves[i].origin_square) == Some(moves[i].piece)
            &&& action_fits(moves[i], placement, castling)
        }
}

/// The squares reached by walking lines from `origin` lie on the board and
/// away from `origin`.
pub proof fn lemma_walk_lines_away(
    placement: Map<Square, Piece>,
    color: Color,
    origin: Square,
    directions: Seq<Direction>,
)
    ensures
        targets_away(spec_walk_lines(placement, color, spec_lines(origin, directions)), origin),
    decreases directions.len(),
{
    if directions.len() > 0 {
        let lines = spec_lines(origin, directions);
        assert(lines.drop_last() =~= spec_lines(origin, directions.drop_last()));
        lemma_walk_lines_away(placement, color, origin, directions.drop_last());
        let line = spec_line(origin, directions.last());
        assert(lines.last() == line);
        lemma_line(origin, directions.last());
        lemma_walk_is_prefix(placement, color, line);
    }
}

/// The squares that lie a jump away from a square of the board, by jumps
/// that are not zero, lie on the board and away from that square.
pub proof fn lemma_jump_squares_away(origin: Square, offsets: Seq<Offset>)
    requires
        origin.on_board(),
        forall|j: int|
            0 <= j < offsets.len() ==> (#[trigger] offsets[j]).file != 0 || offsets[j].rank != 0,
    ensures
        targets_away(spec_jump_squares(origin, offsets), origin),
    decreases offsets.len(),
{
    if offsets.len() > 0 {
        lemma_jump_squares_away(origin, offsets.drop_last());
        assert(offsets.last() == offsets[offsets.len() - 1]);
    }
}

/// Keeping the free squares of a group keeps only squares of the group.
pub proof fn lemma_keep_free_away(
    placement: Map<Square, Piece>,
    color: Color,
    group: Seq<Square>,
    origin: Square,
)
    requires
        targets_away(group, origin),
    ensures
        targets_away(spec_keep_free(placement, color, group), origin),
    decreases group.len(),
{
    if group.len() > 0 {
        assert(targets_away(group.drop_last(), origin)) by {
            assert forall|i: int| 0 <= i < group.drop_last().len() implies (
            #[trigger] group.drop_last()[i]).on_board() && group.drop_last()[i] != origin by {
                assert(group.drop_last()[i] == group[i]);
            }
        }
        lemma_keep_free_away(placement, color, group.drop_last(), origin);
        assert(group.last() == group[group.len() - 1]);
    }
}

/// Moves from a square of the board to squares away from it are
/// well-formed.
pub proof fn lemma_moves_to_from(
    placement: Map<Square, Piece>,
    piece: Piece,
    origin: Square,
    targets: Seq<Square>,
)
    requires
        origin.on_board(),
        targets_away(targets, origin),
    ensures
        moves_from(spec_moves_to(placement, piece, origin, targets), piece, origin),
{
    let moves = spec_moves_to(placement, piece, origin, targets);
    assert forall|i: int| 0 <= i < moves.len() implies {
        &&& (#[trigger] moves[i]).piece == piece
        &&& moves[i].origin_square == origin
        &&& moves[i].status == MoveStatus::Nothing
        &&& moves[i].well_formed()
    } by {
        assert(moves[i] == spec_move_to(placement, piece, origin, targets[i]));
        assert(targets[i].on_board());
    }
}

/// One list of moves after another is a list of moves of the same piece
/// from the same square if both are.
pub proof fn lemma_moves_from_add(
    first: Seq<ChessMove>,
    second: Seq<ChessMove>,
    piece: Piece,
    origin: Square,
)
    requires
        moves_from(first, piece, origin),
        moves_from(second, piece, origin),
    ensures
        moves_from(first + second, piece, origin),
{
    let all = first + second;
    assert forall|i: int| 0 <= i < all.len() implies {
        &&& (#[trigger] all[i]).piece == piece
        &&& all[i].origin_square == origin
        &&& all[i].status == MoveStatus::Nothing
        &&& all[i].well_formed()
    } by {
        if i < first.len() {
            assert(all[i] == first[i]);
        } else {
            assert(all[i] == second[i - first.len()]);
        }
    }
}

/// The arrival of a pawn on a square away from its own is well-formed,
/// promotions included.
pub proof fn lemma_pawn_arrival_from(piece: Piece, origin: Square, target: Square, capture: bool)
    requires
        origin.on_board(),
        target.on_board(),
        target != origin,
    ensures
        moves_from(spec_pawn_arrival(piece, origin, target, capture), piece, origin),
{
    let moves = spec_pawn_arrival(piece, origin, target, capture);
    let kinds = Kind::spec_promotable_kinds();
    assert(kinds[0].spec_is_promotable() && kinds[1].spec_is_promotable()
        && kinds[2].spec_is_promotable() && kinds[3].spec_is_promotable());
    assert forall|i: int| 0 <= i < moves.len() implies {
        &&& (#[trigger] moves[i]).piece == piece
        &&& moves[i].origin_square == origin
        &&& moves[i].status == MoveStatus::Nothing
        &&& moves[i].well_formed()
    } by {
        if target.rank == piece.color.spec_promotion_rank() {
            assert(moves[i] == spec_promotions(piece, origin, target, capture)[i]);
        }
    }
}

/// The advances of a pawn to squares away from its own are well-formed.
pub proof fn lemma_pawn_advances_from(piece: Piece, origin: Square, targets: Seq<Square>)
    requires
        origin.on_board(),
        targets_away(targets, origin),
    ensures
        moves_from(spec_pawn_advances(piece, origin, targets), piece, origin),
    decreases targets.len(),
{
    if targets.len() > 0 {
        assert(targets_away(targets.drop_last(), origin)) by {
            assert forall|i: int| 0 <= i < targets.drop_last().len() implies (
            #[trigger] targets.drop_last()[i]).on_board() && targets.drop_last()[i]
                != origin by {
                assert(targets.drop_last()[i] == targets[i]);
            }
        }
        lemma_pawn_advances_from(piece, origin, targets.drop_last());
        assert(targets.last() == targets[targets.len() - 1]);
        lemma_pawn_arrival_from(piece, origin, targets.last(), false);
        lemma_moves_from_add(
            spec_pawn_advances(piece, origin, targets.drop_last()),
            spec_pawn_arrival(piece, origin, targets.last(), false),
            piece,
            origin,
        );
    }
}

/// Every move that a piece on a square of the board can make is a move of
/// that piece from that square to another square of the board; a promotion
/// is to bishop, knight, rook or queen.
pub proof fn lemma_piece_moves_from(
    placement: Map<Square, Piece>,
    castling: CastlingAvailability,
    en_passant_target: Option<Square>,
    piece: Piece,
    origin: Square,
)
    requires
        origin.on_board(),
    ensures
        moves_from(
            spec_piece_moves(placement, castling, en_passant_target, piece, origin),
            piece,
            origin,
        ),
{
    match piece.kind {
        Kind::Bishop => {
            lemma_walk_lines_away(placement, piece.color, origin, Direction::spec_diagonal());
            lemma_moves_to_from(
                placement,
                piece,
                origin,
                spec_walk_lines(
                    placement,
                    piece.color,
                    spec_lines(origin, Direction::spec_diagonal()),
                ),
            );
        },
        Kind::Rook => {
            lemma_walk_lines_away(placement, piece.color, origin, Direction::spec_straight());
            lemma_moves_to_from(
                placement,
                piece,
                origin,
                spec_walk_lines(
                    placement,
                    piece.color,
                    spec_lines(origin, Direction::spec_straight()),
                ),
            );
        },
        Kind::Queen => {
            lemma_walk_lines_away(placement, piece.color, origin, Direction::spec_all());
            lemma_moves_to_from(
                placement,
                piece,
                origin,
                spec_walk_lines(placement, piece.color, spec_lines(origin, Direction::spec_all())),
            );
        },
        Kind::Knight => {
            let group = spec_jump_squares(origin, Offset::spec_knight_jumps());
            lemma_jump_squares_away(origin, Offset::spec_knight_jumps());
            lemma_keep_free_away(placement, piece.color, group, origin);
            lemma_moves_to_from(
                placement,
                piece,
                origin,
                spec_keep_free(placement, piece.color, group),
            );
        },
        Kind::King => {
            let group = spec_jump_squares(origin, Offset::spec_king_steps());
            lemma_jump_squares_away(origin, Offset::spec_king_steps());
            lemma_keep_free_away(placement, piece.color, group, origin);
            lemma_moves_to_from(
                placement,
                piece,
                origin,
                spec_keep_free(placement, piece.color, group),
            );
            let castles = spec_castling_moves(placement, castling, piece, origin);
            assert(moves_from(castles, piece, origin));
            lemma_moves_from_add(
                spec_jumper_moves(placement, piece, origin, Offset::spec_king_steps()),
                castles,
                piece,
                origin,
            );
        },
        Kind::Pawn => {
            let pushes = spec_pawn_push_targets(placement, piece.color, origin);
            assert(targets_away(pushes, origin));
            lemma_pawn_advances_from(piece, origin, pushes);
            let advances = spec_pawn_advances(piece, origin, pushes);
            let left = spec_pawn_capture_moves(placement, en_passant_target, piece, origin, -1i8);
            let right = spec_pawn_capture_moves(placement, en_passant_target, piece, origin, 1i8);
            lemma_pawn_captures_from(placement, en_passant_target, piece, origin, -1i8);
            lemma_pawn_captures_from(placement, en_passant_target, piece, origin, 1i8);
            lemma_moves_from_add(advances, left, piece, origin);
            lemma_moves_from_add(advances + left, right, piece, origin);
        },
    }
}

/// The captures of a pawn towards one side are well-formed.
pub proof fn lemma_pawn_captures_from(
    placement: Map<Square, Piece>,
    en_passant_target: Option<Square>,
    piece: Piece,
    origin: Square,
    side: i8,
)
    requires
        origin.on_board(),
        side == 1 || side == -1,
    ensures
        moves_from(
            spec_pawn_capture_moves(placement, en_passant_target, piece, origin, side),
            piece,
            origin,
        ),
{
    let targets = spec_pawn_capture_target(placement, en_passant_target, piece.color, origin, side);
    if targets.len() > 0 {
        let target = targets[0];
        assert(target == origin.spec_translate(
            Offset { file: side, rank: piece.color.spec_pawn_step() },
        ));
        assert(target.on_board() && target != origin);
        lemma_pawn_arrival_from(piece, origin, target, true);
    }
}

/// The action of every move that a piece can make fits the piece: plain
/// moves and captures for all, promotions and captures in passing for pawns
/// only, castling for a king on its home square only.
pub proof fn lemma_piece_moves_fit(
    placement: Map<Square, Piece>,
    castling: CastlingAvailability,
    en_passant_target: Option<Square>,
    piece: Piece,
    origin: Square,
)
    ensures
        forall|i: int|
            0 <= i < spec_piece_moves(placement, castling, en_passant_target, piece, origin).len()
                ==> action_fits(
                #[trigger] spec_piece_moves(placement, castling, en_passant_target, piece, origin)[i],
                placement,
                castling,
            ),
{
    let moves = spec_piece_moves(placement, castling, en_passant_target, piece, origin);
    match piece.kind {
        Kind::King => {
            let steps = spec_jumper_moves(placement, piece, origin, Offset::spec_king_steps());
            let castles = spec_castling_moves(placement, castling, piece, origin);
            assert forall|i: int| 0 <= i < moves.len() implies action_fits(
                #[trigger] moves[i],
                placement,
                castling,
            ) by {
                if i < steps.len() {
                    assert(moves[i] == steps[i]);
                } else {
                    assert(moves[i] == castles[i - steps.len()]);
                }
            }
        },
        Kind::Pawn => {
            let pushes = spec_pawn_push_targets(placement, piece.color, origin);
            let advances = spec_pawn_advances(piece, origin, pushes);
            let left = spec_pawn_capture_moves(placement, en_passant_target, piece, origin, -1i8);
            let right = spec_pawn_capture_moves(placement, en_passant_target, piece, origin, 1i8);
            lemma_pawn_advances_are_pawn_moves(piece, origin, pushes);
            assert forall|i: int| 0 <= i < moves.len() implies action_fits(
                #[trigger] moves[i],
                placement,
                castling,
            ) by {
                if i < advances.len() {
                    assert(moves[i] == advances[i]);
                } else if i < advances.len() + left.len() {
                    assert(moves[i] == left[i - advances.len()]);
                } else {
                    assert(moves[i] == right[i - advances.len() - left.len()]);
                }
            }
        },
        _ => {},
    }
}

/// The advances of a pawn are plain moves and promotions of that pawn.
proof fn lemma_pawn_advances_are_pawn_moves(piece: Piece, origin: Square, targets: Seq<Square>)
    ensures
        forall|i: int|
            0 <= i < spec_pawn_advances(piece, origin, targets).len() ==> {
                &&& (#[trigger] spec_pawn_advances(piece, origin, targets)[i]).piece == piece
                &&& !spec_pawn_advances(piece, origin, targets)[i].action.spec_is_castle()
                &&& spec_pawn_advances(piece, origin, targets)[i].action != Action::EnPassant
            },
    decreases targets.len(),
{
    if targets.len() > 0 {
        lemma_pawn_advances_are_pawn_moves(piece, origin, targets.drop_last());
        let before = spec_pawn_advances(piece, origin, targets.drop_last());
        let arrival = spec_pawn_arrival(piece, origin, targets.last(), false);
        let all = spec_pawn_advances(piece, origin, targets);
        assert forall|i: int| 0 <= i < all.len() implies {
            &&& (#[trigger] all[i]).piece == piece
            &&& !all[i].action.spec_is_castle()
            &&& all[i].action != Action::EnPassant
        } by {
            if i < before.len() {
                assert(all[i] == before[i]);
            } else {
                assert(all[i] == arrival[i - before.len()]);
            }
        }
    }
}

/// Every move of the pieces of `color` on the first `count` squares is a
/// well-formed move of a piece of `color` that stands on the move's origin.
pub proof fn lemma_moves_upto(
    placement: Map<Square, Piece>,
    castling: CastlingAvailability,
    en_passant_target: Option<Square>,
    color: Color,
    count: nat,
)
    requires
        count <= 64,
    ensures
        moves_of_color(
            spec_moves_upto(placement, castling, en_passant_target, color, count),
            placement,
            castling,
            color,
        ),
    decreases count,
{
    if count > 0 {
        let before = spec_moves_upto(
            placement,
            castling,
            en_passant_target,
            color,
            (count - 1) as nat,
        );
        lemma_moves_upto(placement, castling, en_passant_target, color, (count - 1) as nat);
        let origin = Square::at(count - 1);
        lemma_square_at(count - 1);
        match piece_on(placement, origin) {
            Some(piece) => {
                if piece.color == color {
                    let found = spec_piece_moves(
                        placement,
                        castling,
                        en_passant_target,
                        piece,
                        origin,
                    );
                    lemma_piece_moves_from(placement, castling, en_passant_target, piece, origin);
                    lemma_piece_moves_fit(placement, castling, en_passant_target, piece, origin);
                    let all = before + found;
                    assert forall|i: int| 0 <= i < all.len() implies {
                        &&& (#[trigger] all[i]).well_formed()
                        &&& all[i].piece.color == color
                        &&& all[i].status == MoveStatus::Nothing
                        &&& piece_on(placement, all[i].origin_square) == Some(all[i].piece)
                        &&& action_fits(all[i], placement, castling)
                    } by {
                        if i < before.len() {
                            assert(all[i] == before[i]);
                        } else {
                            assert(all[i] == found[i - before.len()]);
                        }
                    }
                }
            },
            None => {},
        }
    }
}

/// No move that a position lists for a colour stays where it starts: its
/// origin and its destination are two different squares of the board. The
/// piece it names stands on its origin and is of that colour, and its
/// action fits that piece.
pub proof fn lemma_moves_leave_their_square(position: Position, color: Color)
    ensures
        moves_of_color(
            position.moves_of(color),
            position.placement,
            position.castling_availability,
            color,
        ),
        forall|i: int|
            0 <= i < position.moves_of(color).len() ==> (#[trigger] position.moves_of(
                color,
            )[i]).origin_square != position.moves_of(color)[i].destination_square,
{
    lemma_moves_upto(
        position.placement,
        position.castling_availability,
        position.en_passant_target,
        color,
        64,
    );
}

/// Whether one of `moves`, castling aside, goes to `square`.
pub open spec fn goes_to(moves: Seq<ChessMove>, square: Square) -> bool {
    exists|i: int|
        0 <= i < moves.len() && (#[trigger] moves[i]).destination_square == square
            && !moves[i].action.spec_is_castle()
}

/// One of two lists of moves goes to a square exactly when the two lists in
/// a row do.
proof fn lemma_goes_to_add(first: Seq<ChessMove>, second: Seq<ChessMove>, square: Square)
    ensures
        goes_to(first + second, square) <==> goes_to(first, square) || goes_to(second, square),
{
    let all = first + second;
    if goes_to(first, square) {
        let i = choose|i: int|
            0 <= i < first.len() && (#[trigger] first[i]).destination_square == square
                && !first[i].action.spec_is_castle();
        assert(all[i] == first[i]);
    }
    if goes_to(second, square) {
        let i = choose|i: int|
            0 <= i < second.len() && (#[trigger] second[i]).destination_square == square
                && !second[i].action.spec_is_castle();
        assert(all[first.len() + i] == second[i]);
    }
    if goes_to(all, square) {
        let i = choose|i: int|
            0 <= i < all.len() && (#[trigger] all[i]).destination_square == square
                && !all[i].action.spec_is_castle();
        if i < first.len() {
            assert(all[i] == first[i]);
        } else {
            assert(all[i] == second[i - first.len()]);
        }
    }
}

/// A square is among two lists of squares in a row exactly when it is in
/// one of them.
proof fn lemma_contains_add(first: Seq<Square>, second: Seq<Square>, square: Square)
    ensures
        (first + second).contains(square) <==> first.contains(square) || second.contains(square),
{
    let all = first + second;
    if first.contains(square) {
        let i = choose|i: int| 0 <= i < first.len() && first[i] == square;
        assert(all[i] == square);
    }
    if second.contains(square) {
        let i = choose|i: int| 0 <= i < second.len() && second[i] == square;
        assert(all[first.len() + i] == square);
    }
    if all.contains(square) {
        let i = choose|i: int| 0 <= i < all.len() && all[i] == square;
        if i < first.len() {
            assert(first[i] == square);
        } else {
            assert(second[i - first.len()] == square);
        }
    }
}

/// The plain moves and captures to a list of squares go to those squares.
proof fn lemma_moves_to_go_to(
    placement: Map<Square, Piece>,
    piece: Piece,
    origin: Square,
    targets: Seq<Square>,
    square: Square,
)
    ensures
        goes_to(spec_moves_to(placement, piece, origin, targets), square) <==> targets.contains(
            square,
        ),
{
    let moves = spec_moves_to(placement, piece, origin, targets);
    if targets.contains(square) {
        let i = choose|i: int| 0 <= i < targets.len() && targets[i] == square;
        assert(moves[i] == spec_move_to(placement, piece, origin, targets[i]));
    }
    if goes_to(moves, square) {
        let i = choose|i: int|
            0 <= i < moves.len() && (#[trigger] moves[i]).destination_square == square
                && !moves[i].action.spec_is_castle();
        assert(moves[i] == spec_move_to(placement, piece, origin, targets[i]));
        assert(targets[i] == square);
    }
}

/// The arrival of a pawn on a square goes to that square and nowhere else.
proof fn lemma_pawn_arrival_goes_to(
    piece: Piece,
    origin: Square,
    target: Square,
    capture: bool,
    square: Square,
)
    ensures
        goes_to(spec_pawn_arrival(piece, origin, target, capture), square) <==> square == target,
{
    let moves = spec_pawn_arrival(piece, origin, target, capture);
    assert(moves.len() > 0);
    if target.rank == piece.color.spec_promotion_rank() {
        assert(moves[0] == spec_promotions(piece, origin, target, capture)[0]);
    }
    assert(moves[0].destination_square == target && !moves[0].action.spec_is_castle());
    if goes_to(moves, square) {
        let i = choose|i: int|
            0 <= i < moves.len() && (#[trigger] moves[i]).destination_square == square
                && !moves[i].action.spec_is_castle();
        if target.rank == piece.color.spec_promotion_rank() {
            assert(moves[i] == spec_promotions(piece, origin, target, capture)[i]);
        }
    }
}

/// The advances of a pawn go to the squares it can advance to.
proof fn lemma_pawn_advances_go_to(
    piece: Piece,
    origin: Square,
    targets: Seq<Square>,
    square: Square,
)
    ensures
        goes_to(spec_pawn_advances(piece, origin, targets), square) <==> targets.contains(square),
    decreases targets.len(),
{
    if targets.len() > 0 {
        let before = targets.drop_last();
        lemma_pawn_advances_go_to(piece, origin, before, square);
        lemma_pawn_arrival_goes_to(piece, origin, targets.last(), false, square);
        lemma_goes_to_add(
            spec_pawn_advances(piece, origin, before),
            spec_pawn_arrival(piece, origin, targets.last(), false),
            square,
        );
        assert(targets =~= before + seq![targets.last()]);
        lemma_contains_add(before, seq![targets.last()], square);
        assert(seq![targets.last()].contains(square) <==> square == targets.last()) by {
            if square == targets.last() {
                assert(seq![targets.last()][0] == square);
            }
        }
    }
}

/// The captures of a pawn towards one side go to the square it can capture
/// on.
proof fn lemma_pawn_captures_go_to(
    placement: Map<Square, Piece>,
    en_passant_target: Option<Square>,
    piece: Piece,
    origin: Square,
    side: i8,
    square: Square,
)
    ensures
        goes_to(
            spec_pawn_capture_moves(placement, en_passant_target, piece, origin, side),
            square,
        ) <==> spec_pawn_capture_target(
            placement,
            en_passant_target,
            piece.color,
            origin,
            side,
        ).contains(square),
{
    let targets = spec_pawn_capture_target(placement, en_passant_target, piece.color, origin, side);
    let moves = spec_pawn_capture_moves(placement, en_passant_target, piece, origin, side);
    if targets.len() > 0 {
        assert(targets =~= seq![targets[0]]);
        assert(targets.contains(square) <==> square == targets[0]) by {
            if square == targets[0] {
                assert(targets[0] == square);
            }
        }
        lemma_pawn_arrival_goes_to(piece, origin, targets[0], true, square);
        if moves.len() == 1 {
            assert(moves[0].destination_square == targets[0] || moves == spec_pawn_arrival(
                piece,
                origin,
                targets[0],
                true,
            ));
        }
    }
}

/// The squares that a piece can go to are the destinations of its moves,
/// castling aside: a square is among `spec_target_squares` exactly when a
/// move of `spec_piece_moves` that is no castling move goes to it.
pub proof fn lemma_targets_are_destinations(
    placement: Map<Square, Piece>,
    castling: CastlingAvailability,
    en_passant_target: Option<Square>,
    piece: Piece,
    origin: Square,
    square: Square,
)
    ensures
        spec_target_squares(placement, en_passant_target, piece, origin).contains(square)
            <==> goes_to(
            spec_piece_moves(placement, castling, en_passant_target, piece, origin),
            square,
        ),
{
    let targets = spec_target_squares(placement, en_passant_target, piece, origin);
    match piece.kind {
        Kind::King => {
            let steps = spec_jumper_moves(placement, piece, origin, Offset::spec_king_steps());
            let castles = spec_castling_moves(placement, castling, piece, origin);
            lemma_moves_to_go_to(placement, piece, origin, targets, square);
            lemma_goes_to_add(steps, castles, square);
            assert(!goes_to(castles, square));
        },
        Kind::Pawn => {
            let pushes = spec_pawn_push_targets(placement, piece.color, origin);
            let left = spec_pawn_capture_target(
                placement,
                en_passant_target,
                piece.color,
                origin,
                -1i8,
            );
            let right = spec_pawn_capture_target(
                placement,
                en_passant_target,
                piece.color,
                origin,
                1i8,
            );
            let advances = spec_pawn_advances(piece, origin, pushes);
            let left_moves = spec_pawn_capture_moves(
                placement,
                en_passant_target,
                piece,
                origin,
                -1i8,
            );
            let right_moves = spec_pawn_capture_moves(
                placement,
                en_passant_target,
                piece,
                origin,
                1i8,
            );
            lemma_pawn_advances_go_to(piece, origin, pushes, square);
            lemma_pawn_captures_go_to(placement, en_passant_target, piece, origin, -1i8, square);
            lemma_pawn_captures_go_to(placement, en_passant_target, piece, origin, 1i8, square);
            lemma_contains_add(pushes, left, square);
            lemma_contains_add(pushes + left, right, square);
            lemma_goes_to_add(advances, left_moves, square);
            lemma_goes_to_add(advances + left_moves, right_moves, square);
        },
        _ => {
            lemma_moves_to_go_to(placement, piece, origin, targets, square);
        },
    }
}

} // verus!
