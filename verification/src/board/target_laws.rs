//! What holds of the squares that a piece can go to.

use super::line::{lemma_line_distance, spec_line};
use super::square_iterator::{lemma_walk_is_prefix, spec_walk};
use super::targets::{
    spec_jump_squares, spec_keep_free, spec_lines, spec_pawn_capture_target,
    spec_pawn_push_targets, spec_pawn_targets, spec_target_squares, spec_walk_lines,
};
use super::{Direction, Offset, Square};
use crate::piece::{Color, Kind, Piece};
use vstd::prelude::*;

verus! {

/// Whether `square` lies on the line from `origin` in one of `directions`.
pub open spec fn on_lines(origin: Square, directions: Seq<Direction>, square: Square) -> bool {
    exists|d: int, i: int|
        0 <= d < directions.len() && 0 <= i < spec_line(origin, directions[d]).len()
            && #[trigger] spec_line(origin, directions[d])[i] == square
}

/// Whether `square` lies on the board, one of `offsets` away from `origin`.
pub open spec fn on_jumps(origin: Square, offsets: Seq<Offset>, square: Square) -> bool {
    exists|j: int|
        0 <= j < offsets.len() && square.on_board() && origin.spec_translate(
            #[trigger] offsets[j],
        ) == square
}

/// No square lies twice on a line.
pub proof fn lemma_line_squares_differ(origin: Square, direction: Direction)
    ensures
        spec_line(origin, direction).no_duplicates(),
{
    let line = spec_line(origin, direction);
    assert forall|i: int, j: int| 0 <= i < line.len() && 0 <= j < line.len() && i != j implies line[i]
        != line[j] by {
        lemma_line_distance(origin, direction, i);
        lemma_line_distance(origin, direction, j);
    }
}

/// Lines from one square in two different directions share no square.
pub proof fn lemma_lines_apart(
    origin: Square,
    first: Direction,
    second: Direction,
    i: int,
    j: int,
)
    requires
        first != second,
        0 <= i < spec_line(origin, first).len(),
        0 <= j < spec_line(origin, second).len(),
    ensures
        spec_line(origin, first)[i] != spec_line(origin, second)[j],
{
    lemma_line_distance(origin, first, i);
    lemma_line_distance(origin, second, j);
}

/// One list of squares after another, with no square in both, holds no
/// square twice if neither does.
proof fn lemma_no_duplicates_add(first: Seq<Square>, second: Seq<Square>)
    requires
        first.no_duplicates(),
        second.no_duplicates(),
        forall|i: int, j: int|
            0 <= i < first.len() && 0 <= j < second.len() ==> first[i] != second[j],
    ensures
        (first + second).no_duplicates(),
{
    let all = first + second;
    assert forall|i: int, j: int| 0 <= i < all.len() && 0 <= j < all.len() && i != j implies all[i]
        != all[j] by {
        if i < first.len() {
            assert(all[i] == first[i]);
        } else {
            assert(all[i] == second[i - first.len()]);
        }
        if j < first.len() {
            assert(all[j] == first[j]);
        } else {
            assert(all[j] == second[j - first.len()]);
        }
    }
}

/// The squares reached by walking lines from a square lie on those lines.
proof fn lemma_walk_lines_on_lines(
    placement: Map<Square, Piece>,
    color: Color,
    origin: Square,
    directions: Seq<Direction>,
)
    ensures
        forall|k: int|
            0 <= k < spec_walk_lines(placement, color, spec_lines(origin, directions)).len()
                ==> on_lines(
                origin,
                directions,
                #[trigger] spec_walk_lines(placement, color, spec_lines(origin, directions))[k],
            ),
    decreases directions.len(),
{
    if directions.len() > 0 {
        let lines = spec_lines(origin, directions);
        let shorter = directions.drop_last();
        assert(lines.drop_last() =~= spec_lines(origin, shorter));
        lemma_walk_lines_on_lines(placement, color, origin, shorter);
        let before = spec_walk_lines(placement, color, spec_lines(origin, shorter));
        let line = spec_line(origin, directions.last());
        assert(lines.last() == line);
        let walk = spec_walk(placement, color, line);
        lemma_walk_is_prefix(placement, color, line);
        let all = spec_walk_lines(placement, color, lines);
        assert forall|k: int| 0 <= k < all.len() implies on_lines(
            origin,
            directions,
            #[trigger] all[k],
        ) by {
            if k < before.len() {
                assert(all[k] == before[k]);
                assert(on_lines(origin, shorter, before[k]));
                let (d, i) = choose|d: int, i: int|
                    0 <= d < shorter.len() && 0 <= i < spec_line(origin, shorter[d]).len()
                        && #[trigger] spec_line(origin, shorter[d])[i] == before[k];
                assert(shorter[d] == directions[d]);
                assert(spec_line(origin, directions[d])[i] == all[k]);
            } else {
                let i = k - before.len();
                assert(all[k] == walk[i]);
                assert(walk[i] == line[i]);
                let d = directions.len() - 1;
                assert(spec_line(origin, directions[d])[i] == all[k]);
            }
        }
    }
}

/// Walking lines in different directions from a square never reaches a
/// square twice.
pub proof fn lemma_walk_lines_differ(
    placement: Map<Square, Piece>,
    color: Color,
    origin: Square,
    directions: Seq<Direction>,
)
    requires
        directions.no_duplicates(),
    ensures
        spec_walk_lines(placement, color, spec_lines(origin, directions)).no_duplicates(),
    decreases directions.len(),
{
    if directions.len() > 0 {
        let lines = spec_lines(origin, directions);
        let shorter = directions.drop_last();
        assert(lines.drop_last() =~= spec_lines(origin, shorter));
        lemma_walk_lines_differ(placement, color, origin, shorter);
        lemma_walk_lines_on_lines(placement, color, origin, shorter);
        let before = spec_walk_lines(placement, color, spec_lines(origin, shorter));
        let last = directions.last();
        let line = spec_line(origin, last);
        assert(lines.last() == line);
        let walk = spec_walk(placement, color, line);
        lemma_walk_is_prefix(placement, color, line);
        lemma_line_squares_differ(origin, last);
        assert(walk.no_duplicates()) by {
            assert forall|i: int, j: int|
                0 <= i < walk.len() && 0 <= j < walk.len() && i != j implies walk[i]
                != walk[j] by {
                assert(walk[i] == line[i] && walk[j] == line[j]);
            }
        }
        assert forall|k: int, j: int| 0 <= k < before.len() && 0 <= j < walk.len() implies before[k]
            != walk[j] by {
            assert(on_lines(origin, shorter, before[k]));
            let (d, i) = choose|d: int, i: int|
                0 <= d < shorter.len() && 0 <= i < spec_line(origin, shorter[d]).len()
                    && #[trigger] spec_line(origin, shorter[d])[i] == before[k];
            assert(shorter[d] == directions[d]);
            assert(directions[d] != directions[directions.len() - 1]);
            lemma_lines_apart(origin, shorter[d], last, i, j);
            assert(walk[j] == line[j]);
        }
        lemma_no_duplicates_add(before, walk);
    }
}

/// The squares a jump away from a square of the board, by jumps that all
/// differ, all differ; each lies on the board at one of the jumps.
proof fn lemma_jump_squares_differ(origin: Square, offsets: Seq<Offset>)
    requires
        origin.on_board(),
        offsets.no_duplicates(),
    ensures
        spec_jump_squares(origin, offsets).no_duplicates(),
        forall|k: int|
            0 <= k < spec_jump_squares(origin, offsets).len() ==> on_jumps(
                origin,
                offsets,
                #[trigger] spec_jump_squares(origin, offsets)[k],
            ),
    decreases offsets.len(),
{
    if offsets.len() > 0 {
        let shorter = offsets.drop_last();
        lemma_jump_squares_differ(origin, shorter);
        let before = spec_jump_squares(origin, shorter);
        let all = spec_jump_squares(origin, offsets);
        let last = offsets.len() - 1;
        let target = origin.spec_translate(offsets[last]);
        assert forall|k: int| 0 <= k < all.len() implies on_jumps(origin, offsets, #[trigger] all[k]) by {
            if k < before.len() {
                assert(all[k] == before[k]);
                assert(on_jumps(origin, shorter, before[k]));
                let j = choose|j: int|
                    0 <= j < shorter.len() && before[k].on_board() && origin.spec_translate(
                        #[trigger] shorter[j],
                    ) == before[k];
                assert(shorter[j] == offsets[j]);
            } else {
                assert(all[k] == target);
                assert(origin.spec_translate(offsets[last]) == all[k]);
            }
        }
        if target.on_board() {
            assert forall|k: int| 0 <= k < before.len() implies before[k] != target by {
                assert(on_jumps(origin, shorter, before[k]));
                let j = choose|j: int|
                    0 <= j < shorter.len() && before[k].on_board() && origin.spec_translate(
                        #[trigger] shorter[j],
                    ) == before[k];
                assert(shorter[j] == offsets[j]);
                assert(offsets[j] != offsets[last]);
            }
            assert(seq![target].no_duplicates());
            assert(all =~= before + seq![target]);
            lemma_no_duplicates_add(before, seq![target]);
        }
    }
}

/// Keeping the free squares of a group that holds no square twice gives a
/// list that holds no square twice, made of squares of the group.
proof fn lemma_keep_free_differ(placement: Map<Square, Piece>, color: Color, group: Seq<Square>)
    requires
        group.no_duplicates(),
    ensures
        spec_keep_free(placement, color, group).no_duplicates(),
        forall|k: int|
            0 <= k < spec_keep_free(placement, color, group).len() ==> group.contains(
                #[trigger] spec_keep_free(placement, color, group)[k],
            ),
    decreases group.len(),
{
    if group.len() > 0 {
        let shorter = group.drop_last();
        assert(shorter.no_duplicates()) by {
            assert forall|i: int, j: int|
                0 <= i < shorter.len() && 0 <= j < shorter.len() && i != j implies shorter[i]
                != shorter[j] by {
                assert(shorter[i] == group[i] && shorter[j] == group[j]);
            }
        }
        lemma_keep_free_differ(placement, color, shorter);
        let before = spec_keep_free(placement, color, shorter);
        let all = spec_keep_free(placement, color, group);
        let last = group.last();
        assert forall|k: int| 0 <= k < before.len() implies before[k] != last && group.contains(
            #[trigger] before[k],
        ) by {
            assert(shorter.contains(before[k]));
            let i = choose|i: int| 0 <= i < shorter.len() && shorter[i] == before[k];
            assert(group[i] == before[k]);
            assert(group[group.len() - 1] == last);
        }
        assert(group[group.len() - 1] == last);
        if all.len() > before.len() {
            assert(seq![last].no_duplicates());
            assert(all =~= before + seq![last]);
            lemma_no_duplicates_add(before, seq![last]);
        }
        assert forall|k: int| 0 <= k < all.len() implies group.contains(#[trigger] all[k]) by {
            if k < before.len() {
                assert(all[k] == before[k]);
            }
        }
    }
}

/// The squares a pawn can go to from a square of the board all differ.
proof fn lemma_pawn_targets_differ(
    placement: Map<Square, Piece>,
    en_passant_target: Option<Square>,
    color: Color,
    origin: Square,
)
    requires
        origin.on_board(),
    ensures
        spec_pawn_targets(placement, en_passant_target, color, origin).no_duplicates(),
{
    let pushes = spec_pawn_push_targets(placement, color, origin);
    let left = spec_pawn_capture_target(placement, en_passant_target, color, origin, -1i8);
    let right = spec_pawn_capture_target(placement, en_passant_target, color, origin, 1i8);
    assert(pushes.no_duplicates());
    assert(left.no_duplicates());
    assert(right.no_duplicates());
    lemma_no_duplicates_add(pushes, left);
    lemma_no_duplicates_add(pushes + left, right);
}

/// No square is listed twice among the squares that a piece can go to from
/// a square of the board.
pub proof fn lemma_targets_differ(
    placement: Map<Square, Piece>,
    en_passant_target: Option<Square>,
    piece: Piece,
    origin: Square,
)
    requires
        origin.on_board(),
    ensures
        spec_target_squares(placement, en_passant_target, piece, origin).no_duplicates(),
{
    match piece.kind {
        Kind::Bishop => {
            assert(Direction::spec_diagonal().no_duplicates());
            lemma_walk_lines_differ(placement, piece.color, origin, Direction::spec_diagonal());
        },
        Kind::Rook => {
            assert(Direction::spec_straight().no_duplicates());
            lemma_walk_lines_differ(placement, piece.color, origin, Direction::spec_straight());
        },
        Kind::Queen => {
            assert(Direction::spec_all().no_duplicates());
            lemma_walk_lines_differ(placement, piece.color, origin, Direction::spec_all());
        },
        Kind::Knight => {
            assert(Offset::spec_knight_jumps().no_duplicates());
            lemma_jump_squares_differ(origin, Offset::spec_knight_jumps());
            lemma_keep_free_differ(
                placement,
                piece.color,
                spec_jump_squares(origin, Offset::spec_knight_jumps()),
            );
        },
        Kind::King => {
            assert(Offset::spec_king_steps().no_duplicates());
            lemma_jump_squares_differ(origin, Offset::spec_king_steps());
            lemma_keep_free_differ(
                placement,
                piece.color,
                spec_jump_squares(origin, Offset::spec_king_steps()),
            );
        },
        Kind::Pawn => {
            lemma_pawn_targets_differ(placement, en_passant_target, piece.color, origin);
        },
    }
}

/// Walking one list of lines after another reaches the squares of the
/// first list and then those of the second.
proof fn lemma_walk_lines_add(
    placement: Map<Square, Piece>,
    color: Color,
    first: Seq<Seq<Square>>,
    second: Seq<Seq<Square>>,
)
    ensures
        spec_walk_lines(placement, color, first + second) == spec_walk_lines(
            placement,
            color,
            first,
        ) + spec_walk_lines(placement, color, second),
    decreases second.len(),
{
    if second.len() == 0 {
        assert(first + second =~= first);
        assert(spec_walk_lines(placement, color, first) + Seq::<Square>::empty()
            =~= spec_walk_lines(placement, color, first));
    } else {
        let all = first + second;
        assert(all.drop_last() =~= first + second.drop_last());
        assert(all.last() == second.last());
        lemma_walk_lines_add(placement, color, first, second.drop_last());
        assert(spec_walk_lines(placement, color, all) =~= spec_walk_lines(placement, color, first)
            + spec_walk_lines(placement, color, second));
    }
}

/// A queen goes where a rook and a bishop of her colour would go from her
/// square: first to the squares of the rook, then to those of the bishop.
pub proof fn lemma_queen_targets(
    placement: Map<Square, Piece>,
    en_passant_target: Option<Square>,
    color: Color,
    origin: Square,
)
    ensures
        spec_target_squares(
            placement,
            en_passant_target,
            Piece { color, kind: Kind::Queen },
            origin,
        ) == spec_target_squares(
            placement,
            en_passant_target,
            Piece { color, kind: Kind::Rook },
            origin,
        ) + spec_target_squares(
            placement,
            en_passant_target,
            Piece { color, kind: Kind::Bishop },
            origin,
        ),
{
    assert(spec_lines(origin, Direction::spec_all()) =~= spec_lines(
        origin,
        Direction::spec_straight(),
    ) + spec_lines(origin, Direction::spec_diagonal()));
    lemma_walk_lines_add(
        placement,
        color,
        spec_lines(origin, Direction::spec_straight()),
        spec_lines(origin, Direction::spec_diagonal()),
    );
}

} // verus!
