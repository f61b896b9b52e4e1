//! The squares that a piece can reach along a line or by a single jump,
//! given what stands in its way.

use super::board::spec_status;
use super::line::spec_line;
use super::{Board, Direction, Line, Offset, Square, SquareStatus};
use crate::piece::{Color, Piece};
use vstd::prelude::*;

verus! {

/// The squares of `line` that a piece of `color` can go to when it walks the
/// line from its start: every empty square up to the first piece, and the
/// square of that piece too if it is an enemy.
pub open spec fn spec_walk(
    placement: Map<Square, Piece>,
    color: Color,
    line: Seq<Square>,
) -> Seq<Square>
    decreases line.len(),
{
    if line.len() == 0 {
        Seq::<Square>::empty()
    } else {
        match spec_status(placement, line[0], color) {
            SquareStatus::TakenBySame => Seq::<Square>::empty(),
            SquareStatus::TakenByOpposite => seq![line[0]],
            SquareStatus::Empty => seq![line[0]] + spec_walk(placement, color, line.drop_first()),
        }
    }
}

/// The first `limit` squares of `line`, or all of it where there is no
/// limit or the line is shorter.
pub open spec fn spec_limited(line: Seq<Square>, limit: Option<u8>) -> Seq<Square> {
    match limit {
        Some(limit) => if limit < line.len() {
            line.take(limit as int)
        } else {
            line
        },
        None => line,
    }
}

/// The squares that a piece of `color` on `origin` can go to in
/// `direction`, in at most `limit` steps where a limit is given.
pub open spec fn spec_from_direction(
    placement: Map<Square, Piece>,
    color: Color,
    origin: Square,
    limit: Option<u8>,
    direction: Direction,
) -> Seq<Square> {
    spec_walk(placement, color, spec_limited(spec_line(origin, direction), limit))
}

/// The square that a piece of `color` on `origin` can go to by the jump
/// `offset`: the square at that offset if it lies on the board and no piece
/// of the same colour stands on it; otherwise none.
pub open spec fn spec_from_single_offset(
    placement: Map<Square, Piece>,
    color: Color,
    origin: Square,
    offset: Offset,
) -> Seq<Square> {
    let target = origin.spec_translate(offset);
    if target.on_board() && spec_status(placement, target, color) != SquareStatus::TakenBySame {
        seq![target]
    } else {
        Seq::<Square>::empty()
    }
}

/// Walking a line yields squares of that line, in order, none twice: the
/// square at place `i` of the walk is the square at place `i` of the line.
pub proof fn lemma_walk_is_prefix(placement: Map<Square, Piece>, color: Color, line: Seq<Square>)
    ensures
        spec_walk(placement, color, line).len() <= line.len(),
        forall|i: int|
            0 <= i < spec_walk(placement, color, line).len() ==> #[trigger] spec_walk(
                placement,
                color,
                line,
            )[i] == line[i],
        forall|i: int|
            0 <= i < spec_walk(placement, color, line).len() ==> spec_status(
                placement,
                #[trigger] line[i],
                color,
            ) != SquareStatus::TakenBySame,
    decreases line.len(),
{
    if line.len() > 0 {
        lemma_walk_is_prefix(placement, color, line.drop_first());
        let walk = spec_walk(placement, color, line);
        let rest = spec_walk(placement, color, line.drop_first());
        assert forall|i: int| 0 <= i < walk.len() implies #[trigger] walk[i] == line[i] by {
            if i > 0 {
                assert(walk[i] == rest[i - 1]);
                assert(line.drop_first()[i - 1] == line[i]);
            }
        }
        assert forall|i: int| 0 <= i < walk.len() implies spec_status(
            placement,
            #[trigger] line[i],
            color,
        ) != SquareStatus::TakenBySame by {
            if i > 0 {
                assert(line.drop_first()[i - 1] == line[i]);
            }
        }
    }
}

/// The ways in which a piece finds the squares it can go to.
pub struct SquareIterator;

impl SquareIterator {
    /// The squares that `piece`, standing on `origin`, can go to by the
    /// single jump `offset`: the square at that offset, unless it lies off
    /// the board or holds a piece of the same colour.
    pub fn from_single_offset(
        piece: &Piece,
        origin: &Square,
        board: &Board,
        offset: Offset,
    ) -> (squares: Vec<Square>)
        ensures
            squares@ == spec_from_single_offset(board@.placement, piece.color, *origin, offset),
    {
        let target = origin.translate(offset);
        let mut squares: Vec<Square> = Vec::new();
        if board.is_valid(&target) {
            match board.status(&target, piece.color()) {
                SquareStatus::Empty | SquareStatus::TakenByOpposite => {
                    squares.push(target);
                    assert(squares@ =~= seq![target]);
                },
                SquareStatus::TakenBySame => {},
            }
        }
        squares
    }

    /// The squares of `line` that `piece` can go to when it walks the line
    /// from its start: each empty square in turn up to the first piece in
    /// the way, and the square of that piece too if it is an enemy.
    pub fn along(piece: &Piece, board: &Board, line: &Vec<Square>) -> (squares: Vec<Square>)
        ensures
            squares@ == spec_walk(board@.placement, piece.color, line@),
    {
        let mut squares: Vec<Square> = Vec::new();
        let mut index: usize = 0;
        proof {
            assert(line@.skip(0) =~= line@);
            assert(squares@ + spec_walk(board@.placement, piece.color, line@) =~= spec_walk(
                board@.placement,
                piece.color,
                line@,
            ));
        }
        while index < line.len()
            invariant_except_break
                squares@ + spec_walk(board@.placement, piece.color, line@.skip(index as int))
                    == spec_walk(board@.placement, piece.color, line@),
            invariant
                index <= line@.len(),
            ensures
                squares@ == spec_walk(board@.placement, piece.color, line@),
            decreases line@.len() - index,
        {
            let target = line[index];
            let ghost rest = line@.skip(index as int);
            assert(rest[0] == target);
            assert(rest.drop_first() =~= line@.skip(index + 1));
            match board.status(&target, piece.color()) {
                SquareStatus::Empty => {
                    proof {
                        let tail = spec_walk(board@.placement, piece.color, rest.drop_first());
                        assert(squares@.push(target) + tail =~= squares@ + (seq![target] + tail));
                    }
                    squares.push(target);
                },
                SquareStatus::TakenByOpposite => {
                    proof {
                        assert(squares@.push(target) =~= squares@ + seq![target]);
                    }
                    squares.push(target);
                    break;
                },
                SquareStatus::TakenBySame => {
                    assert(squares@ + Seq::<Square>::empty() =~= squares@);
                    break;
                },
            }
            index = index + 1;
        }
        squares
    }

    /// The squares that `piece`, standing on `origin`, can go to in
    /// `direction`: each empty square in turn, up to the edge of the board
    /// or the first piece in the way; the square of that piece too if it is
    /// an enemy. With a limit, no more than that many steps are taken.
    pub fn from_direction(
        piece: &Piece,
        origin: &Square,
        board: &Board,
        limit: Option<u8>,
        direction: Direction,
    ) -> (squares: Vec<Square>)
        ensures
            squares@ == spec_from_direction(
                board@.placement,
                piece.color,
                *origin,
                limit,
                direction,
            ),
    {
        let mut line = Line::new(*origin, direction).squares();
        match limit {
            Some(limit) => {
                if (limit as usize) < line.len() {
                    line.truncate(limit as usize);
                }
            },
            None => {},
        }
        assert(line@ =~= spec_limited(spec_line(*origin, direction), limit));
        SquareIterator::along(piece, board, &line)
    }
}

} // verus!
