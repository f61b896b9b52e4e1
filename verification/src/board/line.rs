//! Straight lines of squares: the rays along which rooks, bishops and
//! queens slide.

use super::{Direction, Square};
use vstd::prelude::*;

verus! {

/// How many steps in `direction` can be taken from `from` without leaving
/// the board. From a square off the board there are none.
pub open spec fn room(from: Square, direction: Direction) -> nat {
    let step = direction.spec_offset();
    let files: int = if step.file > 0 {
        8 - from.file.0
    } else if step.file < 0 {
        from.file.0 - 1
    } else {
        7
    };
    let ranks: int = if step.rank > 0 {
        8 - from.rank.0
    } else if step.rank < 0 {
        from.rank.0 - 1
    } else {
        7
    };
    if !from.on_board() {
        0
    } else if files <= ranks {
        files as nat
    } else {
        ranks as nat
    }
}

/// The squares met when walking from `from` in `direction`, nearest first,
/// up to the edge of the board. `from` itself is not among them.
pub open spec fn spec_line(from: Square, direction: Direction) -> Seq<Square>
    decreases room(from, direction),
{
    if room(from, direction) == 0 {
        Seq::<Square>::empty()
    } else {
        let next = from.spec_translate(direction.spec_offset());
        seq![next] + spec_line(next, direction)
    }
}

/// A first step in `direction` stays on the board exactly when there is
/// room, and then leaves one step less.
pub proof fn lemma_room_step(from: Square, direction: Direction)
    requires
        from.on_board(),
    ensures
        from.spec_translate(direction.spec_offset()).on_board() <==> room(from, direction) > 0,
        room(from, direction) > 0 ==> room(from.spec_translate(direction.spec_offset()), direction)
            == room(from, direction) - 1,
        room(from, direction) <= 7,
{
}

/// A line has as many squares as there is room, all of them on the board
/// and none of them the starting square.
pub proof fn lemma_line(from: Square, direction: Direction)
    ensures
        spec_line(from, direction).len() == room(from, direction),
        forall|i: int|
            0 <= i < spec_line(from, direction).len() ==> (#[trigger] spec_line(
                from,
                direction,
            )[i]).on_board(),
        forall|i: int|
            0 <= i < spec_line(from, direction).len() ==> #[trigger] spec_line(from, direction)[i]
                != from,
    decreases room(from, direction),
{
    if room(from, direction) > 0 {
        let next = from.spec_translate(direction.spec_offset());
        lemma_room_step(from, direction);
        lemma_line(next, direction);
        lemma_line_moves_away(from, direction, next);
    }
}

/// Walking on from `next`, one step beyond `from`, never leads back to
/// `from`.
proof fn lemma_line_moves_away(from: Square, direction: Direction, next: Square)
    requires
        from.on_board(),
        room(from, direction) > 0,
        next == from.spec_translate(direction.spec_offset()),
    ensures
        next != from,
        forall|i: int|
            0 <= i < spec_line(next, direction).len() ==> #[trigger] spec_line(next, direction)[i]
                != from,
{
    assert forall|i: int| 0 <= i < spec_line(next, direction).len() implies #[trigger] spec_line(
        next,
        direction,
    )[i] != from by {
        lemma_line_distance(next, direction, i);
    }
}

/// How far `count` steps lead along one axis, when one step changes the
/// coordinate by `step`, which is -1, 0 or 1.
pub open spec fn spec_steps(step: i8, count: int) -> int {
    if step > 0 {
        count
    } else if step < 0 {
        -count
    } else {
        0
    }
}

/// The square at place `i` of a line lies `i + 1` steps from its start,
/// along each axis on which the direction moves.
pub proof fn lemma_line_distance(from: Square, direction: Direction, i: int)
    requires
        0 <= i < spec_line(from, direction).len(),
    ensures
        spec_line(from, direction)[i].file.0 == from.file.0 + spec_steps(
            direction.spec_offset().file,
            i + 1,
        ),
        spec_line(from, direction)[i].rank.0 == from.rank.0 + spec_steps(
            direction.spec_offset().rank,
            i + 1,
        ),
    decreases i,
{
    let next = from.spec_translate(direction.spec_offset());
    lemma_room_step(from, direction);
    if i > 0 {
        lemma_line_distance(next, direction, i - 1);
        assert(spec_line(from, direction)[i] == spec_line(next, direction)[i - 1]);
    }
}

/// A line of squares that starts next to `origin` and runs in `direction` to
/// the edge of the board.
#[derive(Debug, Clone, Copy, PartialEq, Eq, Hash, Structural)]
pub struct Line {
    /// The square the line starts from; it is not part of the line.
    pub origin: Square,
    /// The direction in which the line runs.
    pub direction: Direction,
}

impl Line {
    /// The squares of the line, nearest to the origin first.
    pub open spec fn spec_squares(&self) -> Seq<Square> {
        spec_line(self.origin, self.direction)
    }

    /// The line from `origin` in `direction`.
    pub fn new(origin: Square, direction: Direction) -> (line: Line)
        ensures
            line == (Line { origin, direction }),
    {
        Line { origin, direction }
    }

    /// The squares of the line, nearest to the origin first. There are at
    /// most seven, all on the board; from an origin off the board there is
    /// none.
    pub fn squares(&self) -> (squares: Vec<Square>)
        ensures
            squares@ == self.spec_squares(),
            squares@.len() == room(self.origin, self.direction),
            squares@.len() <= 7,
            forall|i: int| 0 <= i < squares@.len() ==> (#[trigger] squares@[i]).on_board(),
    {
        let mut squares: Vec<Square> = Vec::new();
        proof {
            lemma_line(self.origin, self.direction);
        }
        if !self.origin.is_on_board() {
            return squares;
        }
        proof {
            lemma_room_step(self.origin, self.direction);
        }
        let step = self.direction.offset();
        let mut current = self.origin;
        loop
            invariant
                current.on_board(),
                step == self.direction.spec_offset(),
                squares@ + spec_line(current, self.direction) == spec_line(
                    self.origin,
                    self.direction,
                ),
            ensures
                squares@ == spec_line(self.origin, self.direction),
            decreases room(current, self.direction),
        {
            let next = current.translate(step);
            proof {
                lemma_room_step(current, self.direction);
            }
            if !next.is_on_board() {
                assert(spec_line(current, self.direction) =~= Seq::<Square>::empty());
                assert(squares@ + Seq::<Square>::empty() =~= squares@);
                break;
            }
            proof {
                let rest = spec_line(next, self.direction);
                assert(spec_line(current, self.direction) == seq![next] + rest);
                assert(squares@.push(next) + rest =~= squares@ + (seq![next] + rest));
            }
            squares.push(next);
            current = next;
        }
        squares
    }
}

} // verus!
