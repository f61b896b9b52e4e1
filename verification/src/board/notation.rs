//! Squares and moves written as text.

use super::{Action, ChessMove, File, MoveStatus, Rank, Square};
use crate::piece::{Kind, Piece};
use vstd::string::StringExecFns;
use vstd::prelude::*;

verus! {

impl File {
    /// The letter of the file, from `a` to `h`; `?` for a file off the
    /// board.
    pub open spec fn spec_letter(&self) -> char {
        if self.on_board() {
            seq!['a', 'b', 'c', 'd', 'e', 'f', 'g', 'h'][self.0 - 1]
        } else {
            '?'
        }
    }

    /// The letter of the file, from `a` to `h`; `?` for a file off the
    /// board.
    #[verifier::when_used_as_spec(spec_letter)]
    pub fn letter(&self) -> (letter: char)
        ensures
            letter == self.spec_letter(),
    {
        match self.0 {
            1 => 'a',
            2 => 'b',
            3 => 'c',
            4 => 'd',
            5 => 'e',
            6 => 'f',
            7 => 'g',
            8 => 'h',
            _ => '?',
        }
    }
}

impl File {
    /// The letter of the file as text.
    pub fn letter_text(&self) -> (letter: &'static str)
        ensures
            letter@ == seq![self.spec_letter()],
    {
        proof {
            reveal_strlit("a");
            reveal_strlit("b");
            reveal_strlit("c");
            reveal_strlit("d");
            reveal_strlit("e");
            reveal_strlit("f");
            reveal_strlit("g");
            reveal_strlit("h");
            reveal_strlit("?");
        }
        let letter = match self.0 {
            1 => "a",
            2 => "b",
            3 => "c",
            4 => "d",
            5 => "e",
            6 => "f",
            7 => "g",
            8 => "h",
            _ => "?",
        };
        assert(letter@ =~= seq![self.spec_letter()]);
        letter
    }
}

impl Rank {
    /// The digit of the rank, from `1` to `8`; `?` for a rank off the board.
    pub open spec fn spec_digit(&self) -> char {
        if self.on_board() {
            seq!['1', '2', '3', '4', '5', '6', '7', '8'][self.0 - 1]
        } else {
            '?'
        }
    }

    /// The digit of the rank, from `1` to `8`; `?` for a rank off the board.
    #[verifier::when_used_as_spec(spec_digit)]
    pub fn digit(&self) -> (digit: char)
        ensures
            digit == self.spec_digit(),
    {
        match self.0 {
            1 => '1',
            2 => '2',
            3 => '3',
            4 => '4',
            5 => '5',
            6 => '6',
            7 => '7',
            8 => '8',
            _ => '?',
        }
    }
}

impl Rank {
    /// The digit of the rank as text.
    pub fn digit_text(&self) -> (digit: &'static str)
        ensures
            digit@ == seq![self.spec_digit()],
    {
        proof {
            reveal_strlit("1");
            reveal_strlit("2");
            reveal_strlit("3");
            reveal_strlit("4");
            reveal_strlit("5");
            reveal_strlit("6");
            reveal_strlit("7");
            reveal_strlit("8");
            reveal_strlit("?");
        }
        let digit = match self.0 {
            1 => "1",
            2 => "2",
            3 => "3",
            4 => "4",
            5 => "5",
            6 => "6",
            7 => "7",
            8 => "8",
            _ => "?",
        };
        assert(digit@ =~= seq![self.spec_digit()]);
        digit
    }
}

impl Square {
    /// The name of the square: the letter of its file, then the digit of
    /// its rank.
    pub open spec fn spec_name(&self) -> Seq<char> {
        seq![self.file.spec_letter(), self.rank.spec_digit()]
    }

    /// The name of the square, such as `e4`.
    pub fn name(&self) -> (name: String)
        ensures
            name@ == self.spec_name(),
    {
        let mut name = String::new();
        name.append(self.file.letter_text());
        name.append(self.rank.digit_text());
        assert(name@ =~= self.spec_name());
        name
    }
}

impl Kind {
    /// The letter that stands for this kind in move notation; a pawn has
    /// none.
    pub fn move_representation(&self) -> (letter: &'static str)
        ensures
            letter@ == self.spec_letter(),
    {
        proof {
            reveal_strlit("B");
            reveal_strlit("K");
            reveal_strlit("N");
            reveal_strlit("");
            reveal_strlit("Q");
            reveal_strlit("R");
        }
        let letter = match self {
            Kind::Bishop => "B",
            Kind::King => "K",
            Kind::Knight => "N",
            Kind::Pawn => "",
            Kind::Queen => "Q",
            Kind::Rook => "R",
        };
        assert(letter@ =~= self.spec_letter());
        letter
    }
}

impl Piece {
    /// The letter that stands for this piece in move notation: that of its
    /// kind, whatever its colour.
    pub fn move_representation(&self) -> (letter: &'static str)
        ensures
            letter@ == self.kind.spec_letter(),
    {
        self.kind.move_representation()
    }
}

impl ChessMove {
    /// What the notation says of the move besides the squares: `=` and the
    /// new kind's letter for a promotion, ` e.p.` for a capture in passing.
    pub open spec fn spec_suffix(&self) -> Seq<char> {
        match self.action {
            Action::MovePromotion(kind) => seq!['='] + kind.spec_letter(),
            Action::CapturePromotion(kind) => seq!['='] + kind.spec_letter(),
            Action::EnPassant => seq![' ', 'e', '.', 'p', '.'],
            _ => Seq::<char>::empty(),
        }
    }

    /// The mark for what the move does to the opponent's king: `#` for
    /// checkmate, `+` for check.
    pub open spec fn spec_mark(&self) -> Seq<char> {
        match self.status {
            MoveStatus::Checkmate => seq!['#'],
            MoveStatus::Check => seq!['+'],
            MoveStatus::Nothing => Seq::<char>::empty(),
        }
    }

    /// The move without its mark: `0-0` or `0-0-0` for castling; for any
    /// other move the letter of the piece (none for a pawn), the origin
    /// square, `x` if the move captures, the destination square, and what
    /// `spec_suffix` adds.
    pub open spec fn spec_body(&self) -> Seq<char> {
        match self.action {
            Action::ShortCastle => seq!['0', '-', '0'],
            Action::LongCastle => seq!['0', '-', '0', '-', '0'],
            _ => self.piece.kind.spec_letter() + self.origin_square.spec_name() + (
            if self.action.spec_is_capture() {
                seq!['x']
            } else {
                Seq::<char>::empty()
            }) + self.destination_square.spec_name() + self.spec_suffix(),
        }
    }

    /// The move in long algebraic notation: what `spec_body` says of the
    /// move, then the mark of `spec_mark`.
    pub open spec fn spec_notation(&self) -> Seq<char> {
        self.spec_body() + self.spec_mark()
    }

    /// What the notation says of the move besides the squares.
    fn suffix(&self) -> (suffix: String)
        ensures
            suffix@ == self.spec_suffix(),
    {
        let mut suffix = String::new();
        match self.action {
            Action::MovePromotion(kind) | Action::CapturePromotion(kind) => {
                proof {
                    reveal_strlit("=");
                }
                suffix.append("=");
                suffix.append(kind.move_representation());
                assert(suffix@ =~= seq!['='] + kind.spec_letter());
            },
            Action::EnPassant => {
                proof {
                    reveal_strlit(" e.p.");
                }
                suffix.append(" e.p.");
                assert(suffix@ =~= seq![' ', 'e', '.', 'p', '.']);
            },
            _ => {},
        }
        suffix
    }

    /// The move without its mark.
    fn body(&self) -> (body: String)
        ensures
            body@ == self.spec_body(),
    {
        let mut body = String::new();
        match self.action {
            Action::ShortCastle => {
                proof {
                    reveal_strlit("0-0");
                }
                body.append("0-0");
                assert(body@ =~= seq!['0', '-', '0']);
            },
            Action::LongCastle => {
                proof {
                    reveal_strlit("0-0-0");
                }
                body.append("0-0-0");
                assert(body@ =~= seq!['0', '-', '0', '-', '0']);
            },
            _ => {
                let origin = self.origin_square.name();
                let destination = self.destination_square.name();
                let suffix = self.suffix();
                body.append(self.piece.kind.move_representation());
                body.append(origin.as_str());
                let ghost start = body@;
                if self.action.is_capture() {
                    proof {
                        reveal_strlit("x");
                    }
                    body.append("x");
                    assert(body@ =~= start + seq!['x']);
                } else {
                    assert(body@ =~= start + Seq::<char>::empty());
                }
                body.append(destination.as_str());
                body.append(suffix.as_str());
            },
        }
        body
    }

    /// The move in long algebraic notation, such as `Ke1xe2+`, `e7e8=Q`,
    /// `e5xf6 e.p.` or `0-0`.
    pub fn notation(&self) -> (notation: String)
        ensures
            notation@ == self.spec_notation(),
    {
        let mut notation = self.body();
        let ghost body = notation@;
        match self.status {
            MoveStatus::Checkmate => {
                proof {
                    reveal_strlit("#");
                }
                notation.append("#");
                assert(notation@ =~= body + seq!['#']);
            },
            MoveStatus::Check => {
                proof {
                    reveal_strlit("+");
                }
                notation.append("+");
                assert(notation@ =~= body + seq!['+']);
            },
            MoveStatus::Nothing => {
                assert(notation@ =~= body + Seq::<char>::empty());
            },
        }
        notation
    }
}

} // verus!
