//! Writing a position as a record in Forsyth–Edwards Notation.

use crate::board::{Board, CastlingAvailability, File, PiecePlacement, Position, Rank, Square};
use crate::board::placement::piece_on;
use crate::piece::{Color, Kind, Piece};
use vstd::prelude::*;
use vstd::string::StringExecFns;

verus! {

/// The digit that stands for `value`, from `0` to `9`.
pub open spec fn spec_digit_char(value: int) -> char {
    seq!['0', '1', '2', '3', '4', '5', '6', '7', '8', '9'][value]
}

/// How a run of `run` empty squares is written: as one digit, or not at all
/// if there is no run.
pub open spec fn spec_run(run: int) -> Seq<char> {
    if 1 <= run <= 8 {
        seq![spec_digit_char(run)]
    } else {
        Seq::<char>::empty()
    }
}

/// How the squares of `rank` from `file` to the h-file are written, when
/// `run` empty squares come right before `file`: a letter for each piece,
/// and a digit for each longest run of empty squares.
pub open spec fn spec_encode_files(
    placement: Map<Square, Piece>,
    rank: int,
    file: int,
    run: int,
) -> Seq<char>
    decreases 9 - file,
{
    if file > 8 || file < 1 {
        spec_run(run)
    } else {
        match piece_on(placement, Square { file: File(file as u8), rank: Rank(rank as u8) }) {
            None => spec_encode_files(placement, rank, file + 1, run + 1),
            Some(piece) => spec_run(run) + seq![piece.spec_board_representation()]
                + spec_encode_files(placement, rank, file + 1, 0),
        }
    }
}

/// How the ranks from the eighth down to `rank` are written: rank after
/// rank, with `/` between them.
pub open spec fn spec_encode_ranks(placement: Map<Square, Piece>, rank: int) -> Seq<char>
    decreases 9 - rank,
{
    if rank >= 8 {
        spec_encode_files(placement, 8, 1, 0)
    } else {
        spec_encode_ranks(placement, rank + 1) + seq!['/'] + spec_encode_files(
            placement,
            rank,
            1,
            0,
        )
    }
}

/// The piece placement field for `placement`.
pub open spec fn spec_encode_piece_placement(placement: Map<Square, Piece>) -> Seq<char> {
    spec_encode_ranks(placement, 1)
}

/// The active colour field: `w` or `b`.
pub open spec fn spec_encode_active_color(color: Color) -> Seq<char> {
    match color {
        Color::White => seq!['w'],
        Color::Black => seq!['b'],
    }
}

/// The castling field: the letters of the rights held, in the order
/// `KQkq`, or `-` if none is held.
pub open spec fn spec_encode_castling_availability(rights: CastlingAvailability) -> Seq<char> {
    let letters = (if rights.white_kingside {
        seq!['K']
    } else {
        Seq::<char>::empty()
    }) + (if rights.white_queenside {
        seq!['Q']
    } else {
        Seq::<char>::empty()
    }) + (if rights.black_kingside {
        seq!['k']
    } else {
        Seq::<char>::empty()
    }) + (if rights.black_queenside {
        seq!['q']
    } else {
        Seq::<char>::empty()
    });
    if letters.len() == 0 {
        seq!['-']
    } else {
        letters
    }
}

/// The en-passant field: the name of the square, or `-` if there is none.
pub open spec fn spec_encode_en_passant(target: Option<Square>) -> Seq<char> {
    match target {
        Some(square) => square.spec_name(),
        None => seq!['-'],
    }
}

/// The number `value` in base ten, without leading zeros.
pub open spec fn spec_encode_number(value: nat) -> Seq<char>
    decreases value,
{
    if value < 10 {
        seq![spec_digit_char(value as int)]
    } else {
        spec_encode_number(value / 10).push(spec_digit_char((value % 10) as int))
    }
}

impl Position {
    /// The record that describes this position: its six fields, with one
    /// space between each two.
    pub open spec fn forsyth_edwards_notation(self) -> Seq<char> {
        spec_encode_piece_placement(self.placement) + seq![' '] + spec_encode_active_color(
            self.active_color,
        ) + seq![' '] + spec_encode_castling_availability(self.castling_availability) + seq![' ']
            + spec_encode_en_passant(self.en_passant_target) + seq![' '] + spec_encode_number(
            self.halfmove_clock,
        ) + seq![' '] + spec_encode_number(self.fullmove_number)
    }
}

/// The digit that stands for `value`, as text.
fn digit_text(value: u8) -> (digit: &'static str)
    requires
        value <= 9,
    ensures
        digit@ == seq![spec_digit_char(value as int)],
{
    proof {
        reveal_strlit("0");
        reveal_strlit("1");
        reveal_strlit("2");
        reveal_strlit("3");
        reveal_strlit("4");
        reveal_strlit("5");
        reveal_strlit("6");
        reveal_strlit("7");
        reveal_strlit("8");
        reveal_strlit("9");
    }
    let digit = match value {
        0 => "0",
        1 => "1",
        2 => "2",
        3 => "3",
        4 => "4",
        5 => "5",
        6 => "6",
        7 => "7",
        8 => "8",
        _ => "9",
    };
    assert(digit@ =~= seq![spec_digit_char(value as int)]);
    digit
}

impl Piece {
    /// The letter that stands for this piece on a board written as text,
    /// as text.
    pub fn board_text(&self) -> (letter: &'static str)
        ensures
            letter@ == seq![self.spec_board_representation()],
    {
        proof {
            reveal_strlit("B");
            reveal_strlit("b");
            reveal_strlit("K");
            reveal_strlit("k");
            reveal_strlit("N");
            reveal_strlit("n");
            reveal_strlit("P");
            reveal_strlit("p");
            reveal_strlit("Q");
            reveal_strlit("q");
            reveal_strlit("R");
            reveal_strlit("r");
        }
        let letter = match (self.color, self.kind) {
            (Color::White, Kind::Bishop) => "B",
            (Color::Black, Kind::Bishop) => "b",
            (Color::White, Kind::King) => "K",
            (Color::Black, Kind::King) => "k",
            (Color::White, Kind::Knight) => "N",
            (Color::Black, Kind::Knight) => "n",
            (Color::White, Kind::Pawn) => "P",
            (Color::Black, Kind::Pawn) => "p",
            (Color::White, Kind::Queen) => "Q",
            (Color::Black, Kind::Queen) => "q",
            (Color::White, Kind::Rook) => "R",
            (Color::Black, Kind::Rook) => "r",
        };
        assert(letter@ =~= seq![self.spec_board_representation()]);
        letter
    }
}

/// Writes a run of `run` empty squares at the end of `text`.
fn write_run(text: &mut String, run: u8)
    requires
        run <= 8,
    ensures
        final(text)@ == old(text)@ + spec_run(run as int),
{
    if run > 0 {
        text.append(digit_text(run));
    } else {
        assert(text@ =~= old(text)@ + spec_run(0));
    }
}

/// Writes one rank of `placement` at the end of `text`.
fn write_rank(text: &mut String, placement: &PiecePlacement, rank: u8)
    requires
        1 <= rank <= 8,
    ensures
        final(text)@ == old(text)@ + spec_encode_files(placement@, rank as int, 1, 0),
{
    let ghost start = text@;
    let mut run: u8 = 0;
    let mut file: u8 = 1;
    assert(text@ + spec_encode_files(placement@, rank as int, 1, 0) =~= start + spec_encode_files(
        placement@,
        rank as int,
        1,
        0,
    ));
    while file <= 8
        invariant
            1 <= file <= 9,
            run < file,
            1 <= rank <= 8,
            text@ + spec_encode_files(placement@, rank as int, file as int, run as int) == start
                + spec_encode_files(placement@, rank as int, 1, 0),
        decreases 9 - file,
    {
        let ghost before = text@;
        let ghost rest = spec_encode_files(placement@, rank as int, file + 1, 0);
        match placement.get(&Square::new(File(file), Rank(rank))) {
            None => {
                run = run + 1;
            },
            Some(piece) => {
                write_run(text, run);
                text.append(piece.board_text());
                assert(text@ + rest =~= before + (spec_run(run as int) + seq![
                    piece.spec_board_representation(),
                ] + rest));
                run = 0;
            },
        }
        file = file + 1;
    }
    write_run(text, run);
}

/// Writes `value` in base ten at the end of `text`.
fn write_number(text: &mut String, value: u16)
    ensures
        final(text)@ == old(text)@ + spec_encode_number(value as nat),
    decreases value,
{
    if value >= 10 {
        write_number(text, value / 10);
    }
    text.append(digit_text((value % 10) as u8));
    proof {
        if value >= 10 {
            assert(text@ =~= old(text)@ + spec_encode_number((value / 10) as nat).push(
                spec_digit_char((value % 10) as int),
            ));
        }
    }
}

/// Writes the piece placement field for `placement` at the end of `text`.
fn write_piece_placement(text: &mut String, placement: &PiecePlacement)
    ensures
        final(text)@ == old(text)@ + spec_encode_piece_placement(placement@),
{
    let ghost start = text@;
    write_rank(text, placement, 8);
    let mut rank: u8 = 7;
    while rank >= 1
        invariant
            rank <= 7,
            text@ == start + spec_encode_ranks(placement@, rank + 1),
        decreases rank,
    {
        let ghost before = spec_encode_ranks(placement@, rank + 1);
        proof {
            reveal_strlit("/");
        }
        text.append("/");
        write_rank(text, placement, rank);
        assert(text@ =~= start + (before + seq!['/'] + spec_encode_files(
            placement@,
            rank as int,
            1,
            0,
        )));
        rank = rank - 1;
    }
}

/// Writes the active colour field for `color` at the end of `text`.
fn write_active_color(text: &mut String, color: &Color)
    ensures
        final(text)@ == old(text)@ + spec_encode_active_color(*color),
{
    proof {
        reveal_strlit("w");
        reveal_strlit("b");
    }
    match color {
        Color::White => text.append("w"),
        Color::Black => text.append("b"),
    }
    assert(text@ =~= old(text)@ + spec_encode_active_color(*color));
}

/// Writes the castling field for `rights` at the end of `text`.
fn write_castling_availability(text: &mut String, rights: &CastlingAvailability)
    ensures
        final(text)@ == old(text)@ + spec_encode_castling_availability(*rights),
{
    proof {
        reveal_strlit("K");
        reveal_strlit("Q");
        reveal_strlit("k");
        reveal_strlit("q");
        reveal_strlit("-");
    }
    if rights.white_kingside {
        text.append("K");
    }
    if rights.white_queenside {
        text.append("Q");
    }
    if rights.black_kingside {
        text.append("k");
    }
    if rights.black_queenside {
        text.append("q");
    }
    if !(rights.white_kingside || rights.white_queenside || rights.black_kingside
        || rights.black_queenside) {
        text.append("-");
    }
    assert(text@ =~= old(text)@ + spec_encode_castling_availability(*rights));
}

/// Writes the en-passant field for `target` at the end of `text`.
fn write_en_passant(text: &mut String, target: Option<Square>)
    ensures
        final(text)@ == old(text)@ + spec_encode_en_passant(target),
{
    match target {
        Some(square) => {
            let name = square.name();
            text.append(name.as_str());
        },
        None => {
            proof {
                reveal_strlit("-");
            }
            text.append("-");
            assert(text@ =~= old(text)@ + seq!['-']);
        },
    }
}

/// Writes one space at the end of `text`.
fn write_space(text: &mut String)
    ensures
        final(text)@ == old(text)@ + seq![' '],
{
    proof {
        reveal_strlit(" ");
    }
    text.append(" ");
    assert(text@ =~= old(text)@ + seq![' ']);
}

impl Board {
    /// The record in Forsyth–Edwards Notation that describes this position:
    /// piece placement, active colour, castling rights, en-passant target,
    /// halfmove clock and fullmove number, with one space between each two.
    ///
    /// Reading the record gives this position back, as
    /// `lemma_record_reads_back` shows.
    pub fn to_forsyth_edwards_notation(&self) -> (record: String)
        ensures
            record@ == self@.forsyth_edwards_notation(),
    {
        let mut record = String::new();
        write_piece_placement(&mut record, self.piece_placement());
        assert(record@ =~= spec_encode_piece_placement(self@.placement));
        write_space(&mut record);
        write_active_color(&mut record, self.active_color());
        write_space(&mut record);
        write_castling_availability(&mut record, self.castling_availability());
        write_space(&mut record);
        write_en_passant(&mut record, self.en_passant_target());
        write_space(&mut record);
        write_number(&mut record, self.halfmove_clock());
        write_space(&mut record);
        write_number(&mut record, self.fullmove_number());
        record
    }
}

} // verus!
