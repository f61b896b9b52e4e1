//! Reading a position from a record in Forsyth–Edwards Notation: six
//! fields, set apart by white space, that give the piece placement, the
//! active colour, the castling rights, the en-passant target, the halfmove
//! clock and the fullmove number.

use crate::board::{Board, CastlingAvailability, File, PiecePlacement, Position, Rank, Square};
use crate::piece::{Color, Kind, Piece};
use vstd::prelude::*;
use vstd::string::StrSliceExecFns;

pub use field_iterator::FieldIterator;
pub use parse_error::ParseError;

use field_iterator::spec_next_field;

pub mod encoder;
pub mod field_iterator;
pub mod parse_error;
pub mod round_trip;

verus! {

/// The piece that `character` stands for: a letter of `BKNPQR` for a white
/// piece, of `bknpqr` for a black one.
pub open spec fn spec_piece_of(character: char) -> Option<Piece> {
    if character == 'B' {
        Some(Piece { color: Color::White, kind: Kind::Bishop })
    } else if character == 'b' {
        Some(Piece { color: Color::Black, kind: Kind::Bishop })
    } else if character == 'K' {
        Some(Piece { color: Color::White, kind: Kind::King })
    } else if character == 'k' {
        Some(Piece { color: Color::Black, kind: Kind::King })
    } else if character == 'N' {
        Some(Piece { color: Color::White, kind: Kind::Knight })
    } else if character == 'n' {
        Some(Piece { color: Color::Black, kind: Kind::Knight })
    } else if character == 'P' {
        Some(Piece { color: Color::White, kind: Kind::Pawn })
    } else if character == 'p' {
        Some(Piece { color: Color::Black, kind: Kind::Pawn })
    } else if character == 'Q' {
        Some(Piece { color: Color::White, kind: Kind::Queen })
    } else if character == 'q' {
        Some(Piece { color: Color::Black, kind: Kind::Queen })
    } else if character == 'R' {
        Some(Piece { color: Color::White, kind: Kind::Rook })
    } else if character == 'r' {
        Some(Piece { color: Color::Black, kind: Kind::Rook })
    } else {
        None
    }
}

/// The number that the digit `character` stands for, if it is a digit from
/// `low` to `9`.
pub open spec fn spec_digit(character: char, low: char) -> Option<u8> {
    if low <= character && character <= '9' && '0' <= low {
        Some((character as u32 - '0' as u32) as u8)
    } else {
        None
    }
}

/// The file that the letter `character` names: `a` to `h`.
pub open spec fn spec_file_of(character: char) -> Option<File> {
    if 'a' <= character && character <= 'h' {
        Some(File((character as u32 - 'a' as u32 + 1) as u8))
    } else {
        None
    }
}

/// The rank that the digit `character` names: `1` to `8`.
pub open spec fn spec_rank_of(character: char) -> Option<Rank> {
    if '1' <= character && character <= '8' {
        Some(Rank((character as u32 - '0' as u32) as u8))
    } else {
        None
    }
}

/// How far the piece placement field has been read: the file and the rank
/// of the square that comes next, and the pieces set so far.
pub struct Scan {
    /// The file of the next square: 1 at the start of a rank, 9 when the
    /// rank is full.
    pub file: int,
    /// The rank that is being filled: 8 at the start.
    pub rank: int,
    /// The pieces set so far.
    pub placement: Map<Square, Piece>,
}

/// Where reading the piece placement field starts: on a8, with nothing set.
pub open spec fn spec_scan_start() -> Scan {
    Scan { file: 1, rank: 8, placement: Map::<Square, Piece>::empty() }
}

/// What one character of the piece placement field does.
///
/// `/` ends a rank, which must be full, and goes to the start of the rank
/// below. A digit from 1 to 8 leaves that many squares empty. A piece letter
/// sets that piece on the next square. Anything else is no piece.
pub open spec fn spec_scan_step(state: Scan, character: char) -> Result<Scan, ParseError> {
    if character == '/' {
        if state.file != 9 {
            Err(ParseError::IncompletePiecePlacement)
        } else {
            Ok(Scan { file: 1, rank: state.rank - 1, placement: state.placement })
        }
    } else if '1' <= character && character <= '8' {
        Ok(Scan { file: state.file + (character as u32 - '0' as u32), ..state })
    } else {
        match spec_piece_of(character) {
            None => Err(ParseError::InvalidPiece(character)),
            Some(piece) => Ok(
                Scan {
                    file: state.file + 1,
                    rank: state.rank,
                    placement: if 1 <= state.file <= 8 && 1 <= state.rank <= 8 {
                        state.placement.insert(
                            Square { file: File(state.file as u8), rank: Rank(state.rank as u8) },
                            piece,
                        )
                    } else {
                        state.placement
                    },
                },
            ),
        }
    }
}

/// How far the first `count` characters of the piece placement field
/// `field` lead, or the first fault among them.
pub open spec fn spec_scan(field: Seq<char>, count: nat) -> Result<Scan, ParseError>
    decreases count,
{
    if count == 0 {
        Ok(spec_scan_start())
    } else {
        match spec_scan(field, (count - 1) as nat) {
            Err(error) => Err(error),
            Ok(state) => spec_scan_step(state, field[count - 1]),
        }
    }
}

/// The pieces that the piece placement field `field` sets.
///
/// The field is read character by character, from a8 along each rank and
/// down the ranks. The first fault met is the error. At the end the eighth
/// rank-group, the one for rank 1, must be full.
pub open spec fn spec_parse_piece_placement(field: Seq<char>) -> Result<
    Map<Square, Piece>,
    ParseError,
> {
    match spec_scan(field, field.len()) {
        Err(error) => Err(error),
        Ok(state) => if state.rank == 1 && state.file == 9 {
            Ok(state.placement)
        } else {
            Err(ParseError::IncompletePiecePlacement)
        },
    }
}

/// The colour that the active colour field `field` names: white for the
/// field `w`, black for the field `b`. In any other field the first
/// character that does not belong is the fault: the first character if it
/// is neither `w` nor `b`, otherwise the second.
pub open spec fn spec_parse_active_color(field: Seq<char>) -> Result<Color, ParseError> {
    if field.len() == 0 {
        Err(ParseError::UnexpectedEnd)
    } else if field[0] != 'b' && field[0] != 'w' {
        Err(ParseError::InvalidColor(field[0]))
    } else if field.len() > 1 {
        Err(ParseError::InvalidColor(field[1]))
    } else if field[0] == 'b' {
        Ok(Color::Black)
    } else {
        Ok(Color::White)
    }
}

/// Whether `character` grants a castling right: `K`, `Q`, `k` or `q`.
pub open spec fn spec_is_castling_letter(character: char) -> bool {
    character == 'K' || character == 'Q' || character == 'k' || character == 'q'
}

/// The place of the first character of `field` at or after `from` that
/// grants no castling right, or the length of `field` if there is none.
pub open spec fn spec_castling_fault(field: Seq<char>, from: int) -> int
    decreases field.len() - from,
{
    if from < 0 || from >= field.len() {
        field.len() as int
    } else if !spec_is_castling_letter(field[from]) {
        from
    } else {
        spec_castling_fault(field, from + 1)
    }
}

/// The castling rights that the castling field `field` grants.
///
/// The field `-` grants none. Any other field must be made of the letters
/// `K`, `Q`, `k` and `q` alone, in any order and number, and grants the
/// right of each letter that it holds; its first character that is none of
/// the four, a `-` too, is the fault.
pub open spec fn spec_parse_castling_availability(field: Seq<char>) -> Result<
    CastlingAvailability,
    ParseError,
> {
    if field.len() == 1 && field[0] == '-' {
        Ok(
            CastlingAvailability {
                white_kingside: false,
                white_queenside: false,
                black_kingside: false,
                black_queenside: false,
            },
        )
    } else if spec_castling_fault(field, 0) < field.len() {
        Err(ParseError::InvalidCastling(field[spec_castling_fault(field, 0)]))
    } else {
        Ok(
            CastlingAvailability {
                white_kingside: field.contains('K'),
                white_queenside: field.contains('Q'),
                black_kingside: field.contains('k'),
                black_queenside: field.contains('q'),
            },
        )
    }
}

/// The square that the en-passant field `field` names.
///
/// The field `-` names none. Any other field must be exactly two
/// characters, a file letter from `a` to `h` and a rank digit from `1` to
/// `8`. The file letter is looked at first; a field that ends after it is
/// an `UnexpectedEnd`; a character behind the rank digit is an
/// `InvalidRank`, as a second character is that is no rank digit.
pub open spec fn spec_parse_en_passant(field: Seq<char>) -> Result<Option<Square>, ParseError> {
    if field.len() == 1 && field[0] == '-' {
        Ok(None)
    } else {
        match spec_parse_square(field) {
            Err(error) => Err(error),
            Ok(square) => if field.len() > 2 {
                Err(ParseError::InvalidRank(field[2]))
            } else {
                Ok(Some(square))
            },
        }
    }
}

/// The square that `text` names: a file letter from `a` to `h`, then a rank
/// digit from `1` to `8`. The file letter is looked at before the rank
/// digit is asked for; what follows the two is not read.
pub open spec fn spec_parse_square(text: Seq<char>) -> Result<Square, ParseError> {
    if text.len() == 0 {
        Err(ParseError::UnexpectedEnd)
    } else {
        match spec_file_of(text[0]) {
            None => Err(ParseError::InvalidFile(text[0])),
            Some(file) => if text.len() < 2 {
                Err(ParseError::UnexpectedEnd)
            } else {
                match spec_rank_of(text[1]) {
                    None => Err(ParseError::InvalidRank(text[1])),
                    Some(rank) => Ok(Square { file, rank }),
                }
            },
        }
    }
}

/// Whether every character of `digits` is a digit from `0` to `9`.
pub open spec fn spec_all_digits(digits: Seq<char>) -> bool {
    forall|i: int| 0 <= i < digits.len() ==> spec_digit(#[trigger] digits[i], '0') is Some
}

/// The number that `digits` writes in base ten.
pub open spec fn spec_decimal(digits: Seq<char>) -> nat
    decreases digits.len(),
{
    if digits.len() == 0 {
        0
    } else {
        spec_decimal(digits.drop_last()) * 10 + (digits.last() as u32 - '0' as u32) as nat
    }
}

/// The digits of the number field `field`: the field without a `+` at its
/// start.
pub open spec fn spec_unsigned(field: Seq<char>) -> Seq<char> {
    if field.len() > 0 && field[0] == '+' {
        field.skip(1)
    } else {
        field
    }
}

/// The number that the field `field` writes: one or more digits, after at
/// most one `+`, whose value fits in sixteen bits.
pub open spec fn spec_parse_number(field: Seq<char>) -> Result<u16, ParseError> {
    let digits = spec_unsigned(field);
    if digits.len() > 0 && spec_all_digits(digits) && spec_decimal(digits) <= u16::MAX {
        Ok(spec_decimal(digits) as u16)
    } else {
        Err(ParseError::InvalidNumber)
    }
}

/// The position that the record `record` describes, or the first fault in
/// it.
///
/// The fields are read in order: piece placement, active colour, castling
/// rights, en-passant target, halfmove clock, fullmove number. A field that
/// is missing is an `UnexpectedEnd`. What follows the sixth field is not
/// read.
pub open spec fn spec_parse_forsyth_edwards_notation(record: Seq<char>) -> Result<
    Position,
    ParseError,
> {
    match spec_next_field(record, 0) {
        None => Err(ParseError::UnexpectedEnd),
        Some((first, after_first)) => match spec_parse_piece_placement(first) {
            Err(error) => Err(error),
            Ok(placement) => match spec_next_field(record, after_first) {
                None => Err(ParseError::UnexpectedEnd),
                Some((second, after_second)) => match spec_parse_active_color(second) {
                    Err(error) => Err(error),
                    Ok(active_color) => match spec_next_field(record, after_second) {
                        None => Err(ParseError::UnexpectedEnd),
                        Some((third, after_third)) => match spec_parse_castling_availability(
                            third,
                        ) {
                            Err(error) => Err(error),
                            Ok(castling_availability) => spec_parse_counters(
                                record,
                                after_third,
                                placement,
                                active_color,
                                castling_availability,
                            ),
                        },
                    },
                },
            },
        },
    }
}

/// The rest of `spec_parse_forsyth_edwards_notation`, from the fourth field
/// on.
pub open spec fn spec_parse_counters(
    record: Seq<char>,
    from: int,
    placement: Map<Square, Piece>,
    active_color: Color,
    castling_availability: CastlingAvailability,
) -> Result<Position, ParseError> {
    match spec_next_field(record, from) {
        None => Err(ParseError::UnexpectedEnd),
        Some((fourth, after_fourth)) => match spec_parse_en_passant(fourth) {
            Err(error) => Err(error),
            Ok(en_passant_target) => match spec_next_field(record, after_fourth) {
                None => Err(ParseError::UnexpectedEnd),
                Some((fifth, after_fifth)) => match spec_parse_number(fifth) {
                    Err(error) => Err(error),
                    Ok(halfmove_clock) => match spec_next_field(record, after_fifth) {
                        None => Err(ParseError::UnexpectedEnd),
                        Some((sixth, _)) => match spec_parse_number(sixth) {
                            Err(error) => Err(error),
                            Ok(fullmove_number) => Ok(
                                Position {
                                    placement,
                                    active_color,
                                    castling_availability,
                                    en_passant_target,
                                    halfmove_clock: halfmove_clock as nat,
                                    fullmove_number: fullmove_number as nat,
                                },
                            ),
                        },
                    },
                },
            },
        },
    }
}

/// The piece that `character` stands for, or `InvalidPiece`.
pub fn parse_piece(character: char) -> (piece: Result<Piece, ParseError>)
    ensures
        piece == match spec_piece_of(character) {
            Some(piece) => Ok::<Piece, ParseError>(piece),
            None => Err::<Piece, ParseError>(ParseError::InvalidPiece(character)),
        },
{
    let piece = match character {
        'B' => Piece::new(Color::White, Kind::Bishop),
        'b' => Piece::new(Color::Black, Kind::Bishop),
        'K' => Piece::new(Color::White, Kind::King),
        'k' => Piece::new(Color::Black, Kind::King),
        'N' => Piece::new(Color::White, Kind::Knight),
        'n' => Piece::new(Color::Black, Kind::Knight),
        'P' => Piece::new(Color::White, Kind::Pawn),
        'p' => Piece::new(Color::Black, Kind::Pawn),
        'Q' => Piece::new(Color::White, Kind::Queen),
        'q' => Piece::new(Color::Black, Kind::Queen),
        'R' => Piece::new(Color::White, Kind::Rook),
        'r' => Piece::new(Color::Black, Kind::Rook),
        _ => {
            return Err(ParseError::InvalidPiece(character));
        },
    };
    Ok(piece)
}

/// The number that the digit `character` stands for, if it is a digit from
/// `low` to `9`.
pub fn digit(character: char, low: char) -> (value: Option<u8>)
    ensures
        value == spec_digit(character, low),
{
    if low <= character && character <= '9' && '0' <= low {
        Some((character as u32 - '0' as u32) as u8)
    } else {
        None
    }
}

/// The file that the letter `character` names, or `InvalidFile`.
pub fn parse_file(character: char) -> (file: Result<File, ParseError>)
    ensures
        file == match spec_file_of(character) {
            Some(file) => Ok::<File, ParseError>(file),
            None => Err::<File, ParseError>(ParseError::InvalidFile(character)),
        },
        file matches Ok(file) ==> file.on_board(),
{
    if 'a' <= character && character <= 'h' {
        Ok(File((character as u32 - 'a' as u32 + 1) as u8))
    } else {
        Err(ParseError::InvalidFile(character))
    }
}

/// The rank that the digit `character` names, or `InvalidRank`.
pub fn parse_rank(character: char) -> (rank: Result<Rank, ParseError>)
    ensures
        rank == match spec_rank_of(character) {
            Some(rank) => Ok::<Rank, ParseError>(rank),
            None => Err::<Rank, ParseError>(ParseError::InvalidRank(character)),
        },
        rank matches Ok(rank) ==> rank.on_board(),
{
    if '1' <= character && character <= '8' {
        Ok(Rank((character as u32 - '0' as u32) as u8))
    } else {
        Err(ParseError::InvalidRank(character))
    }
}

/// How the counters kept while reading stand for a `Scan`: the file is kept
/// up to 10 and the rank down to 0, beyond which nothing can be set and no
/// rank can become full.
spec fn tracks(file: u8, rank: u8, placement: Map<Square, Piece>, state: Scan) -> bool {
    &&& 1 <= state.file
    &&& state.rank <= 8
    &&& file == if state.file <= 10 {
        state.file
    } else {
        10
    }
    &&& rank == if state.rank >= 0 {
        state.rank
    } else {
        0
    }
    &&& placement == state.placement
}

/// The pieces that the piece placement field sets, or the first fault in
/// the field: a character that stands for no piece, a rank that is not full
/// when `/` ends it, or anything but eight full ranks at the end.
pub fn parse_piece_placement(piece_placement_field: &str) -> (placement: Result<
    PiecePlacement,
    ParseError,
>)
    ensures
        match spec_parse_piece_placement(piece_placement_field@) {
            Ok(pieces) => placement matches Ok(found) && found@ == pieces,
            Err(error) => placement matches Err(found) && found == error,
        },
{
    let field = piece_placement_field;
    let length = field.unicode_len();
    let mut placement = PiecePlacement::new();
    let mut rank: u8 = 8;
    let mut file: u8 = 1;
    let mut index: usize = 0;
    while index < length
        invariant
            index <= length,
            length == field@.len(),
            field@ == piece_placement_field@,
            spec_scan(field@, index as nat) matches Ok(state) && tracks(
                file,
                rank,
                placement@,
                state,
            ),
        decreases length - index,
    {
        let character = field.get_char(index);
        let ghost state = spec_scan(field@, index as nat)->Ok_0;
        if character == '/' {
            if file != 9 {
                proof {
                    lemma_scan_fault(field@, index as nat + 1);
                }
                return Err(ParseError::IncompletePiecePlacement);
            }
            file = 1;
            if rank > 0 {
                rank = rank - 1;
            }
        } else if '1' <= character && character <= '8' {
            let skip: u8 = (character as u32 - '0' as u32) as u8;
            file = if file + skip > 10 {
                10
            } else {
                file + skip
            };
        } else {
            match parse_piece(character) {
                Err(error) => {
                    proof {
                        lemma_scan_fault(field@, index as nat + 1);
                    }
                    return Err(error);
                },
                Ok(piece) => {
                    if 1 <= file && file <= 8 && 1 <= rank && rank <= 8 {
                        placement.insert(Square::new(File(file), Rank(rank)), piece);
                    }
                    file = if file < 10 {
                        file + 1
                    } else {
                        10
                    };
                },
            }
        }
        index = index + 1;
    }
    if rank == 1 && file == 9 {
        Ok(placement)
    } else {
        Err(ParseError::IncompletePiecePlacement)
    }
}

/// A fault among the first `count` characters of a field is the fault of
/// the whole field.
proof fn lemma_scan_fault(field: Seq<char>, count: nat)
    requires
        count <= field.len(),
        spec_scan(field, count) is Err,
    ensures
        spec_scan(field, field.len()) == spec_scan(field, count),
    decreases field.len() - count,
{
    if count < field.len() {
        lemma_scan_fault(field, count + 1);
    }
}

/// The colour that the active colour field names: white for `w`, black
/// for `b`. In any other field the first character that does not belong is
/// an `InvalidColor`, and an empty field is an `UnexpectedEnd`.
pub fn parse_active_color(active_color_field: &str) -> (color: Result<Color, ParseError>)
    ensures
        color == spec_parse_active_color(active_color_field@),
{
    let length = active_color_field.unicode_len();
    if length == 0 {
        return Err(ParseError::UnexpectedEnd);
    }
    let character = active_color_field.get_char(0);
    if character != 'b' && character != 'w' {
        Err(ParseError::InvalidColor(character))
    } else if length > 1 {
        Err(ParseError::InvalidColor(active_color_field.get_char(1)))
    } else if character == 'b' {
        Ok(Color::Black)
    } else {
        Ok(Color::White)
    }
}

/// Whether `character` grants a castling right: `K`, `Q`, `k` or `q`.
#[verifier::when_used_as_spec(spec_is_castling_letter)]
pub fn is_castling_letter(character: char) -> (letter: bool)
    ensures
        letter == spec_is_castling_letter(character),
{
    character == 'K' || character == 'Q' || character == 'k' || character == 'q'
}

/// A character is among the first `count + 1` of a text if it is among the
/// first `count` or is the one after them.
proof fn lemma_contains_one_more(text: Seq<char>, count: int, character: char)
    requires
        0 <= count < text.len(),
    ensures
        text.take(count + 1).contains(character) <==> text.take(count).contains(character)
            || text[count] == character,
{
    let shorter = text.take(count);
    let longer = text.take(count + 1);
    if shorter.contains(character) {
        let i = choose|i: int| 0 <= i < shorter.len() && shorter[i] == character;
        assert(longer[i] == character);
    }
    if text[count] == character {
        assert(longer[count] == character);
    }
    if longer.contains(character) {
        let i = choose|i: int| 0 <= i < longer.len() && longer[i] == character;
        if i < count {
            assert(shorter[i] == character);
        }
    }
}

/// The castling rights that the castling field grants: none for the field
/// `-`; otherwise one for each of `K`, `Q`, `k` and `q` that the field
/// holds. The first character of the field that is none of the four, a `-`
/// in a longer field too, is an `InvalidCastling`.
pub fn parse_castling_availability(castling_availability_field: &str) -> (rights: Result<
    CastlingAvailability,
    ParseError,
>)
    ensures
        rights == spec_parse_castling_availability(castling_availability_field@),
{
    let field = castling_availability_field;
    let length = field.unicode_len();
    let mut rights = CastlingAvailability::new(false, false, false, false);
    if length == 1 && field.get_char(0) == '-' {
        return Ok(rights);
    }
    let mut index: usize = 0;
    while index < length
        invariant
            index <= length,
            length == field@.len(),
            field@ == castling_availability_field@,
            !(field@.len() == 1 && field@[0] == '-'),
            spec_castling_fault(field@, index as int) == spec_castling_fault(field@, 0),
            rights.white_kingside == field@.take(index as int).contains('K'),
            rights.white_queenside == field@.take(index as int).contains('Q'),
            rights.black_kingside == field@.take(index as int).contains('k'),
            rights.black_queenside == field@.take(index as int).contains('q'),
        decreases length - index,
    {
        let character = field.get_char(index);
        if !is_castling_letter(character) {
            return Err(ParseError::InvalidCastling(character));
        }
        proof {
            lemma_contains_one_more(field@, index as int, 'K');
            lemma_contains_one_more(field@, index as int, 'Q');
            lemma_contains_one_more(field@, index as int, 'k');
            lemma_contains_one_more(field@, index as int, 'q');
        }
        if character == 'K' {
            rights.white_kingside = true;
        } else if character == 'Q' {
            rights.white_queenside = true;
        } else if character == 'k' {
            rights.black_kingside = true;
        } else {
            rights.black_queenside = true;
        }
        index = index + 1;
    }
    assert(field@.take(length as int) =~= field@);
    Ok(rights)
}

/// The square that the en-passant field names, if any: none for the field
/// `-`; otherwise the square named by exactly two characters, a file letter
/// from `a` to `h` and a rank digit from `1` to `8`. The file letter is
/// looked at first. A field that ends after the file letter is an
/// `UnexpectedEnd`, and a character behind the rank digit is an
/// `InvalidRank`.
pub fn parse_en_passant_target_square(en_passant_target_square_field: &str) -> (target: Result<
    Option<Square>,
    ParseError,
>)
    ensures
        target == spec_parse_en_passant(en_passant_target_square_field@),
        target matches Ok(Some(square)) ==> square.on_board(),
{
    let field = en_passant_target_square_field;
    let length = field.unicode_len();
    if length == 1 && field.get_char(0) == '-' {
        return Ok(None);
    }
    match parse_square(field) {
        Err(error) => Err(error),
        Ok(square) => {
            if length > 2 {
                Err(ParseError::InvalidRank(field.get_char(2)))
            } else {
                Ok(Some(square))
            }
        },
    }
}

/// The square that `text` names, such as `e2`: a file letter from `a` to
/// `h`, then a rank digit from `1` to `8`. The square lies on the board.
pub fn parse_square(text: &str) -> (square: Result<Square, ParseError>)
    ensures
        square == spec_parse_square(text@),
        square matches Ok(square) ==> square.on_board(),
{
    let length = text.unicode_len();
    if length == 0 {
        return Err(ParseError::UnexpectedEnd);
    }
    let file = match parse_file(text.get_char(0)) {
        Err(error) => {
            return Err(error);
        },
        Ok(file) => file,
    };
    if length < 2 {
        return Err(ParseError::UnexpectedEnd);
    }
    let rank = match parse_rank(text.get_char(1)) {
        Err(error) => {
            return Err(error);
        },
        Ok(rank) => rank,
    };
    Ok(Square::new(file, rank))
}

impl core::str::FromStr for Square {
    type Err = ParseError;

    /// The square that `text` names, as `parse_square` reads it.
    fn from_str(text: &str) -> (square: Result<Square, ParseError>)
        ensures
            square == spec_parse_square(text@),
    {
        parse_square(text)
    }
}

/// The number written by more digits is no smaller than the number written
/// by the first of them.
proof fn lemma_decimal_grows(digits: Seq<char>, count: int)
    requires
        0 <= count <= digits.len(),
    ensures
        spec_decimal(digits.take(count)) <= spec_decimal(digits),
    decreases digits.len() - count,
{
    if count < digits.len() {
        lemma_decimal_grows(digits, count + 1);
        assert(digits.take(count + 1).drop_last() =~= digits.take(count));
    } else {
        assert(digits.take(count) =~= digits);
    }
}

/// The number that a counter field writes: one or more digits, after at
/// most one `+`. Anything else, and a number that does not fit in sixteen
/// bits, is an `InvalidNumber`.
pub fn parse_number(field: &str) -> (number: Result<u16, ParseError>)
    ensures
        number == spec_parse_number(field@),
{
    let length = field.unicode_len();
    let start: usize = if length > 0 && field.get_char(0) == '+' {
        1
    } else {
        0
    };
    let ghost digits = spec_unsigned(field@);
    if start >= length {
        return Err(ParseError::InvalidNumber);
    }
    let mut value: u32 = 0;
    let mut index: usize = start;
    while index < length
        invariant
            start <= index <= length,
            length == field@.len(),
            digits == field@.skip(start as int),
            digits == spec_unsigned(field@),
            spec_all_digits(digits.take(index - start)),
            value == spec_decimal(digits.take(index - start)),
            value <= u16::MAX,
        decreases length - index,
    {
        let character = field.get_char(index);
        let ghost read = digits.take(index - start);
        let ghost more = digits.take(index - start + 1);
        assert(more.drop_last() =~= read);
        assert(more.last() == character);
        match digit(character, '0') {
            None => {
                assert(!spec_all_digits(digits)) by {
                    assert(digits[index - start] == character);
                }
                return Err(ParseError::InvalidNumber);
            },
            Some(units) => {
                let next: u32 = value * 10 + units as u32;
                if next > 65535 {
                    proof {
                        lemma_decimal_grows(digits, index - start + 1);
                    }
                    return Err(ParseError::InvalidNumber);
                }
                value = next;
                assert(spec_all_digits(more)) by {
                    assert forall|i: int| 0 <= i < more.len() implies spec_digit(
                        #[trigger] more[i],
                        '0',
                    ) is Some by {
                        if i < read.len() {
                            assert(more[i] == read[i]);
                        }
                    }
                }
            },
        }
        index = index + 1;
    }
    assert(digits.take(length - start) =~= digits);
    Ok(value as u16)
}

/// Reads a position from a record in Forsyth–Edwards Notation.
///
/// The six fields are read in order, and reading stops at the first fault:
/// a missing field is an `UnexpectedEnd`, and each field has its own faults.
/// What follows the sixth field is not read. No board comes of a faulty
/// record.
pub fn parse_forsyth_edwards_notation(record: &str) -> (board: Result<Board, ParseError>)
    ensures
        match spec_parse_forsyth_edwards_notation(record@) {
            Ok(position) => board matches Ok(found) && found@ == position,
            Err(error) => board matches Err(found) && found == error,
        },
{
    let mut fields = FieldIterator::new(record);
    let field = match fields.next() {
        Err(error) => {
            return Err(error);
        },
        Ok(field) => field,
    };
    let piece_placement = match parse_piece_placement(field) {
        Err(error) => {
            return Err(error);
        },
        Ok(piece_placement) => piece_placement,
    };
    let field = match fields.next() {
        Err(error) => {
            return Err(error);
        },
        Ok(field) => field,
    };
    let active_color = match parse_active_color(field) {
        Err(error) => {
            return Err(error);
        },
        Ok(active_color) => active_color,
    };
    let field = match fields.next() {
        Err(error) => {
            return Err(error);
        },
        Ok(field) => field,
    };
    let castling_availability = match parse_castling_availability(field) {
        Err(error) => {
            return Err(error);
        },
        Ok(castling_availability) => castling_availability,
    };
    let field = match fields.next() {
        Err(error) => {
            return Err(error);
        },
        Ok(field) => field,
    };
    let en_passant_target = match parse_en_passant_target_square(field) {
        Err(error) => {
            return Err(error);
        },
        Ok(en_passant_target) => en_passant_target,
    };
    let field = match fields.next() {
        Err(error) => {
            return Err(error);
        },
        Ok(field) => field,
    };
    let halfmove_clock = match parse_number(field) {
        Err(error) => {
            return Err(error);
        },
        Ok(halfmove_clock) => halfmove_clock,
    };
    let field = match fields.next() {
        Err(error) => {
            return Err(error);
        },
        Ok(field) => field,
    };
    let fullmove_number = match parse_number(field) {
        Err(error) => {
            return Err(error);
        },
        Ok(fullmove_number) => fullmove_number,
    };
    Ok(
        Board::new(
            piece_placement,
            active_color,
            castling_availability,
            en_passant_target,
            halfmove_clock,
            fullmove_number,
        ),
    )
}

impl Board {
    /// Reads a position from a record in Forsyth–Edwards Notation, as
    /// `parse_forsyth_edwards_notation` does.
    pub fn forsyth_edwards_notation(record: &str) -> (board: Result<Board, ParseError>)
        ensures
            match spec_parse_forsyth_edwards_notation(record@) {
                Ok(position) => board matches Ok(found) && found@ == position,
                Err(error) => board matches Err(found) && found == error,
            },
    {
        parse_forsyth_edwards_notation(record)
    }
}

} // verus!
