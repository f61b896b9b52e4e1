//! Writing a position and reading it back gives the same position.

use super::encoder::{
    spec_digit_char, spec_encode_active_color, spec_encode_castling_availability,
    spec_encode_en_passant, spec_encode_files, spec_encode_number, spec_encode_piece_placement,
    spec_encode_ranks, spec_run,
};
use super::field_iterator::{
    spec_field_end, spec_field_start, spec_is_whitespace, spec_next_field,
};
use super::{
    spec_all_digits, spec_castling_fault, spec_decimal, spec_digit, spec_is_castling_letter,
    spec_parse_active_color, spec_parse_castling_availability, spec_parse_counters,
    spec_parse_en_passant, spec_parse_forsyth_edwards_notation, spec_parse_number,
    spec_parse_piece_placement, spec_piece_of, spec_scan, spec_scan_start, spec_scan_step,
    spec_unsigned, ParseError, Scan,
};
use crate::board::placement::{on_board_only, piece_on};
use crate::board::{CastlingAvailability, File, Position, Rank, Square};
use crate::piece::Piece;
use vstd::prelude::*;

verus! {

/// Whether `text` holds no white space.
pub open spec fn spec_plain(text: Seq<char>) -> bool {
    forall|i: int| 0 <= i < text.len() ==> !spec_is_whitespace(#[trigger] text[i])
}

/// Whether a position is one that a record can describe: its pieces stand
/// on squares of the board, its en-passant target, if any, is one too, and
/// its counters fit in sixteen bits.
pub open spec fn spec_recordable(position: Position) -> bool {
    &&& on_board_only(position.placement)
    &&& position.en_passant_target matches Some(square) ==> square.on_board()
    &&& position.halfmove_clock <= u16::MAX
    &&& position.fullmove_number <= u16::MAX
}

/// How far the first `count` characters of `chars` lead from `state`, or
/// the first fault among them.
pub open spec fn spec_scan_from(state: Scan, chars: Seq<char>, count: nat) -> Result<
    Scan,
    ParseError,
>
    decreases count,
{
    if count == 0 {
        Ok(state)
    } else {
        match spec_scan_from(state, chars, (count - 1) as nat) {
            Err(error) => Err(error),
            Ok(before) => spec_scan_step(before, chars[count - 1]),
        }
    }
}

/// The part of `placement` that has been read when the square on `file` of
/// `rank` comes next: the ranks above `rank`, and the files of `rank`
/// before `file`.
pub open spec fn spec_read_before(
    placement: Map<Square, Piece>,
    rank: int,
    file: int,
) -> Map<Square, Piece> {
    Map::new(
        |square: Square|
            placement.dom().contains(square) && (square.rank.0 > rank || (square.rank.0 == rank
                && square.file.0 < file)),
        |square: Square| placement[square],
    )
}

/// The square on `file` of `rank`.
pub open spec fn spec_square_on(file: int, rank: int) -> Square {
    Square { file: File(file as u8), rank: Rank(rank as u8) }
}

proof fn lemma_scan_is_scan_from(field: Seq<char>, count: nat)
    ensures
        spec_scan(field, count) == spec_scan_from(spec_scan_start(), field, count),
    decreases count,
{
    if count > 0 {
        lemma_scan_is_scan_from(field, (count - 1) as nat);
    }
}

proof fn lemma_scan_from_prefix(state: Scan, first: Seq<char>, second: Seq<char>, count: nat)
    requires
        count <= first.len(),
        count <= second.len(),
        forall|i: int| 0 <= i < count ==> first[i] == second[i],
    ensures
        spec_scan_from(state, first, count) == spec_scan_from(state, second, count),
    decreases count,
{
    if count > 0 {
        lemma_scan_from_prefix(state, first, second, (count - 1) as nat);
    }
}

/// Reading one text after another is reading the first and going on from
/// there with the second.
proof fn lemma_scan_from_concat(state: Scan, first: Seq<char>, second: Seq<char>, count: nat)
    requires
        count <= second.len(),
    ensures
        spec_scan_from(state, first + second, first.len() + count) == match spec_scan_from(
            state,
            first,
            first.len(),
        ) {
            Err(error) => Err(error),
            Ok(middle) => spec_scan_from(middle, second, count),
        },
    decreases count,
{
    if count == 0 {
        lemma_scan_from_prefix(state, first + second, first, first.len());
    } else {
        lemma_scan_from_concat(state, first, second, (count - 1) as nat);
        assert((first + second)[first.len() + count - 1] == second[count - 1]);
    }
}

/// The letter of a piece stands for that piece and for nothing else.
proof fn lemma_letter(piece: Piece)
    ensures
        spec_piece_of(piece.spec_board_representation()) == Some(piece),
        piece.spec_board_representation() != '/',
        !('1' <= piece.spec_board_representation() && piece.spec_board_representation() <= '8'),
        !spec_is_whitespace(piece.spec_board_representation()),
{
}

/// The digit of a run is a digit from 1 to 8 that stands for its length.
proof fn lemma_run(run: int)
    requires
        1 <= run <= 8,
    ensures
        '1' <= spec_digit_char(run) && spec_digit_char(run) <= '8',
        spec_digit_char(run) as u32 - '0' as u32 == run,
        spec_digit_char(run) != '/',
        !spec_is_whitespace(spec_digit_char(run)),
{
}

/// Reading the rest of a rank as it is written sets the pieces of that rest
/// and ends on the ninth file.
proof fn lemma_files_read_back(placement: Map<Square, Piece>, rank: int, file: int, run: int)
    requires
        1 <= rank <= 8,
        1 <= file <= 9,
        0 <= run < file,
        forall|empty: int|
            file - run <= empty < file ==> #[trigger] piece_on(
                placement,
                spec_square_on(empty, rank),
            ) is None,
    ensures
        ({
            let text = spec_encode_files(placement, rank, file, run);
            spec_scan_from(
                Scan { file: file - run, rank, placement: spec_read_before(placement, rank, file) },
                text,
                text.len(),
            ) == Ok::<Scan, ParseError>(
                Scan { file: 9, rank, placement: spec_read_before(placement, rank, 9) },
            )
        }),
    decreases 9 - file,
{
    let text = spec_encode_files(placement, rank, file, run);
    let read = spec_read_before(placement, rank, file);
    let state = Scan { file: file - run, rank, placement: read };
    reveal_with_fuel(spec_scan_from, 3);
    if file == 9 {
        if run >= 1 {
            lemma_run(run);
            assert(text[0] == spec_digit_char(run));
        }
    } else {
        let square = Square { file: File(file as u8), rank: Rank(rank as u8) };
        match piece_on(placement, square) {
            None => {
                assert(spec_read_before(placement, rank, file + 1) =~= read);
                assert forall|empty: int|
                    file + 1 - (run + 1) <= empty < file + 1 implies #[trigger] piece_on(
                    placement,
                    spec_square_on(empty, rank),
                ) is None by {
                    if empty == file {
                        assert(spec_square_on(empty, rank) == square);
                    }
                }
                lemma_files_read_back(placement, rank, file + 1, run + 1);
            },
            Some(piece) => {
                let letter = piece.spec_board_representation();
                let head = spec_run(run) + seq![letter];
                let rest = spec_encode_files(placement, rank, file + 1, 0);
                assert(text =~= head + rest);
                lemma_letter(piece);
                let next = Scan {
                    file: file + 1,
                    rank,
                    placement: spec_read_before(placement, rank, file + 1),
                };
                assert(read.insert(square, piece) =~= spec_read_before(placement, rank, file + 1));
                if run >= 1 {
                    lemma_run(run);
                    assert(head[0] == spec_digit_char(run));
                    assert(head[1] == letter);
                    assert(spec_scan_from(state, head, 1) == Ok::<Scan, ParseError>(
                        Scan { file, rank, placement: read },
                    ));
                    assert(spec_scan_from(state, head, 2) == Ok::<Scan, ParseError>(next));
                } else {
                    assert(head[0] == letter);
                    assert(spec_scan_from(state, head, 1) == Ok::<Scan, ParseError>(next));
                }
                lemma_scan_from_concat(state, head, rest, rest.len());
                lemma_files_read_back(placement, rank, file + 1, 0);
            },
        }
    }
}

/// Reading the ranks from the eighth down to `rank` as they are written
/// sets the pieces of those ranks and ends on the ninth file of `rank`.
proof fn lemma_ranks_read_back(placement: Map<Square, Piece>, rank: int)
    requires
        1 <= rank <= 8,
        on_board_only(placement),
    ensures
        ({
            let text = spec_encode_ranks(placement, rank);
            spec_scan_from(spec_scan_start(), text, text.len()) == Ok::<Scan, ParseError>(
                Scan { file: 9, rank, placement: spec_read_before(placement, rank, 9) },
            )
        }),
    decreases 9 - rank,
{
    let text = spec_encode_ranks(placement, rank);
    let files = spec_encode_files(placement, rank, 1, 0);
    lemma_files_read_back(placement, rank, 1, 0);
    if rank == 8 {
        assert(spec_read_before(placement, 8, 1) =~= Map::<Square, Piece>::empty());
    } else {
        let above = spec_encode_ranks(placement, rank + 1);
        let head = above + seq!['/'];
        assert(text =~= head + files);
        lemma_ranks_read_back(placement, rank + 1);
        reveal_with_fuel(spec_scan_from, 2);
        lemma_scan_from_concat(spec_scan_start(), above, seq!['/'], 1);
        assert(seq!['/'][0] == '/');
        assert(spec_read_before(placement, rank + 1, 9) =~= spec_read_before(placement, rank, 1));
        lemma_scan_from_concat(spec_scan_start(), head, files, files.len());
    }
}

/// The written form of the rest of a rank holds no white space, and is not
/// empty if squares are left or a run is pending.
proof fn lemma_files_text(placement: Map<Square, Piece>, rank: int, file: int, run: int)
    requires
        1 <= file <= 9,
        0 <= run < file,
    ensures
        spec_plain(spec_encode_files(placement, rank, file, run)),
        file <= 8 || run >= 1 ==> spec_encode_files(placement, rank, file, run).len() > 0,
    decreases 9 - file,
{
    let text = spec_encode_files(placement, rank, file, run);
    if file == 9 {
        if run >= 1 {
            lemma_run(run);
        }
    } else {
        let square = Square { file: File(file as u8), rank: Rank(rank as u8) };
        match piece_on(placement, square) {
            None => {
                lemma_files_text(placement, rank, file + 1, run + 1);
            },
            Some(piece) => {
                lemma_files_text(placement, rank, file + 1, 0);
                lemma_letter(piece);
                if run >= 1 {
                    lemma_run(run);
                }
                let head = spec_run(run) + seq![piece.spec_board_representation()];
                let rest = spec_encode_files(placement, rank, file + 1, 0);
                assert(spec_plain(head));
                lemma_plain_add(head, rest);
            },
        }
    }
}

/// One text without white space after another holds no white space.
proof fn lemma_plain_add(first: Seq<char>, second: Seq<char>)
    requires
        spec_plain(first),
        spec_plain(second),
    ensures
        spec_plain(first + second),
{
    let all = first + second;
    assert forall|i: int| 0 <= i < all.len() implies !spec_is_whitespace(#[trigger] all[i]) by {
        if i < first.len() {
            assert(all[i] == first[i]);
        } else {
            assert(all[i] == second[i - first.len()]);
        }
    }
}

proof fn lemma_ranks_text(placement: Map<Square, Piece>, rank: int)
    requires
        1 <= rank <= 8,
    ensures
        spec_plain(spec_encode_ranks(placement, rank)),
        spec_encode_ranks(placement, rank).len() > 0,
    decreases 9 - rank,
{
    lemma_files_text(placement, rank, 1, 0);
    if rank < 8 {
        lemma_ranks_text(placement, rank + 1);
        let above = spec_encode_ranks(placement, rank + 1);
        assert(spec_plain(seq!['/']));
        lemma_plain_add(above, seq!['/']);
        lemma_plain_add(above + seq!['/'], spec_encode_files(placement, rank, 1, 0));
    }
}

/// The piece placement field that is written for a placement reads back as
/// that placement.
pub proof fn lemma_piece_placement_reads_back(placement: Map<Square, Piece>)
    requires
        on_board_only(placement),
    ensures
        spec_parse_piece_placement(spec_encode_piece_placement(placement)) == Ok::<
            Map<Square, Piece>,
            ParseError,
        >(placement),
        spec_plain(spec_encode_piece_placement(placement)),
        spec_encode_piece_placement(placement).len() > 0,
{
    let text = spec_encode_piece_placement(placement);
    lemma_ranks_read_back(placement, 1);
    lemma_ranks_text(placement, 1);
    lemma_scan_is_scan_from(text, text.len());
    assert(spec_read_before(placement, 1, 9) =~= placement);
}

/// The digits written for a number spell that number, without a sign.
proof fn lemma_number_text(value: nat)
    ensures
        spec_encode_number(value).len() > 0,
        spec_all_digits(spec_encode_number(value)),
        spec_decimal(spec_encode_number(value)) == value,
        spec_encode_number(value)[0] != '+',
        spec_plain(spec_encode_number(value)),
    decreases value,
{
    let text = spec_encode_number(value);
    let units = spec_digit_char((value % 10) as int);
    assert(spec_digit(units, '0') is Some && units as u32 - '0' as u32 == value % 10
        && !spec_is_whitespace(units) && units != '+');
    assert(spec_decimal(text) == spec_decimal(text.drop_last()) * 10 + (text.last() as u32
        - '0' as u32) as nat);
    if value < 10 {
        assert(text.drop_last() =~= Seq::<char>::empty());
        assert(spec_decimal(Seq::<char>::empty()) == 0);
        assert(text.last() == units);
    } else {
        lemma_number_text(value / 10);
        let tens = spec_encode_number(value / 10);
        assert(text.drop_last() =~= tens);
        assert(text.last() == units);
        assert forall|i: int| 0 <= i < text.len() implies spec_digit(
            #[trigger] text[i],
            '0',
        ) is Some && !spec_is_whitespace(text[i]) by {
            if i < tens.len() {
                assert(text[i] == tens[i]);
            }
        }
        assert(text[0] == tens[0]);
    }
}

/// The number field that is written for a counter reads back as that
/// counter.
pub proof fn lemma_number_reads_back(value: nat)
    requires
        value <= u16::MAX,
    ensures
        spec_parse_number(spec_encode_number(value)) == Ok::<u16, ParseError>(value as u16),
        spec_plain(spec_encode_number(value)),
        spec_encode_number(value).len() > 0,
{
    lemma_number_text(value);
    assert(spec_unsigned(spec_encode_number(value)) == spec_encode_number(value));
}

/// The castling field that is written for some rights reads back as those
/// rights.
pub proof fn lemma_castling_reads_back(rights: CastlingAvailability)
    ensures
        spec_parse_castling_availability(spec_encode_castling_availability(rights)) == Ok::<
            CastlingAvailability,
            ParseError,
        >(rights),
        spec_plain(spec_encode_castling_availability(rights)),
        spec_encode_castling_availability(rights).len() > 0,
{
    let text = spec_encode_castling_availability(rights);
    let one: int = if rights.white_kingside {
        1
    } else {
        0
    };
    let two: int = if rights.white_queenside {
        one + 1
    } else {
        one
    };
    let three: int = if rights.black_kingside {
        two + 1
    } else {
        two
    };
    let four: int = if rights.black_queenside {
        three + 1
    } else {
        three
    };
    if four == 0 {
        assert(text[0] == '-');
    } else {
        assert(text.len() == four);
        assert forall|i: int| 0 <= i < text.len() implies {
            &&& #[trigger] text[i] == 'K' <==> rights.white_kingside && i == 0
            &&& text[i] == 'Q' <==> rights.white_queenside && i == one
            &&& text[i] == 'k' <==> rights.black_kingside && i == two
            &&& text[i] == 'q' <==> rights.black_queenside && i == three
            &&& spec_is_castling_letter(text[i])
        } by {}
        lemma_no_castling_fault(text, 0);
        if rights.white_kingside {
            assert(text[0] == 'K');
        }
        if rights.white_queenside {
            assert(text[one] == 'Q');
        }
        if rights.black_kingside {
            assert(text[two] == 'k');
        }
        if rights.black_queenside {
            assert(text[three] == 'q');
        }
        assert(text.contains('K') == rights.white_kingside);
        assert(text.contains('Q') == rights.white_queenside);
        assert(text.contains('k') == rights.black_kingside);
        assert(text.contains('q') == rights.black_queenside);
    }
}

/// A text made of castling letters alone holds no fault.
proof fn lemma_no_castling_fault(field: Seq<char>, from: int)
    requires
        0 <= from <= field.len(),
        forall|i: int| from <= i < field.len() ==> spec_is_castling_letter(#[trigger] field[i]),
    ensures
        spec_castling_fault(field, from) == field.len(),
    decreases field.len() - from,
{
    if from < field.len() {
        lemma_no_castling_fault(field, from + 1);
    }
}

/// The en-passant field that is written for a target reads back as that
/// target.
pub proof fn lemma_en_passant_reads_back(target: Option<Square>)
    requires
        target matches Some(square) ==> square.on_board(),
    ensures
        spec_parse_en_passant(spec_encode_en_passant(target)) == Ok::<Option<Square>, ParseError>(
            target,
        ),
        spec_plain(spec_encode_en_passant(target)),
        spec_encode_en_passant(target).len() > 0,
{
    match target {
        Some(square) => {
            let text = square.spec_name();
            assert(text[0] == square.file.spec_letter());
            assert(text[1] == square.rank.spec_digit());
        },
        None => {},
    }
}

/// A run of characters that are not white space, with white space or the
/// end of the text behind it, ends where the white space begins.
proof fn lemma_field_end_at(text: Seq<char>, from: int, length: int)
    requires
        0 <= from,
        0 <= length,
        from + length <= text.len(),
        forall|i: int| from <= i < from + length ==> !spec_is_whitespace(#[trigger] text[i]),
        from + length == text.len() || spec_is_whitespace(text[from + length]),
    ensures
        spec_field_end(text, from) == from + length,
    decreases length,
{
    if length > 0 {
        lemma_field_end_at(text, from + 1, length - 1);
    }
}

/// Where a text goes on, from place `from`, with at most one space, then a
/// field without white space, then white space or nothing, the next field
/// from `from` is that field, and the text goes on behind it with what
/// followed.
proof fn lemma_field_at(
    text: Seq<char>,
    from: int,
    lead: Seq<char>,
    field: Seq<char>,
    tail: Seq<char>,
)
    requires
        0 <= from <= text.len(),
        text.skip(from) == lead + field + tail,
        lead.len() == 0 || lead == seq![' '],
        field.len() > 0,
        spec_plain(field),
        tail.len() == 0 || spec_is_whitespace(tail[0]),
    ensures
        spec_next_field(text, from) == Some((field, from + lead.len() + field.len())),
        from + lead.len() + field.len() <= text.len(),
        text.skip(from + lead.len() + field.len()) == tail,
{
    let rest = text.skip(from);
    let start = from + lead.len();
    let end = start + field.len();
    assert(rest.len() == lead.len() + field.len() + tail.len());
    assert forall|i: int| 0 <= i < rest.len() implies text[from + i] == #[trigger] rest[i] by {}
    assert(text[start] == rest[lead.len() as int]);
    assert(rest[lead.len() as int] == field[0]);
    reveal_with_fuel(spec_field_start, 2);
    if lead.len() == 1 {
        assert(text[from] == rest[0]);
        assert(rest[0] == ' ');
    }
    assert(spec_field_start(text, from) == start);
    assert forall|i: int| start <= i < end implies !spec_is_whitespace(#[trigger] text[i]) by {
        assert(text[i] == rest[i - from]);
        assert(rest[i - from] == field[i - start]);
    }
    if tail.len() > 0 {
        assert(text[end] == rest[end - from]);
        assert(rest[end - from] == tail[0]);
    }
    lemma_field_end_at(text, start, field.len() as int);
    assert forall|i: int| 0 <= i < field.len() implies text.subrange(start, end)[i]
        == field[i] by {
        assert(text[start + i] == rest[start + i - from]);
        assert(rest[start + i - from] == field[i]);
    }
    assert(text.subrange(start, end) =~= field);
    assert forall|i: int| 0 <= i < tail.len() implies text.skip(end)[i] == tail[i] by {
        assert(text[end + i] == rest[end + i - from]);
        assert(rest[end + i - from] == tail[i]);
    }
    assert(text.skip(end) =~= tail);
}

/// What follows the third field of the record of `position`.
spec fn spec_after_third(position: Position) -> Seq<char> {
    seq![' '] + spec_encode_en_passant(position.en_passant_target) + (seq![' ']
        + spec_encode_number(position.halfmove_clock) + (seq![' '] + spec_encode_number(
        position.fullmove_number,
    ) + Seq::<char>::empty()))
}

/// What follows the first field of the record of `position`.
spec fn spec_after_first(position: Position) -> Seq<char> {
    seq![' '] + spec_encode_active_color(position.active_color) + (seq![' ']
        + spec_encode_castling_availability(position.castling_availability) + spec_after_third(
        position,
    ))
}

/// Three texts in a row are the same text however they are joined.
proof fn lemma_add_assoc(first: Seq<char>, second: Seq<char>, third: Seq<char>)
    ensures
        (first + second) + third == first + (second + third),
{
    assert((first + second) + third =~= first + (second + third));
}

/// A text with a space and a field behind it, and then more, is the text
/// with all of that behind it.
proof fn lemma_add_field(before: Seq<char>, field: Seq<char>, after: Seq<char>)
    ensures
        ((before + seq![' ']) + field) + after == before + ((seq![' '] + field) + after),
{
    lemma_add_assoc(before, seq![' '], field);
    lemma_add_assoc(before, seq![' '] + field, after);
}

/// The record of a position is its first field and then what follows it.
proof fn lemma_record_text(position: Position)
    ensures
        position.forsyth_edwards_notation().skip(0) == Seq::<char>::empty()
            + spec_encode_piece_placement(position.placement) + spec_after_first(position),
{
    let text = position.forsyth_edwards_notation();
    let space = seq![' '];
    let none = Seq::<char>::empty();
    let first = spec_encode_piece_placement(position.placement);
    let second = spec_encode_active_color(position.active_color);
    let third = spec_encode_castling_availability(position.castling_availability);
    let fourth = spec_encode_en_passant(position.en_passant_target);
    let fifth = spec_encode_number(position.halfmove_clock);
    let sixth = spec_encode_number(position.fullmove_number);
    let after_fifth = space + sixth + none;
    let after_fourth = space + fifth + after_fifth;
    let after_third = space + fourth + after_fourth;
    let after_second = space + third + after_third;
    let after_first = space + second + after_second;
    let upto_second = first + space + second;
    let upto_third = upto_second + space + third;
    let upto_fourth = upto_third + space + fourth;
    let upto_fifth = upto_fourth + space + fifth;
    assert(text == upto_fifth + space + sixth);
    assert(text =~= upto_fifth + space + sixth + none);
    lemma_add_field(upto_fifth, sixth, none);
    lemma_add_field(upto_fourth, fifth, after_fifth);
    lemma_add_field(upto_third, fourth, after_fourth);
    lemma_add_field(upto_second, third, after_third);
    lemma_add_field(first, second, after_second);
    assert(text == first + after_first);
    assert(after_first == spec_after_first(position));
    assert(none + first =~= first);
    assert(text.skip(0) =~= text);
}

/// The last three fields of the record of a position read back as its
/// en-passant target and its two counters.
proof fn lemma_counters_read_back(text: Seq<char>, from: int, position: Position)
    requires
        spec_recordable(position),
        0 <= from <= text.len(),
        text.skip(from) == spec_after_third(position),
    ensures
        spec_parse_counters(
            text,
            from,
            position.placement,
            position.active_color,
            position.castling_availability,
        ) == Ok::<Position, ParseError>(position),
{
    let space = seq![' '];
    let none = Seq::<char>::empty();
    let fourth = spec_encode_en_passant(position.en_passant_target);
    let fifth = spec_encode_number(position.halfmove_clock);
    let sixth = spec_encode_number(position.fullmove_number);
    let after_fifth = space + sixth + none;
    let after_fourth = space + fifth + after_fifth;
    lemma_en_passant_reads_back(position.en_passant_target);
    lemma_number_reads_back(position.halfmove_clock);
    lemma_number_reads_back(position.fullmove_number);
    assert(spec_is_whitespace(' '));
    assert(after_fourth[0] == ' ' && after_fifth[0] == ' ');
    lemma_field_at(text, from, space, fourth, after_fourth);
    let four = from + 1 + fourth.len();
    lemma_field_at(text, four, space, fifth, after_fifth);
    let five = four + 1 + fifth.len();
    lemma_field_at(text, five, space, sixth, none);
}

/// Reading the record that is written for a position gives that position.
///
/// This holds of every position that a record can describe, and so of
/// every position that comes of reading a record.
pub proof fn lemma_record_reads_back(position: Position)
    requires
        spec_recordable(position),
    ensures
        spec_parse_forsyth_edwards_notation(position.forsyth_edwards_notation()) == Ok::<
            Position,
            ParseError,
        >(position),
{
    let text = position.forsyth_edwards_notation();
    let space = seq![' '];
    let none = Seq::<char>::empty();
    let first = spec_encode_piece_placement(position.placement);
    let second = spec_encode_active_color(position.active_color);
    let third = spec_encode_castling_availability(position.castling_availability);
    let after_third = spec_after_third(position);
    let after_second = space + third + after_third;
    let after_first = spec_after_first(position);
    lemma_piece_placement_reads_back(position.placement);
    lemma_castling_reads_back(position.castling_availability);
    assert(spec_plain(second) && second.len() == 1);
    assert(spec_parse_active_color(second) == Ok::<crate::piece::Color, ParseError>(
        position.active_color,
    ));
    assert(spec_is_whitespace(' '));
    assert(after_first[0] == ' ' && after_second[0] == ' ' && after_third[0] == ' ');
    lemma_record_text(position);
    lemma_field_at(text, 0, none, first, after_first);
    let one = first.len() as int;
    lemma_field_at(text, one, space, second, after_second);
    let two = one + 1 + second.len();
    lemma_field_at(text, two, space, third, after_third);
    let three = two + 1 + third.len();
    lemma_counters_read_back(text, three, position);
}

/// Reading sets pieces on squares of the board only.
proof fn lemma_scan_on_board(field: Seq<char>, count: nat)
    ensures
        spec_scan(field, count) matches Ok(state) ==> on_board_only(state.placement),
    decreases count,
{
    if count > 0 {
        lemma_scan_on_board(field, (count - 1) as nat);
    }
}

/// Every position that comes of reading a record is one that a record can
/// describe, so writing it and reading it back gives the same position.
pub proof fn lemma_read_positions_are_recordable(record: Seq<char>)
    ensures
        spec_parse_forsyth_edwards_notation(record) matches Ok(position) ==> {
            &&& spec_recordable(position)
            &&& spec_parse_forsyth_edwards_notation(position.forsyth_edwards_notation()) == Ok::<
                Position,
                ParseError,
            >(position)
        },
{
    if let Ok(position) = spec_parse_forsyth_edwards_notation(record) {
        let (first, _) = spec_next_field(record, 0)->Some_0;
        lemma_scan_on_board(first, first.len());
        lemma_record_reads_back(position);
    }
}

impl crate::board::Board {
    /// Reading the record that is written for this board gives its position
    /// back, provided its en-passant target, if any, is a square of the
    /// board.
    pub proof fn lemma_record_reads_back(&self)
        requires
            self@.en_passant_target matches Some(square) ==> square.on_board(),
        ensures
            spec_parse_forsyth_edwards_notation(self@.forsyth_edwards_notation()) == Ok::<
                Position,
                ParseError,
            >(self@),
    {
        self.lemma_view();
        lemma_record_reads_back(self@);
    }
}

} // verus!
