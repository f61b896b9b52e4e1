//! Steps on the board: a change of file together with a change of rank.

use vstd::prelude::*;
use vstd::std_specs::ops::MulSpecImpl;

verus! {

/// `value + offset`, held within the range of `u8`.
pub open spec fn spec_saturating_shift(value: u8, offset: i8) -> u8 {
    if value + offset < 0 {
        0u8
    } else if value + offset > 255 {
        255u8
    } else {
        (value + offset) as u8
    }
}

/// `value + offset`, held within the range of `u8`.
#[verifier::when_used_as_spec(spec_saturating_shift)]
pub fn saturating_shift(value: u8, offset: i8) -> (shifted: u8)
    ensures
        shifted == spec_saturating_shift(value, offset),
{
    let wide: i16 = value as i16 + offset as i16;
    if wide < 0 {
        0
    } else if wide > 255 {
        255
    } else {
        wide as u8
    }
}

/// A step from one square to another. It is plain arithmetic and stands for
/// nothing on the board by itself.
#[derive(Debug, Clone, Copy, PartialEq, Eq, Hash, Structural)]
pub struct Offset {
    /// The change of file: positive towards the h-file.
    pub file: i8,
    /// The change of rank: positive towards the eighth rank.
    pub rank: i8,
}

impl Offset {
    /// This step taken `factor` times over.
    pub open spec fn spec_scale(self, factor: u8) -> Offset {
        Offset { file: (self.file * factor) as i8, rank: (self.rank * factor) as i8 }
    }

    /// Whether this step taken `factor` times over can be written as an
    /// `Offset`.
    pub open spec fn scale_fits(self, factor: u8) -> bool {
        &&& -128 <= self.file * factor <= 127
        &&& -128 <= self.rank * factor <= 127
    }

    /// The eight jumps of a knight, in the order in which they are tried.
    pub open spec fn spec_knight_jumps() -> Seq<Offset> {
        seq![
            Offset { file: 1, rank: 2 },
            Offset { file: 2, rank: 1 },
            Offset { file: 2, rank: -1i8 },
            Offset { file: 1, rank: -2i8 },
            Offset { file: -1i8, rank: -2i8 },
            Offset { file: -2i8, rank: -1i8 },
            Offset { file: -2i8, rank: 1 },
            Offset { file: -1i8, rank: 2 },
        ]
    }

    /// The eight steps of a king, in the order in which they are tried:
    /// along the rank, along the file, then the diagonals.
    pub open spec fn spec_king_steps() -> Seq<Offset> {
        seq![
            Offset { file: 1, rank: 0 },
            Offset { file: -1i8, rank: 0 },
            Offset { file: 0, rank: 1 },
            Offset { file: 0, rank: -1i8 },
            Offset { file: 1, rank: 1 },
            Offset { file: 1, rank: -1i8 },
            Offset { file: -1i8, rank: 1 },
            Offset { file: -1i8, rank: -1i8 },
        ]
    }

    /// The step that changes the file by `file` and the rank by `rank`.
    pub fn new(file: i8, rank: i8) -> (offset: Offset)
        ensures
            offset == (Offset { file, rank }),
    {
        Offset { file, rank }
    }

    /// The change of file.
    pub fn file(&self) -> (file: i8)
        ensures
            file == self.file,
    {
        self.file
    }

    /// The change of rank.
    pub fn rank(&self) -> (rank: i8)
        ensures
            rank == self.rank,
    {
        self.rank
    }

    /// The eight jumps of a knight.
    pub fn knight_jumps() -> (jumps: [Offset; 8])
        ensures
            jumps@ == Offset::spec_knight_jumps(),
    {
        let jumps = [
            Offset { file: 1, rank: 2 },
            Offset { file: 2, rank: 1 },
            Offset { file: 2, rank: -1 },
            Offset { file: 1, rank: -2 },
            Offset { file: -1, rank: -2 },
            Offset { file: -2, rank: -1 },
            Offset { file: -2, rank: 1 },
            Offset { file: -1, rank: 2 },
        ];
        assert(jumps@ =~= Offset::spec_knight_jumps());
        jumps
    }

    /// The eight steps of a king.
    pub fn king_steps() -> (steps: [Offset; 8])
        ensures
            steps@ == Offset::spec_king_steps(),
    {
        let steps = [
            Offset { file: 1, rank: 0 },
            Offset { file: -1, rank: 0 },
            Offset { file: 0, rank: 1 },
            Offset { file: 0, rank: -1 },
            Offset { file: 1, rank: 1 },
            Offset { file: 1, rank: -1 },
            Offset { file: -1, rank: 1 },
            Offset { file: -1, rank: -1 },
        ];
        assert(steps@ =~= Offset::spec_king_steps());
        steps
    }

    /// This step taken `factor` times over, or `None` where that cannot be
    /// written as an `Offset`.
    pub fn scale(&self, factor: u8) -> (scaled: Option<Offset>)
        ensures
            scaled == if self.scale_fits(factor) {
                Some(self.spec_scale(factor))
            } else {
                None::<Offset>
            },
    {
        let file: i16 = self.file as i16;
        let rank: i16 = self.rank as i16;
        let wide: i16 = factor as i16;
        assert(-128 * 255 <= file * wide <= 127 * 255) by (nonlinear_arith)
            requires
                -128 <= file <= 127,
                0 <= wide <= 255,
        ;
        assert(-128 * 255 <= rank * wide <= 127 * 255) by (nonlinear_arith)
            requires
                -128 <= rank <= 127,
                0 <= wide <= 255,
        ;
        let scaled_file: i16 = file * wide;
        let scaled_rank: i16 = rank * wide;
        if -128 <= scaled_file && scaled_file <= 127 && -128 <= scaled_rank && scaled_rank <= 127 {
            Some(Offset { file: scaled_file as i8, rank: scaled_rank as i8 })
        } else {
            None
        }
    }
}

impl core::ops::Mul<u8> for Offset {
    type Output = Offset;

    /// This step taken `factor` times over. The result must fit in an
    /// `Offset`.
    fn mul(self, factor: u8) -> (scaled: Offset)
        ensures
            scaled == self.spec_scale(factor),
    {
        self.scale(factor).unwrap()
    }
}

impl MulSpecImpl<u8> for Offset {
    open spec fn obeys_mul_spec() -> bool {
        true
    }

    open spec fn mul_req(self, factor: u8) -> bool {
        self.scale_fits(factor)
    }

    open spec fn mul_spec(self, factor: u8) -> Offset {
        self.spec_scale(factor)
    }
}

} // verus!
