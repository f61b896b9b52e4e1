//! Columns of the board.

use vstd::prelude::*;
use vstd::std_specs::convert::FromSpecImpl;
use vstd::std_specs::ops::AddSpecImpl;

verus! {

/// A column of the board, counted from 1 (the a-file) to 8 (the h-file).
/// The number is not held to that range, so that a step off the board can be
/// written down and then tested.
#[derive(Debug, Clone, Copy, PartialEq, Eq, Hash, Structural)]
pub struct File(pub u8);

impl File {
    /// Whether the file lies on the board.
    pub open spec fn on_board(&self) -> bool {
        1 <= self.0 <= 8
    }

    /// The file `offset` columns further right, held within the range of `u8`.
    pub open spec fn spec_shift(&self, offset: i8) -> File {
        File(super::offset::spec_saturating_shift(self.0, offset))
    }

    /// The file's number.
    pub fn value(&self) -> (value: u8)
        ensures
            value == self.0,
    {
        self.0
    }

    /// The file `offset` columns further right. The sum saturates at the limits of
    /// `u8`, both of which lie off the board.
    #[verifier::when_used_as_spec(spec_shift)]
    pub fn shift(&self, offset: i8) -> (file: File)
        ensures
            file == self.spec_shift(offset),
    {
        File(super::offset::saturating_shift(self.0, offset))
    }
}

impl From<u8> for File {
    /// The file with the given number.
    fn from(value: u8) -> (file: File)
        ensures
            file == File(value),
    {
        File(value)
    }
}

impl FromSpecImpl<u8> for File {
    open spec fn obeys_from_spec() -> bool {
        true
    }

    open spec fn from_spec(value: u8) -> File {
        File(value)
    }
}

impl core::ops::Add<i8> for &File {
    type Output = File;

    /// The file `offset` columns further right, as `shift` gives it.
    fn add(self, offset: i8) -> (file: File)
        ensures
            file == self.spec_shift(offset),
    {
        self.shift(offset)
    }
}

impl AddSpecImpl<i8> for &File {
    open spec fn obeys_add_spec() -> bool {
        true
    }

    open spec fn add_req(self, offset: i8) -> bool {
        true
    }

    open spec fn add_spec(self, offset: i8) -> File {
        self.spec_shift(offset)
    }
}

} // verus!
