//! Rows of the board.

use vstd::prelude::*;
use vstd::std_specs::convert::FromSpecImpl;
use vstd::std_specs::ops::AddSpecImpl;

verus! {

/// A row of the board, counted from 1 (white's side) to 8 (black's side).
/// The number is not held to that range, so that a step off the board can be
/// written down and then tested.
#[derive(Debug, Clone, Copy, PartialEq, Eq, Hash, Structural)]
pub struct Rank(pub u8);

impl Rank {
    /// Whether the rank lies on the board.
    pub open spec fn on_board(&self) -> bool {
        1 <= self.0 <= 8
    }

    /// The rank `offset` rows further up, held within the range of `u8`.
    pub open spec fn spec_shift(&self, offset: i8) -> Rank {
        Rank(super::offset::spec_saturating_shift(self.0, offset))
    }

    /// The rank's number.
    pub fn value(&self) -> (value: u8)
        ensures
            value == self.0,
    {
        self.0
    }

    /// The rank `offset` rows further up. The sum saturates at the limits of
    /// `u8`, both of which lie off the board.
    #[verifier::when_used_as_spec(spec_shift)]
    pub fn shift(&self, offset: i8) -> (rank: Rank)
        ensures
            rank == self.spec_shift(offset),
    {
        Rank(super::offset::saturating_shift(self.0, offset))
    }
}

impl From<u8> for Rank {
    /// The rank with the given number.
    fn from(value: u8) -> (rank: Rank)
        ensures
            rank == Rank(value),
    {
        Rank(value)
    }
}

impl FromSpecImpl<u8> for Rank {
    open spec fn obeys_from_spec() -> bool {
        true
    }

    open spec fn from_spec(value: u8) -> Rank {
        Rank(value)
    }
}

impl core::ops::Add<i8> for &Rank {
    type Output = Rank;

    /// The rank `offset` rows further up, as `shift` gives it.
    fn add(self, offset: i8) -> (rank: Rank)
        ensures
            rank == self.spec_shift(offset),
    {
        self.shift(offset)
    }
}

impl AddSpecImpl<i8> for &Rank {
    open spec fn obeys_add_spec() -> bool {
        true
    }

    open spec fn add_req(self, offset: i8) -> bool {
        true
    }

    open spec fn add_spec(self, offset: i8) -> Rank {
        self.spec_shift(offset)
    }
}

} // verus!
