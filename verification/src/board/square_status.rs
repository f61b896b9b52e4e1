//! What a piece finds on a square.

use vstd::prelude::*;

verus! {

/// Whether a square is empty, or holds a piece of the same colour as the one
/// that asks, or one of the other colour.
#[derive(Debug, Clone, Copy, PartialEq, Eq, Hash, Structural)]
pub enum SquareStatus {
    /// No piece stands on the square.
    Empty,
    /// A piece of the same colour stands on the square.
    TakenBySame,
    /// A piece of the other colour stands on the square.
    TakenByOpposite,
}

} // verus!
