//! A chess position model: board geometry, pieces, move listing, check
//! detection, move application and Forsyth–Edwards Notation.

pub mod board;
pub mod parser;
pub mod piece;
