//! The board: its squares, the steps between them, and the position of a
//! game.

pub use board::{Board, Position};
pub use board_error::BoardError;
pub use castling_availability::CastlingAvailability;
pub use chess_move::{Action, ChessMove, MoveStatus};
pub use direction::Direction;
pub use file::File;
pub use line::Line;
pub use offset::Offset;
pub use placement::PiecePlacement;
pub use rank::Rank;
pub use square::Square;
pub use square_iterator::SquareIterator;
pub use square_notation::SquareNotation;
pub use square_status::SquareStatus;

pub mod apply;
pub mod apply_laws;
pub mod board;
pub mod board_error;
pub mod castling_availability;
pub mod check;
pub mod chess_move;
pub mod direction;
pub mod file;
pub mod line;
pub mod move_laws;
pub mod moves;
pub mod notation;
pub mod offset;
pub mod placement;
pub mod rank;
pub mod square;
pub mod square_iterator;
pub mod square_notation;
pub mod square_status;
pub mod target_laws;
pub mod targets;
