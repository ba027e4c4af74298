//! Move legality for pieces on an 8×8 chess board.
//!
//! The board is a grid of squares, each empty or holding one piece. The
//! central item is [`is_valid_move`], a pure predicate deciding whether a
//! player may move the piece on one square to another.
pub mod board;
pub mod coords;
pub mod piece;
pub mod rules;

pub use board::{generate_board, generate_empty_board_grid, set_board_square, BoardGrid};
pub use coords::{File, Position, Rank};
pub use piece::{generate_piece_set, Colour, GamePiece, PieceKind, Square};
pub use rules::{calculate_move_vector, is_valid_move};
