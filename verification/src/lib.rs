//! A two-player console chess game: the board, the pieces and their movement rules,
//! castling, en passant, promotion and the detection of check and checkmate.
pub mod board_movements;
pub mod game;
pub mod pieces;
pub mod utils;
