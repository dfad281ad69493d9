pub mod board;
pub mod check;
pub mod check_mate_status;
pub mod command;
pub mod game;
pub mod play;
pub mod square;
