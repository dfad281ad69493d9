pub mod base_validator;
pub mod bishop_validator;
pub mod king_validator;
pub mod knight_validator;
pub mod pawn_validator;
pub mod queen_validator;
pub mod rook_validator;
pub mod row_column;
