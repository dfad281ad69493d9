//! The moves of a pawn: forward one square (two on its first move) onto an empty
//! square, diagonally onto an occupied one, and taking en passant.
use vstd::prelude::*;

use crate::game::game::{History, opt_history};
use crate::pieces::color::Color;
use crate::pieces::piece::PieceType;
use crate::pieces::validator::base_validator::{BaseValidator, base_valid};
use crate::pieces::validator::row_column::{
    RowColumn,
    abs8,
    add1_u8,
    as_i8,
    diff8,
    dist8,
    dist_i8,
    s8,
    sub1_i8,
    sub1_u8,
    sub_i8,
    abs_i8,
    wrap_i8,
    wrap_u8,
};

verus! {

/// The pawn moves towards the opponent: white towards row 0, black towards row 7
/// (or stays on its row).
pub open spec fn pawn_direction_ok(from: RowColumn, to: RowColumn, color: Color) -> bool {
    let distance = diff8(from.row, to.row);
    !(color == Color::White && distance < 0) && !(color == Color::Black && distance > 0)
}

/// The target is in a neighbouring column.
pub open spec fn pawn_capture_column(from: RowColumn, to: RowColumn) -> bool {
    wrap_i8(s8(from.column) - 1) == s8(to.column) || wrap_u8(from.column + 1) == to.column
}

/// The shape of a pawn's taking move: one row forward for white (one row towards row 0),
/// or one row towards row 7 for either side, into a neighbouring column.
pub open spec fn pawn_capture(from: RowColumn, to: RowColumn, color: Color) -> bool {
    (color == Color::White && wrap_u8(from.row - 1) == to.row && pawn_capture_column(from, to))
        || (wrap_u8(from.row + 1) == to.row && pawn_capture_column(from, to))
}

/// The shape of a pawn's move onto `to`: a taking move when `to` holds a piece,
/// otherwise a move forward within its column, of at most two rows before the pawn has
/// moved and one row after.
pub open spec fn pawn_shape(
    from: RowColumn,
    to: RowColumn,
    to_has_piece: bool,
    color: Color,
    moved: bool,
) -> bool {
    if to_has_piece {
        pawn_capture(from, to, color)
    } else {
        &&& pawn_direction_ok(from, to, color)
        &&& abs8(diff8(from.row, to.row)) <= (if moved {
            1int
        } else {
            2int
        })
        &&& from.column == to.column
    }
}

/// A pawn may make the move (not counting en passant).
pub open spec fn pawn_valid(
    from: RowColumn,
    to: RowColumn,
    to_has_piece: bool,
    color: Color,
    moved: bool,
) -> bool {
    base_valid(from, to) && pawn_shape(from, to, to_has_piece, color, moved)
}

/// The move takes en passant: the last move was made by an opposing pawn within its
/// column, into the column next to this pawn, and this pawn moves forward one row into
/// that column.
pub open spec fn en_passant_spec(
    from: RowColumn,
    to: RowColumn,
    color: Color,
    last: Option<History>,
) -> bool {
    &&& pawn_direction_ok(from, to, color)
    &&& match last {
        Some(h) => {
            &&& h.piece_type == PieceType::Pawn
            &&& h.color != color
            &&& dist8(h.from.column, h.to.column) == 0
            &&& dist8(from.column, h.to.column) == 1
            &&& dist8(from.row, to.row) == 1
            &&& h.to.column == to.column
        },
        None => false,
    }
}

/// Checks a pawn's move.
pub struct PawnValidator<'a, T: BaseValidator> {
    location_info: T,
    to_has_piece: bool,
    color: &'a Color,
    moved: bool,
    last_history: Option<&'a History>,
}

impl<'a, T: BaseValidator> PawnValidator<'a, T> {
    pub fn new(
        location_info: T,
        to_has_piece: bool,
        color: &'a Color,
        moved: bool,
        history: Option<&'a History>,
    ) -> (r: PawnValidator<'a, T>)
        ensures
            r.from_spec() == location_info.from_spec(),
            r.to_spec() == location_info.to_spec(),
            r.validate_spec() == (location_info.validate_spec() && pawn_shape(
                location_info.from_spec(),
                location_info.to_spec(),
                to_has_piece,
                *color,
                moved,
            )),
            r.color_spec() == *color,
            r.last_spec() == opt_history(history),
    {
        PawnValidator { location_info, to_has_piece, color, moved, last_history: history }
    }

    /// The side of the pawn.
    pub closed spec fn color_spec(&self) -> Color {
        *self.color
    }

    /// The last move made before this one.
    pub closed spec fn last_spec(&self) -> Option<History> {
        opt_history(self.last_history)
    }
}

impl<'a, T: BaseValidator> BaseValidator for PawnValidator<'a, T> {
    closed spec fn from_spec(&self) -> RowColumn {
        self.location_info.from_spec()
    }

    closed spec fn to_spec(&self) -> RowColumn {
        self.location_info.to_spec()
    }

    closed spec fn validate_spec(&self) -> bool {
        self.location_info.validate_spec() && pawn_shape(
            self.location_info.from_spec(),
            self.location_info.to_spec(),
            self.to_has_piece,
            *self.color,
            self.moved,
        )
    }

    fn get_from(&self) -> (r: &RowColumn) {
        &self.location_info.get_from()
    }

    fn get_to(&self) -> (r: &RowColumn) {
        &self.location_info.get_to()
    }

    fn validate(&self) -> (r: bool) {
        if !self.location_info.validate() {
            return false;
        }
        let current_row = self.get_from().row;
        let current_column = self.get_from().column;
        let to_row = self.get_to().row;
        let to_column = self.get_to().column;
        if self.to_has_piece {
            let is_column_movement_valid = sub1_i8(as_i8(current_column)) == as_i8(to_column)
                || add1_u8(current_column) == to_column;
            return (matches!(self.color, Color::White) && sub1_u8(current_row) == to_row && (
            is_column_movement_valid)) || (add1_u8(current_row) == to_row && (
            is_column_movement_valid));
        }
        // can't be the same.
        let mut movement = 1i8;
        if !self.moved {
            movement += 1;
        }
        if !self.is_valid_row_diff() {
            return false;
        }
        let new_row = abs_i8(sub_i8(current_row, to_row));
        let is_valid = new_row <= movement && current_column == to_column;
        is_valid
    }
}

impl<'a, T: BaseValidator> PawnValidator<'a, T> {
    fn is_valid_row_diff(&self) -> (r: bool)
        ensures
            r == pawn_direction_ok(self.from_spec(), self.to_spec(), self.color_spec()),
    {
        let current_row = self.get_from().row;
        let to_row = self.get_to().row;
        let distance = sub_i8(current_row, to_row);
        if matches!(self.color, Color::White) && distance < 0 {
            return false;
        } else if matches!(self.color, Color::Black) && distance > 0 {
            return false;
        }
        return true;
    }

    /// Whether the move takes en passant.
    pub fn is_en_passant(&self) -> (r: bool)
        ensures
            r == en_passant_spec(self.from_spec(), self.to_spec(), self.color_spec(), self.last_spec()),
    {
        if !self.is_valid_row_diff() {
            return false;
        }
        if let Some(last_history) = self.last_history {
            let history_color = last_history.get_color();
            let color_diff;
            if matches!(self.color, Color::White) {
                color_diff = matches!(history_color, Color::Black)
            } else {
                color_diff = matches!(history_color, Color::White)
            }
            if matches!(last_history.get_piece_type(), PieceType::Pawn) && color_diff {
                let col_diff = dist_i8(last_history.get_from().column, last_history.get_to().column);
                if col_diff != 0i8 {
                    return false;
                }
                let is_neighbor = dist_i8(self.get_from().column, last_history.get_to().column);
                if is_neighbor != 1 {
                    return false;
                }
                let row_diff = dist_i8(self.get_from().row, self.get_to().row);
                return row_diff == 1 && last_history.get_to().column == self.get_to().column;
            }
        }
        false
    }
}

} // verus!
