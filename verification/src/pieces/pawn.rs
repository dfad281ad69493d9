//! The stand-alone pawn: it moves forward, two squares on its first move, and takes
//! diagonally.
use vstd::prelude::*;

use crate::pieces::color::{Color, color_letter};
use crate::pieces::piece::Piece;
use crate::pieces::validator::pawn_validator::pawn_shape;
use crate::pieces::validator::row_column::{
    RowColumn,
    abs,
    abs_i8,
    add1_u8,
    as_i8,
    sub1_i8,
    sub1_u8,
    sub_i8,
};

verus! {

/// A pawn at `current_row`, `current_column` may go to `to_row`, `to_column`: the target
/// is on the board, differs from the start, and the move has a pawn's shape (a taking
/// move when `is_attacking`).
pub open spec fn pawn_can_move(
    moved: bool,
    color: Color,
    current_row: u8,
    current_column: u8,
    to_row: u8,
    to_column: u8,
    is_attacking: bool,
) -> bool {
    &&& to_row <= 7
    &&& to_column <= 7
    &&& !(current_row == to_row && current_column == to_column)
    &&& pawn_shape(
        RowColumn { row: current_row, column: current_column },
        RowColumn { row: to_row, column: to_column },
        is_attacking,
        color,
        moved,
    )
}

/// A pawn of one side, which may not have moved yet.
pub struct Pawn {
    moved: bool,
    color: Color,
    name: String,
}

impl Pawn {
    /// The side of the pawn.
    pub closed spec fn color_spec(&self) -> Color {
        self.color
    }

    /// Whether the pawn has moved.
    pub closed spec fn moved_spec(&self) -> bool {
        self.moved
    }

    /// A pawn that has not moved yet.
    pub fn new(color: Color) -> (r: Pawn)
        ensures
            r.color_spec() == color,
            !r.moved_spec(),
            r.name_spec() == color_letter(color).push('P'),
    {
        Pawn::with_moved(color, false)
    }

    /// A pawn that has moved already, or not.
    pub fn with_moved(color: Color, moved: bool) -> (r: Pawn)
        ensures
            r.color_spec() == color,
            r.moved_spec() == moved,
            r.name_spec() == color_letter(color).push('P'),
    {
        let mut name = color.get_color();
        name.append("P");
        proof {
            reveal_strlit("P");
        }
        return Pawn { moved, color: color, name };
    }

    pub fn can_move(
        &self,
        current_row: u8,
        current_column: u8,
        to_row: u8,
        to_column: u8,
        is_attacking: bool,
    ) -> (r: bool)
        ensures
            r == pawn_can_move(
                self.moved_spec(),
                self.color_spec(),
                current_row,
                current_column,
                to_row,
                to_column,
                is_attacking,
            ),
    {
        if !self.is_valid_movement(&to_row, &to_column) {
            return false;
        }
        // can't be the same.
        if current_row == to_row && current_column == to_column {
            return false;
        }
        if is_attacking {
            let is_column_movement_valid = sub1_i8(as_i8(current_column)) == as_i8(to_column)
                || add1_u8(current_column) == to_column;
            return (matches!(self.color, Color::White) && sub1_u8(current_row) == to_row && (
            is_column_movement_valid)) || (add1_u8(current_row) == to_row && (
            is_column_movement_valid));
        }
        let mut movement = 1i8;
        if !self.moved {
            movement += 1;
        }
        let distance = sub_i8(current_row, to_row);
        if matches!(self.color, Color::White) && distance < 0 {
            return false;
        } else if matches!(self.color, Color::Black) && distance > 0 {
            return false;
        }
        let new_row = abs_i8(sub_i8(current_row, to_row));
        return new_row <= movement && current_column == to_column;
    }
}

impl Piece for Pawn {
    closed spec fn name_spec(&self) -> Seq<char> {
        self.name@
    }

    fn get_name(&self) -> (r: &str) {
        self.name.as_str()
    }
}

/// A pawn goes forward within its column, up to two rows before it has moved and one
/// after (white towards row 0, black towards row 7), and takes one column aside: one row
/// towards row 7 for either side, or one row towards row 0 for white. Between squares of
/// the board that is exactly where it may go; it never moves off the board.
pub proof fn lemma_pawn_moves(
    moved: bool,
    color: Color,
    current_row: u8,
    current_column: u8,
    to_row: u8,
    to_column: u8,
    is_attacking: bool,
)
    ensures
        pawn_can_move(moved, color, current_row, current_column, to_row, to_column, is_attacking)
            ==> to_row <= 7 && to_column <= 7,
        current_row <= 7 && current_column <= 7 && to_row <= 7 && to_column <= 7 ==> (pawn_can_move(
            moved,
            color,
            current_row,
            current_column,
            to_row,
            to_column,
            is_attacking,
        ) <==> if is_attacking {
            &&& abs(to_column - current_column) == 1
            &&& (to_row == current_row + 1 || (color == Color::White && to_row == current_row - 1))
        } else {
            &&& to_column == current_column
            &&& to_row != current_row
            &&& (color == Color::White ==> to_row < current_row)
            &&& (color == Color::Black ==> to_row > current_row)
            &&& abs(to_row - current_row) <= (if moved { 1int } else { 2int })
        }),
{
}

} // verus!
