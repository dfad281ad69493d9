//! The stand-alone bishop: it moves along diagonals.
use vstd::prelude::*;

use crate::pieces::color::{Color, color_letter};
use crate::pieces::piece::Piece;
use crate::pieces::validator::row_column::{abs, dist8, dist_i8};

verus! {

/// A bishop at `current_row`, `current_column` may go to `to_row`, `to_column`: the target
/// is on the board, differs from the start, and lies on one of its diagonals.
pub open spec fn bishop_can_move(current_row: u8, current_column: u8, to_row: u8, to_column: u8) -> bool {
    &&& to_row <= 7
    &&& to_column <= 7
    &&& !(current_row == to_row && current_column == to_column)
    &&& dist8(current_row, to_row) == dist8(to_column, current_column)
}

/// A bishop of one side.
pub struct Bishop {
    color: Color,
    name: String,
}

impl Bishop {
    /// The side of the bishop.
    pub closed spec fn color_spec(&self) -> Color {
        self.color
    }

    pub fn new(color: Color) -> (r: Bishop)
        ensures
            r.color_spec() == color,
            r.name_spec() == color_letter(color).push('B'),
    {
        let mut name = color.get_color();
        name.append("B");
        proof {
            reveal_strlit("B");
        }
        Bishop { color, name }
    }

    pub fn can_move(&self, current_row: u8, current_column: u8, to_row: u8, to_column: u8) -> (r:
        bool)
        ensures
            r == bishop_can_move(current_row, current_column, to_row, to_column),
    {
        if !self.is_valid_movement(&to_row, &to_column) {
            return false;
        }
        if current_row == to_row && current_column == to_column {
            return false;
        }
        let new_row = dist_i8(current_row, to_row);
        let new_column = dist_i8(to_column, current_column);
        new_column == new_row
    }
}

impl Piece for Bishop {
    closed spec fn name_spec(&self) -> Seq<char> {
        self.name@
    }

    fn get_name(&self) -> (r: &str) {
        self.name.as_str()
    }
}

/// A bishop moves along a diagonal: between squares of the board it may go exactly when
/// the target differs from the start and lies as many rows away as columns; it never
/// moves off the board.
pub proof fn lemma_bishop_moves(current_row: u8, current_column: u8, to_row: u8, to_column: u8)
    ensures
        bishop_can_move(current_row, current_column, to_row, to_column) ==> to_row <= 7 && to_column
            <= 7,
        current_row <= 7 && current_column <= 7 && to_row <= 7 && to_column <= 7 ==> (bishop_can_move(
            current_row,
            current_column,
            to_row,
            to_column,
        ) <==> (!(current_row == to_row && current_column == to_column) && abs(to_row - current_row)
            == abs(to_column - current_column))),
{
}

} // verus!
