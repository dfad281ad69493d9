//! The stand-alone knight: it jumps two squares one way and one the other.
use vstd::prelude::*;

use crate::pieces::color::{Color, color_letter};
use crate::pieces::piece::Piece;
use crate::pieces::validator::row_column::{abs, dist8, dist_i8};

verus! {

/// A knight at `current_row`, `current_column` may go to `to_row`, `to_column`: the target
/// is on the board, one row and two columns away or two rows and one column away.
pub open spec fn knight_can_move(current_row: u8, current_column: u8, to_row: u8, to_column: u8) -> bool {
    let new_row = dist8(current_row, to_row);
    let new_column = dist8(current_column, to_column);
    &&& to_row <= 7
    &&& to_column <= 7
    &&& (new_row == 1 && new_column == 2 || new_column == 1 && new_row == 2)
}

/// A knight of one side.
pub struct Knight {
    color: Color,
    name: String,
}

impl Knight {
    /// The side of the knight.
    pub closed spec fn color_spec(&self) -> Color {
        self.color
    }

    pub fn new(color: Color) -> (r: Knight)
        ensures
            r.color_spec() == color,
            r.name_spec() == color_letter(color).push('N'),
    {
        let mut name = color.get_color();
        name.append("N");
        proof {
            reveal_strlit("N");
        }
        Knight { color, name }
    }

    pub fn can_move(&self, current_row: u8, current_column: u8, to_row: u8, to_column: u8) -> (r:
        bool)
        ensures
            r == knight_can_move(current_row, current_column, to_row, to_column),
    {
        if !self.is_valid_movement(&to_row, &to_column) {
            return false;
        }
        let new_row = dist_i8(current_row, to_row);
        let new_column = dist_i8(current_column, to_column);
        return new_row == 1 && new_column == 2 || new_column == 1 && new_row == 2;
    }
}

impl Piece for Knight {
    closed spec fn name_spec(&self) -> Seq<char> {
        self.name@
    }

    fn get_name(&self) -> (r: &str) {
        self.name.as_str()
    }
}

/// A knight jumps two squares one way and one the other: between squares of the board it
/// may go exactly when the target is one row and two columns away or two rows and one
/// column away; it never moves off the board.
pub proof fn lemma_knight_moves(current_row: u8, current_column: u8, to_row: u8, to_column: u8)
    ensures
        knight_can_move(current_row, current_column, to_row, to_column) ==> to_row <= 7 && to_column
            <= 7,
        current_row <= 7 && current_column <= 7 && to_row <= 7 && to_column <= 7 ==> (knight_can_move(
            current_row,
            current_column,
            to_row,
            to_column,
        ) <==> ((abs(to_row - current_row) == 1 && abs(to_column - current_column) == 2) || (abs(
            to_row - current_row,
        ) == 2 && abs(to_column - current_column) == 1))),
{
}

} // verus!
