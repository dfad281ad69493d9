//! The stand-alone king: it moves one square in any direction.
use vstd::prelude::*;

use crate::pieces::color::{Color, color_letter};
use crate::pieces::piece::Piece;
use crate::pieces::validator::row_column::{abs, dist8, dist_i8};

verus! {

/// A king at `current_row`, `current_column` may go to `to_row`, `to_column`: the target
/// is on the board, differs from the start, and is at most one row and one column away.
pub open spec fn king_can_move(current_row: u8, current_column: u8, to_row: u8, to_column: u8) -> bool {
    let new_row = dist8(current_row, to_row);
    let new_column = dist8(current_column, to_column);
    &&& to_row <= 7
    &&& to_column <= 7
    &&& !(new_row == 0 && new_column == 0)
    &&& new_row <= 1
    &&& new_column <= 1
}

/// A king of one side.
pub struct King {
    color: Color,
    name: String,
}

impl King {
    /// The side of the king.
    pub closed spec fn color_spec(&self) -> Color {
        self.color
    }

    pub fn new(color: Color) -> (r: King)
        ensures
            r.color_spec() == color,
            r.name_spec() == color_letter(color).push('K'),
    {
        let mut name = color.get_color();
        name.append("K");
        proof {
            reveal_strlit("K");
        }
        King { color, name }
    }

    pub fn can_move(&self, current_row: u8, current_column: u8, to_row: u8, to_column: u8) -> (r:
        bool)
        ensures
            r == king_can_move(current_row, current_column, to_row, to_column),
    {
        if !self.is_valid_movement(&to_row, &to_column) {
            return false;
        }
        let new_row = dist_i8(current_row, to_row);
        let new_column = dist_i8(current_column, to_column);
        if new_row == 0 && new_column == 0 {
            return false;
        }
        new_row <= 1 && new_column <= 1
    }
}

impl Piece for King {
    closed spec fn name_spec(&self) -> Seq<char> {
        self.name@
    }

    fn get_name(&self) -> (r: &str) {
        self.name.as_str()
    }
}

/// A king steps to a neighbouring square: between squares of the board it may go exactly
/// when the target differs from the start and is at most one row and one column away; it
/// never moves off the board.
pub proof fn lemma_king_moves(current_row: u8, current_column: u8, to_row: u8, to_column: u8)
    ensures
        king_can_move(current_row, current_column, to_row, to_column) ==> to_row <= 7 && to_column <= 7,
        current_row <= 7 && current_column <= 7 && to_row <= 7 && to_column <= 7 ==> (king_can_move(
            current_row,
            current_column,
            to_row,
            to_column,
        ) <==> (!(current_row == to_row && current_column == to_column) && abs(to_row - current_row)
            <= 1 && abs(to_column - current_column) <= 1)),
{
}

} // verus!
