//! The stand-alone rook: it moves along ranks and files.
use vstd::prelude::*;

use crate::pieces::color::{Color, color_letter};
use crate::pieces::piece::Piece;

verus! {

/// A rook at `current_row`, `current_column` may go to `to_row`, `to_column`: the target
/// is on the board, differs from the start, and lies in the same row or column.
pub open spec fn rook_can_move(current_row: u8, current_column: u8, to_row: u8, to_column: u8) -> bool {
    &&& to_row <= 7
    &&& to_column <= 7
    &&& !(current_row == to_row && current_column == to_column)
    &&& (current_row == to_row || current_column == to_column)
}

/// A rook of one side.
pub struct Rook {
    color: Color,
    name: String,
}

impl Rook {
    /// The side of the rook.
    pub closed spec fn color_spec(&self) -> Color {
        self.color
    }

    pub fn new(color: Color) -> (r: Rook)
        ensures
            r.color_spec() == color,
            r.name_spec() == color_letter(color).push('R'),
    {
        let mut name = color.get_color();
        name.append("R");
        proof {
            reveal_strlit("R");
        }
        Rook { color, name }
    }

    pub fn can_move(&self, current_row: u8, current_column: u8, to_row: u8, to_column: u8) -> (r:
        bool)
        ensures
            r == rook_can_move(current_row, current_column, to_row, to_column),
    {
        // can't be the same.
        if !self.is_valid_movement(&to_row, &to_column) {
            return false;
        }
        if current_row == to_row && current_column == to_column {
            return false;
        }
        current_row == to_row || current_column == to_column
    }
}

impl Piece for Rook {
    closed spec fn name_spec(&self) -> Seq<char> {
        self.name@
    }

    fn get_name(&self) -> (r: &str) {
        self.name.as_str()
    }
}

/// A rook moves along a row or a column: between squares of the board it may go exactly
/// when the target differs from the start and shares its row or its column; it never
/// moves off the board.
pub proof fn lemma_rook_moves(current_row: u8, current_column: u8, to_row: u8, to_column: u8)
    ensures
        rook_can_move(current_row, current_column, to_row, to_column) ==> to_row <= 7 && to_column <= 7
            && !(current_row == to_row && current_column == to_column) && (current_row == to_row
            || current_column == to_column),
        to_row <= 7 && to_column <= 7 && !(current_row == to_row && current_column == to_column) && (
        current_row == to_row || current_column == to_column) ==> rook_can_move(
            current_row,
            current_column,
            to_row,
            to_column,
        ),
{
}

} // verus!
