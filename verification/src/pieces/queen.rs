//! The stand-alone queen: it moves as a rook or as a bishop.
use vstd::prelude::*;

use crate::pieces::color::{Color, color_letter};
use crate::pieces::piece::Piece;
use crate::pieces::bishop::{Bishop, bishop_can_move};
use crate::pieces::rook::{Rook, rook_can_move};
use crate::pieces::validator::row_column::abs;

verus! {

/// A queen at `current_row`, `current_column` may go to `to_row`, `to_column`: a bishop or
/// a rook could.
pub open spec fn queen_can_move(current_row: u8, current_column: u8, to_row: u8, to_column: u8) -> bool {
    &&& to_row <= 7
    &&& to_column <= 7
    &&& (bishop_can_move(current_row, current_column, to_row, to_column) || rook_can_move(
        current_row,
        current_column,
        to_row,
        to_column,
    ))
}

/// A queen of one side.
pub struct Queen {
    color: Color,
    name: String,
}

impl Queen {
    /// The side of the queen.
    pub closed spec fn color_spec(&self) -> Color {
        self.color
    }

    pub fn new(color: Color) -> (r: Queen)
        ensures
            r.color_spec() == color,
            r.name_spec() == color_letter(color).push('Q'),
    {
        let mut name = color.get_color();
        name.append("Q");
        proof {
            reveal_strlit("Q");
        }
        Queen { color, name }
    }

    pub fn can_move(&self, current_row: u8, current_column: u8, to_row: u8, to_column: u8) -> (r:
        bool)
        ensures
            r == queen_can_move(current_row, current_column, to_row, to_column),
    {
        if !self.is_valid_movement(&to_row, &to_column) {
            return false;
        }
        Bishop::new(self.color.clone()).can_move(current_row, current_column, to_row, to_column)
            || Rook::new(self.color.clone()).can_move(
            current_row,
            current_column,
            to_row,
            to_column,
        )
    }
}

impl Piece for Queen {
    closed spec fn name_spec(&self) -> Seq<char> {
        self.name@
    }

    fn get_name(&self) -> (r: &str) {
        self.name.as_str()
    }
}

/// A queen moves along a row, a column or a diagonal: between squares of the board it may
/// go exactly when the target differs from the start and a rook or a bishop could go
/// there; it never moves off the board.
pub proof fn lemma_queen_moves(current_row: u8, current_column: u8, to_row: u8, to_column: u8)
    ensures
        queen_can_move(current_row, current_column, to_row, to_column) ==> to_row <= 7 && to_column
            <= 7,
        current_row <= 7 && current_column <= 7 && to_row <= 7 && to_column <= 7 ==> (queen_can_move(
            current_row,
            current_column,
            to_row,
            to_column,
        ) <==> (!(current_row == to_row && current_column == to_column) && (current_row == to_row
            || current_column == to_column || abs(to_row - current_row) == abs(
            to_column - current_column,
        )))),
{
}

} // verus!
