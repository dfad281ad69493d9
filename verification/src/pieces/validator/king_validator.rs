//! The moves of a king: one square in any direction, and castling.
use vstd::prelude::*;

use crate::board_movements::{A, D, F, H};
use crate::game::board::{Board, Grid};
use crate::pieces::piece::{PieceInfo, info_moved};
use crate::pieces::validator::base_validator::{
    BaseValidator,
    ContainsConflictingPiece,
    walk_from,
    base_valid,
};
use crate::pieces::validator::row_column::{
    BaseLocation,
    RowColumn,
    as_i8,
    dist8,
    dist_i8,
    on_board,
    s8,
};

verus! {

/// The move goes at most one row and at most one column.
pub open spec fn king_shape(from: RowColumn, to: RowColumn) -> bool {
    dist8(from.row, to.row) <= 1 && dist8(from.column, to.column) <= 1
}

/// A king may make the move (not counting castling).
pub open spec fn king_valid(from: RowColumn, to: RowColumn) -> bool {
    base_valid(from, to) && king_shape(from, to)
}

/// The rook's move that goes with a king's castling move: from the a-file to the
/// d-file when the king moves left, from the h-file to the f-file when it moves right.
pub open spec fn castling_rook_move(from: RowColumn, to: RowColumn) -> BaseLocation {
    if s8(to.column) < s8(from.column) {
        BaseLocation {
            from: RowColumn { row: from.row, column: 0 },
            to: RowColumn { row: to.row, column: 3 },
        }
    } else {
        BaseLocation {
            from: RowColumn { row: from.row, column: 7 },
            to: RowColumn { row: to.row, column: 5 },
        }
    }
}

/// Looking for a castling move reads no square beyond row or column 7: the king has
/// moved, or the move is not two columns within its row, or the walk from `from` towards
/// `to` stops on the board (see `walk_from`).
pub open spec fn castling_defined(king_info: PieceInfo, from: RowColumn, to: RowColumn, g: Grid) -> bool {
    ||| info_moved(king_info)
    ||| dist8(from.row, to.row) != 0
    ||| dist8(from.column, to.column) != 2
    ||| walk_from(g, from, to, 1) is Some
}

/// The rook's move when the king's move `from` -> `to` is a castling move on the board
/// `g`: the king has not moved, it moves two columns within its row, and the walk from
/// `from` reaches `to` (on the board: no piece stands between the two squares). Whether
/// a fitting rook stands ready is checked apart.
pub open spec fn castling_spec(
    king_info: PieceInfo,
    from: RowColumn,
    to: RowColumn,
    g: Grid,
) -> Option<BaseLocation> {
    if info_moved(king_info) {
        None
    } else if dist8(from.row, to.row) != 0 {
        None
    } else if dist8(from.column, to.column) != 2 {
        None
    } else if walk_from(g, from, to, 1) == Some(true) {
        Some(castling_rook_move(from, to))
    } else {
        None
    }
}

/// Checks a king's move.
pub struct KingValidator<'a, T: BaseValidator> {
    location_info: T,
    king_info: &'a PieceInfo,
}

impl<'a, T: BaseValidator> KingValidator<'a, T> {
    pub fn new(location_info: T, king_info: &PieceInfo) -> (r: KingValidator<T>)
        ensures
            r.from_spec() == location_info.from_spec(),
            r.to_spec() == location_info.to_spec(),
            r.validate_spec() == (location_info.validate_spec() && king_shape(
                location_info.from_spec(),
                location_info.to_spec(),
            )),
            r.king_info_spec() == *king_info,
    {
        KingValidator { location_info, king_info }
    }

    /// What the king knows of itself.
    pub closed spec fn king_info_spec(&self) -> PieceInfo {
        *self.king_info
    }
}

impl<'a, T: BaseValidator> KingValidator<'a, T> {
    /// The rook's move, when this move of the king is a castling move on `board` (see
    /// `castling_spec`).
    pub fn is_castling(&self, board: &Board) -> (r: Option<BaseLocation>)
        requires
            board.wf(),
            on_board(self.from_spec()),
            castling_defined(self.king_info_spec(), self.from_spec(), self.to_spec(), board.grid()),
        ensures
            r == castling_spec(self.king_info_spec(), self.from_spec(), self.to_spec(), board.grid()),
    {
        if self.king_info.get_has_moved() {
            return None;
        }
        let from = self.get_from();
        let to = self.get_to();
        // not castling. It needs to move left or right two spaces
        if dist_i8(from.row, to.row) != 0 {
            return None;
        }
        let from_column: i8 = as_i8(from.column);
        let to_column: i8 = as_i8(to.column);
        // once again, needs to be two spaces to the left or right;
        if dist_i8(from.column, to.column) != 2 {
            return None;
        }
        proof {
            assert(s8(from.column) - s8(to.column) == 2 || s8(from.column) - s8(to.column) == -2);
        }
        // if it can move to that space(no pieces blocking)
        if self.can_move(&board) {
            let is_left = (to_column - from_column) < 0;
            let from_column = if is_left {
                A
            } else {
                H
            };
            let to_column = if is_left {
                D
            } else {
                F
            };
            Some(
                BaseLocation::new_row_column(
                    RowColumn::new(from.row, from_column),
                    RowColumn::new(to.row, to_column),
                ),
            )
        } else {
            None
        }
    }
}

impl<'a, T: BaseValidator> BaseValidator for KingValidator<'a, T> {
    closed spec fn from_spec(&self) -> RowColumn {
        self.location_info.from_spec()
    }

    closed spec fn to_spec(&self) -> RowColumn {
        self.location_info.to_spec()
    }

    closed spec fn validate_spec(&self) -> bool {
        self.location_info.validate_spec() && king_shape(
            self.location_info.from_spec(),
            self.location_info.to_spec(),
        )
    }

    fn get_from(&self) -> (r: &RowColumn) {
        &self.location_info.get_from()
    }

    fn get_to(&self) -> (r: &RowColumn) {
        &self.location_info.get_to()
    }

    fn validate(&self) -> (r: bool) {
        if !self.location_info.validate() {
            return false;
        }
        let current_row = self.get_from().row;
        let current_column = self.get_from().column;
        let to_row = self.get_to().row;
        let to_column = self.get_to().column;
        let new_row = dist_i8(current_row, to_row);
        let new_column = dist_i8(current_column, to_column);
        new_row <= 1 && new_column <= 1
    }
}

} // verus!
