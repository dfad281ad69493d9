//! The shape of a knight's move: two squares one way and one the other.
use vstd::prelude::*;

use crate::pieces::validator::base_validator::{BaseValidator, base_valid};
use crate::pieces::validator::row_column::{RowColumn, dist8, dist_i8};

verus! {

/// The move goes two rows and one column, or one row and two columns.
pub open spec fn knight_shape(from: RowColumn, to: RowColumn) -> bool {
    let dr = dist8(from.row, to.row);
    let dc = dist8(from.column, to.column);
    !(dr == 0 && dc == 0) && (dr == 1 && dc == 2 || dr == 2 && dc == 1)
}

/// A knight may make the move.
pub open spec fn knight_valid(from: RowColumn, to: RowColumn) -> bool {
    base_valid(from, to) && knight_shape(from, to)
}

/// Checks the shape of a knight's move.
pub struct KnightValidator<T: BaseValidator> {
    location_info: T,
}

impl<T: BaseValidator> KnightValidator<T> {
    pub fn new(location_info: T) -> (r: KnightValidator<T>)
        ensures
            r.from_spec() == location_info.from_spec(),
            r.to_spec() == location_info.to_spec(),
            r.validate_spec() == (location_info.validate_spec() && knight_shape(
                location_info.from_spec(),
                location_info.to_spec(),
            )),
    {
        KnightValidator { location_info }
    }
}

impl<T: BaseValidator> BaseValidator for KnightValidator<T> {
    closed spec fn from_spec(&self) -> RowColumn {
        self.location_info.from_spec()
    }

    closed spec fn to_spec(&self) -> RowColumn {
        self.location_info.to_spec()
    }

    closed spec fn validate_spec(&self) -> bool {
        self.location_info.validate_spec() && knight_shape(
            self.location_info.from_spec(),
            self.location_info.to_spec(),
        )
    }

    fn get_from(&self) -> (r: &RowColumn) {
        &self.location_info.get_from()
    }

    fn get_to(&self) -> (r: &RowColumn) {
        &self.location_info.get_to()
    }

    fn validate(&self) -> (r: bool) {
        if !self.location_info.validate() {
            return false;
        }
        let current_row = self.get_from().row;
        let current_column = self.get_from().column;
        let to_row = self.get_to().row;
        let to_column = self.get_to().column;
        let new_row = dist_i8(current_row, to_row);
        let new_column = dist_i8(current_column, to_column);
        if new_row == 0 && new_column == 0 {
            return false;
        }
        return new_row == 1 && new_column == 2 || new_row == 2 && new_column == 1;
    }
}

} // verus!
