//! The shape of a bishop's move: along one diagonal.
use vstd::prelude::*;

use crate::pieces::validator::base_validator::{BaseValidator, base_valid};
use crate::pieces::validator::row_column::{RowColumn, dist8, dist_i8};

verus! {

/// The move goes along one diagonal: it crosses as many rows as columns.
pub open spec fn bishop_shape(from: RowColumn, to: RowColumn) -> bool {
    dist8(from.row, to.row) == dist8(from.column, to.column)
}

/// A bishop may make the move, ignoring what stands in the way.
pub open spec fn bishop_valid(from: RowColumn, to: RowColumn) -> bool {
    base_valid(from, to) && bishop_shape(from, to)
}

/// Checks the shape of a bishop's move.
pub struct BishopValidator<T: BaseValidator> {
    location_info: T,
}

impl<T: BaseValidator> BishopValidator<T> {
    pub fn new(location_info: T) -> (r: BishopValidator<T>)
        ensures
            r.from_spec() == location_info.from_spec(),
            r.to_spec() == location_info.to_spec(),
            r.validate_spec() == (location_info.validate_spec() && bishop_shape(
                location_info.from_spec(),
                location_info.to_spec(),
            )),
    {
        BishopValidator { location_info }
    }
}

impl<T: BaseValidator> BaseValidator for BishopValidator<T> {
    closed spec fn from_spec(&self) -> RowColumn {
        self.location_info.from_spec()
    }

    closed spec fn to_spec(&self) -> RowColumn {
        self.location_info.to_spec()
    }

    closed spec fn validate_spec(&self) -> bool {
        self.location_info.validate_spec() && bishop_shape(
            self.location_info.from_spec(),
            self.location_info.to_spec(),
        )
    }

    fn get_from(&self) -> (r: &RowColumn) {
        &self.location_info.get_from()
    }

    fn get_to(&self) -> (r: &RowColumn) {
        &self.location_info.get_to()
    }

    fn validate(&self) -> (r: bool) {
        if !self.location_info.validate() {
            return false;
        }
        let from_row = self.location_info.get_from().row;
        let from_column = self.location_info.get_from().column;

        let to_row = self.location_info.get_to().row;
        let to_column = self.location_info.get_to().column;
        let new_row = dist_i8(from_row, to_row);
        let new_column = dist_i8(from_column, to_column);
        new_column == new_row
    }
}

} // verus!
