//! The shape of a rook's move: along one rank or one file.
use vstd::prelude::*;

use crate::pieces::validator::base_validator::{BaseValidator, base_valid};
use crate::pieces::validator::row_column::RowColumn;

verus! {

/// The move goes along one rank or one file.
pub open spec fn rook_shape(from: RowColumn, to: RowColumn) -> bool {
    from.row == to.row || from.column == to.column
}

/// A rook may make the move, ignoring what stands in the way.
pub open spec fn rook_valid(from: RowColumn, to: RowColumn) -> bool {
    base_valid(from, to) && rook_shape(from, to)
}

/// Checks the shape of a rook's move.
pub struct RookValidator<T: BaseValidator> {
    location_info: T,
}

impl<T: BaseValidator> RookValidator<T> {
    pub fn new(location_info: T) -> (r: RookValidator<T>)
        ensures
            r.from_spec() == location_info.from_spec(),
            r.to_spec() == location_info.to_spec(),
            r.validate_spec() == (location_info.validate_spec() && rook_shape(
                location_info.from_spec(),
                location_info.to_spec(),
            )),
    {
        RookValidator { location_info }
    }
}

impl<T: BaseValidator> BaseValidator for RookValidator<T> {
    closed spec fn from_spec(&self) -> RowColumn {
        self.location_info.from_spec()
    }

    closed spec fn to_spec(&self) -> RowColumn {
        self.location_info.to_spec()
    }

    closed spec fn validate_spec(&self) -> bool {
        self.location_info.validate_spec() && rook_shape(
            self.location_info.from_spec(),
            self.location_info.to_spec(),
        )
    }

    fn get_from(&self) -> (r: &RowColumn) {
        &self.location_info.get_from()
    }

    fn get_to(&self) -> (r: &RowColumn) {
        &self.location_info.get_to()
    }

    fn validate(&self) -> (r: bool) {
        if !self.location_info.validate() {
            return false;
        }
        let from_row = self.location_info.get_from().row;
        let from_column = self.location_info.get_from().column;

        let to_row = self.location_info.get_to().row;
        let to_column = self.location_info.get_to().column;
        from_row == to_row || from_column == to_column
    }
}

} // verus!
