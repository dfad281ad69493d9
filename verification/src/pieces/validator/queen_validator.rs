//! The shape of a queen's move: that of a rook or that of a bishop.
use vstd::prelude::*;

use crate::pieces::validator::base_validator::{BaseValidator, base_valid};
use crate::pieces::validator::bishop_validator::{BishopValidator, bishop_shape};
use crate::pieces::validator::rook_validator::{RookValidator, rook_shape};
use crate::pieces::validator::row_column::RowColumn;

verus! {

/// A queen may make the move, ignoring what stands in the way.
pub open spec fn queen_valid(from: RowColumn, to: RowColumn) -> bool {
    base_valid(from, to) && (rook_shape(from, to) || bishop_shape(from, to))
}

/// Checks the shape of a queen's move.
pub struct QueenValidator<T: BaseValidator> {
    location_info: T,
}

impl<T: BaseValidator> QueenValidator<T> {
    pub fn new(location_info: T) -> (r: QueenValidator<T>)
        ensures
            r.location_spec() == location_info,
    {
        QueenValidator { location_info }
    }

    /// The move this validator checks.
    pub closed spec fn location_spec(&self) -> T {
        self.location_info
    }
}

impl<T> BaseValidator for QueenValidator<T> where T: Copy + BaseValidator {
    open spec fn from_spec(&self) -> RowColumn {
        self.location_spec().from_spec()
    }

    open spec fn to_spec(&self) -> RowColumn {
        self.location_spec().to_spec()
    }

    open spec fn validate_spec(&self) -> bool {
        self.location_spec().validate_spec() && (rook_shape(self.from_spec(), self.to_spec())
            || bishop_shape(self.from_spec(), self.to_spec()))
    }

    fn get_from(&self) -> (r: &RowColumn) {
        &self.location_info.get_from()
    }

    fn get_to(&self) -> (r: &RowColumn) {
        &self.location_info.get_to()
    }

    fn validate(&self) -> (r: bool) {
        if !self.location_info.validate() {
            return false;
        }
        RookValidator::new(self.location_info).validate() || BishopValidator::new(
            self.location_info,
        ).validate()
    }
}

} // verus!
