//! What a move leaves the opponent's king in.
use vstd::prelude::*;

verus! {

/// The state of the opponent's king after a move.
#[allow(non_camel_case_types)]
#[derive(Clone, Copy, PartialEq, Eq, Debug, Structural)]
pub enum CheckMateStatus {
    /// The king is not attacked.
    NONE,
    /// The king is attacked but the attack can be answered.
    CHECK,
    /// The king is attacked and no answer was found.
    CHECKMATE,
}

} // verus!
