//! Column indices of the board, by file letter.
use vstd::prelude::*;

verus! {

/// Column of file a.
pub const A: u8 = 0;

/// Column of file b.
pub const B: u8 = 1;

/// Column of file c.
pub const C: u8 = 2;

/// Column of file d.
pub const D: u8 = 3;

/// Column of file e.
pub const E: u8 = 4;

/// Column of file f.
pub const F: u8 = 5;

/// Column of file g.
pub const G: u8 = 6;

/// Column of file h.
pub const H: u8 = 7;

} // verus!
