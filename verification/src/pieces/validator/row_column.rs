//! Squares, moves from one square to another, and the arithmetic on coordinates
//! that the movement rules use.
use vstd::prelude::*;

verus! {

/// A square of the board. Row 0 is the eighth rank (black's back rank), row 7 the first;
/// column 0 is file a, column 7 file h.
#[derive(Clone, Copy, Eq, PartialEq, Debug, Structural)]
pub struct RowColumn {
    pub row: u8,
    pub column: u8,
}

impl RowColumn {
    pub fn new(row: u8, column: u8) -> (rc: RowColumn)
        ensures
            rc.row == row,
            rc.column == column,
    {
        RowColumn { row, column }
    }
}

/// A move of a piece: the square it leaves and the square it goes to.
#[derive(Clone, Copy, Debug)]
pub struct BaseLocation {
    pub from: RowColumn,
    pub to: RowColumn,
}

impl BaseLocation {
    pub fn new(from_row: u8, from_column: u8, to_row: u8, to_column: u8) -> (b: BaseLocation)
        ensures
            b.from == (RowColumn { row: from_row, column: from_column }),
            b.to == (RowColumn { row: to_row, column: to_column }),
    {
        BaseLocation {
            from: RowColumn::new(from_row, from_column),
            to: RowColumn::new(to_row, to_column),
        }
    }

    pub fn new_row_column(from_row: RowColumn, to_row: RowColumn) -> (b: BaseLocation)
        ensures
            b.from == from_row,
            b.to == to_row,
    {
        BaseLocation { from: from_row, to: to_row }
    }

    #[allow(unused_comparisons)]
    fn invalid_movements(&self, value: &u8) -> (r: bool)
        ensures
            r == (*value > 7),
    {
        *value < 0u8 || *value > 7u8
    }

    /// Whether the target square lies on the board.
    pub fn is_valid_movement(&self, to_row: &u8, to_column: &u8) -> (r: bool)
        ensures
            r == (*to_row <= 7 && *to_column <= 7),
    {
        !self.invalid_movements(to_row) && !self.invalid_movements(to_column)
    }
}

/// The square lies on the board.
pub open spec fn on_board(rc: RowColumn) -> bool {
    rc.row <= 7 && rc.column <= 7
}

/// A byte read as a signed 8-bit integer, as `u8 as i8` reads it.
pub open spec fn s8(v: u8) -> int {
    if v < 128 {
        v as int
    } else {
        v - 256
    }
}

/// An integer between -384 and 383 wrapped into the signed 8-bit range, as `i8`
/// arithmetic gives it when overflow wraps.
pub open spec fn wrap_i8(d: int) -> int {
    if d > 127 {
        d - 256
    } else if d < -128 {
        d + 256
    } else {
        d
    }
}

/// The difference of two coordinates read as signed 8-bit integers, wrapped into the
/// signed 8-bit range: what `(a as i8) - (b as i8)` gives when overflow wraps.
pub open spec fn diff8(a: u8, b: u8) -> int {
    wrap_i8(s8(a) - s8(b))
}

/// The absolute value of a signed 8-bit integer when overflow wraps (`-128` stays `-128`).
pub open spec fn abs8(x: int) -> int {
    if x == -128 {
        -128
    } else if x < 0 {
        -x
    } else {
        x
    }
}

/// `((a as i8) - (b as i8)).abs()`, with wrapping overflow.
pub open spec fn dist8(a: u8, b: u8) -> int {
    abs8(diff8(a, b))
}

/// A sum of bytes wrapped into the byte range, as `u8` arithmetic does when overflow wraps.
pub open spec fn wrap_u8(x: int) -> int {
    if x < 0 {
        x + 256
    } else if x > 255 {
        x - 256
    } else {
        x
    }
}

/// The sign of an integer.
pub open spec fn sign(x: int) -> int {
    if x > 0 {
        1
    } else if x < 0 {
        -1
    } else {
        0
    }
}

/// The absolute value of an integer.
pub open spec fn abs(x: int) -> int {
    if x < 0 {
        -x
    } else {
        x
    }
}

/// The two squares are on one rank, one file or one diagonal (or are the same square).
pub open spec fn aligned(from: RowColumn, to: RowColumn) -> bool {
    let dr = to.row - from.row;
    let dc = to.column - from.column;
    dr == 0 || dc == 0 || dr == dc || dr == -dc
}

/// The number of one-square steps that lead from `from` to `to` along their line.
pub open spec fn steps(from: RowColumn, to: RowColumn) -> int {
    let dr = abs(to.row - from.row);
    let dc = abs(to.column - from.column);
    if dr >= dc {
        dr
    } else {
        dc
    }
}

/// `a` moved `k` steps towards `b`.
pub open spec fn toward(a: int, b: int, k: int) -> int {
    if b > a {
        a + k
    } else if b < a {
        a - k
    } else {
        a
    }
}

/// The square reached after `k` steps from `from` towards `to`.
pub open spec fn path_square(from: RowColumn, to: RowColumn, k: int) -> RowColumn {
    RowColumn {
        row: toward(from.row as int, to.row as int, k) as u8,
        column: toward(from.column as int, to.column as int, k) as u8,
    }
}

/// The squares strictly between `from` and `to`, in order from `from`.
pub open spec fn between(from: RowColumn, to: RowColumn) -> Seq<RowColumn> {
    Seq::new(
        (if steps(from, to) > 0 {
            steps(from, to) - 1
        } else {
            0
        }) as nat,
        |i: int| path_square(from, to, i + 1),
    )
}

/// `v as i8`.
pub fn as_i8(v: u8) -> (r: i8)
    ensures
        r == s8(v),
{
    if v < 128 {
        v as i8
    } else {
        (v as i16 - 256) as i8
    }
}

/// `v + 1` with wrapping overflow.
pub fn add1_u8(v: u8) -> (r: u8)
    ensures
        r == wrap_u8(v + 1),
{
    if v == 255 {
        0
    } else {
        v + 1
    }
}

/// `v - 1` with wrapping overflow.
pub fn sub1_u8(v: u8) -> (r: u8)
    ensures
        r == wrap_u8(v - 1),
{
    if v == 0 {
        255
    } else {
        v - 1
    }
}

/// `v - 1` on a signed 8-bit integer, with wrapping overflow.
pub fn sub1_i8(v: i8) -> (r: i8)
    ensures
        r == wrap_i8(v - 1),
{
    if v == -128 {
        127
    } else {
        v - 1
    }
}

/// `((a as i8) - (b as i8))` with wrapping overflow.
pub fn sub_i8(a: u8, b: u8) -> (d: i8)
    ensures
        d == diff8(a, b),
{
    let x: i16 = if a < 128 {
        a as i16
    } else {
        a as i16 - 256
    };
    let y: i16 = if b < 128 {
        b as i16
    } else {
        b as i16 - 256
    };
    let d: i16 = x - y;
    if d > 127 {
        (d - 256) as i8
    } else if d < -128 {
        (d + 256) as i8
    } else {
        d as i8
    }
}

/// `i8::abs` with wrapping overflow.
pub fn abs_i8(x: i8) -> (r: i8)
    ensures
        r == abs8(x as int),
{
    if x == -128 {
        x
    } else if x < 0 {
        -x
    } else {
        x
    }
}

/// `((a as i8) - (b as i8)).abs()` with wrapping overflow.
pub fn dist_i8(a: u8, b: u8) -> (r: i8)
    ensures
        r == dist8(a, b),
{
    abs_i8(sub_i8(a, b))
}

/// The path squares of a line of squares on the board lie on the board, and the last
/// step reaches the target.
pub proof fn lemma_path_on_board(from: RowColumn, to: RowColumn, k: int)
    requires
        on_board(from),
        on_board(to),
        aligned(from, to),
        0 <= k <= steps(from, to),
    ensures
        on_board(path_square(from, to, k)),
        path_square(from, to, k).row == toward(from.row as int, to.row as int, k),
        path_square(from, to, k).column == toward(from.column as int, to.column as int, k),
        k == steps(from, to) ==> path_square(from, to, k) == to,
        0 < k < steps(from, to) ==> path_square(from, to, k) != to,
{
}

/// The squares between two squares of a line of the board lie on the board.
pub proof fn lemma_path_on_board_between(from: RowColumn, to: RowColumn, i: int)
    requires
        on_board(from),
        on_board(to),
        aligned(from, to),
        0 <= i < between(from, to).len(),
    ensures
        on_board(between(from, to)[i]),
{
    lemma_path_on_board(from, to, i + 1);
}

} // verus!
