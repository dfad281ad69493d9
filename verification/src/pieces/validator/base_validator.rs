//! What every validator of a move knows (where the move starts and ends, and whether
//! its shape is allowed), and the check that no piece stands in the way.
use vstd::prelude::*;

use crate::game::board::{Board, Grid, occupied};
use crate::pieces::validator::bishop_validator::bishop_valid;
use crate::pieces::validator::king_validator::king_valid;
use crate::pieces::validator::knight_validator::knight_valid;
use crate::pieces::validator::queen_validator::queen_valid;
use crate::pieces::validator::rook_validator::rook_valid;
use crate::pieces::validator::row_column::{
    BaseLocation,
    RowColumn,
    aligned,
    as_i8,
    diff8,
    dist8,
    lemma_path_on_board,
    s8,
    sub_i8,
    on_board,
    path_square,
    sign,
    steps,
};

verus! {

/// A move whose shape can be checked.
pub trait BaseValidator {
    /// The square the move leaves.
    spec fn from_spec(&self) -> RowColumn;

    /// The square the move goes to.
    spec fn to_spec(&self) -> RowColumn;

    /// Whether the move has a shape the validator allows.
    spec fn validate_spec(&self) -> bool;

    fn get_from(&self) -> (r: &RowColumn)
        ensures
            *r == self.from_spec(),
    ;

    fn get_to(&self) -> (r: &RowColumn)
        ensures
            *r == self.to_spec(),
    ;

    fn validate(&self) -> (r: bool)
        ensures
            r == self.validate_spec(),
    ;
}

/// The target lies on the board and differs from the start.
pub open spec fn base_valid(from: RowColumn, to: RowColumn) -> bool {
    &&& to.row <= 7
    &&& to.column <= 7
    &&& !(from.row == to.row && from.column == to.column)
}

/// No piece stands on the squares strictly between `from` and `to`.
pub open spec fn path_clear(g: Grid, from: RowColumn, to: RowColumn) -> bool {
    forall|k: int| 1 <= k < steps(from, to) ==> !#[trigger] occupied(g, path_square(from, to, k))
}

/// `a` moved `k` steps in the direction `d` (-1, 0 or 1).
pub open spec fn step_toward(a: int, d: int, k: int) -> int {
    if d > 0 {
        a + k
    } else if d < 0 {
        a - k
    } else {
        a
    }
}

/// The row reached after `k` steps from `from` towards `to`, each step moving by the sign
/// of the wrapped difference of the rows read as signed bytes.
pub open spec fn walk_row(from: RowColumn, to: RowColumn, k: int) -> int {
    step_toward(from.row as int, sign(diff8(to.row, from.row)), k)
}

/// The column reached after `k` steps from `from` towards `to` (see `walk_row`).
pub open spec fn walk_column(from: RowColumn, to: RowColumn, k: int) -> int {
    step_toward(from.column as int, sign(diff8(to.column, from.column)), k)
}

/// Where the walk from `from` towards `to` on the board `g` ends, from its `k`-th step
/// on: `Some(true)` when it reaches `to`; `Some(false)` when it passes row or column 0 or
/// meets a piece first; `None` when it would read a square beyond row or column 7 first.
pub open spec fn walk_from(g: Grid, from: RowColumn, to: RowColumn, k: int) -> Option<bool>
    decreases 9 - k,
{
    let r = walk_row(from, to, k);
    let c = walk_column(from, to, k);
    if r < 0 || c < 0 {
        Some(false)
    } else if r == s8(to.row) && c == s8(to.column) {
        Some(true)
    } else if r > 7 || c > 7 {
        None
    } else if occupied(g, RowColumn { row: r as u8, column: c as u8 }) {
        Some(false)
    } else if k >= 8 {
        None
    } else {
        walk_from(g, from, to, k + 1)
    }
}

/// Along a line of the board the walk reaches the target exactly when no piece stands
/// between the two squares.
pub proof fn lemma_walk_aligned(g: Grid, from: RowColumn, to: RowColumn)
    requires
        on_board(from),
        on_board(to),
        aligned(from, to),
    ensures
        walk_from(g, from, to, 1) == Some(path_clear(g, from, to)),
{
    lemma_walk_aligned_from(g, from, to, 1);
}

/// The walk from step `k` on, along a line of the board: it reaches the target exactly
/// when no piece stands on the path squares from step `k` on.
proof fn lemma_walk_aligned_from(g: Grid, from: RowColumn, to: RowColumn, k: int)
    requires
        on_board(from),
        on_board(to),
        aligned(from, to),
        1 <= k,
        k <= steps(from, to) || (steps(from, to) == 0 && k == 1),
    ensures
        walk_from(g, from, to, k) == Some(
            forall|j: int| k <= j < steps(from, to) ==> !#[trigger] occupied(g, path_square(from, to, j)),
        ),
    decreases steps(from, to) - k,
{
    let n = steps(from, to);
    if n == 0 {
        assert(from == to);
    } else {
        lemma_path_on_board(from, to, k);
        let sq = path_square(from, to, k);
        assert(walk_row(from, to, k) == sq.row);
        assert(walk_column(from, to, k) == sq.column);
        if k < n {
            assert(sq != to);
            assert(sq == (RowColumn { row: walk_row(from, to, k) as u8, column: walk_column(from, to, k) as u8 }));
            if !occupied(g, sq) {
                lemma_walk_aligned_from(g, from, to, k + 1);
                assert((forall|j: int| k <= j < n ==> !#[trigger] occupied(g, path_square(from, to, j)))
                    == (forall|j: int| k + 1 <= j < n ==> !#[trigger] occupied(g, path_square(from, to, j))));
            }
        }
    }
}

/// The check that a move is not blocked.
pub trait ContainsConflictingPiece {
    /// The walk from the start towards the end of the move on the board `g` stops before
    /// it would read a square beyond row or column 7.
    spec fn can_move_defined(&self, g: Grid) -> bool;

    /// The walk from the start towards the end of the move on the board `g` reaches the
    /// end: along a line of the board, no piece stands between the two squares.
    spec fn can_move_spec(&self, g: Grid) -> bool;

    fn can_move(&self, board: &Board) -> (r: bool)
        requires
            board.wf(),
            self.can_move_defined(board.grid()),
        ensures
            r == self.can_move_spec(board.grid()),
    ;
}

impl<R: BaseValidator> ContainsConflictingPiece for R {
    open spec fn can_move_defined(&self, g: Grid) -> bool {
        &&& on_board(self.from_spec())
        &&& walk_from(g, self.from_spec(), self.to_spec(), 1) is Some
    }

    open spec fn can_move_spec(&self, g: Grid) -> bool {
        walk_from(g, self.from_spec(), self.to_spec(), 1) == Some(true)
    }

    fn can_move(&self, board: &Board) -> (r: bool) {
        let from = self.get_from();
        let to = self.get_to();
        let mut new_row = sub_i8(to.row, from.row);
        let mut new_column = sub_i8(to.column, from.column);
        let increment_row: i8 = if new_row == 0 {
            0
        } else {
            if new_row < 0 {
                -1
            } else {
                1
            }
        };
        let increment_column: i8 = if new_column == 0 {
            0
        } else {
            if new_column < 0 {
                -1
            } else {
                1
            }
        };
        if new_row == 0 && to.row == from.row {
            new_row = as_i8(to.row);
        }
        if new_column == 0 && to.column == from.column {
            new_column = as_i8(to.column);
        }
        let mut from_row = from.row as i8;
        let mut from_column = from.column as i8;
        let ghost g = board.grid();
        let ghost mut k: int = 0;
        loop
            invariant
                board.wf(),
                g == board.grid(),
                *from == self.from_spec(),
                *to == self.to_spec(),
                on_board(*from),
                walk_from(g, *from, *to, 1) is Some,
                0 <= k <= 8,
                increment_row == sign(diff8(to.row, from.row)),
                increment_column == sign(diff8(to.column, from.column)),
                from_row == walk_row(*from, *to, k),
                from_column == walk_column(*from, *to, k),
                0 <= from_row <= 7,
                0 <= from_column <= 7,
                walk_from(g, *from, *to, k + 1) == walk_from(g, *from, *to, 1),
            decreases 8 - k,
        {
            from_row += increment_row;
            from_column += increment_column;
            proof {
                k = k + 1;
            }
            if from_row < 0 || from_column < 0 {
                return false;
            }
            if from_row == as_i8(to.row) && from_column == as_i8(to.column) {
                return true;
            }
            proof {
                assert(from_row <= 7 && from_column <= 7);
                assert(board.squares@[from_row as int]@ == g[from_row as int]);
            }
            if board.squares[from_row as usize][from_column as usize].has_piece() {
                return false;
            }
        }
    }
}

impl BaseValidator for BaseLocation {
    open spec fn from_spec(&self) -> RowColumn {
        self.from
    }

    open spec fn to_spec(&self) -> RowColumn {
        self.to
    }

    open spec fn validate_spec(&self) -> bool {
        base_valid(self.from, self.to)
    }

    fn get_from(&self) -> (r: &RowColumn) {
        return &self.from;
    }

    fn get_to(&self) -> (r: &RowColumn) {
        return &self.to;
    }

    fn validate(&self) -> (r: bool) {
        self.is_valid_movement(&self.get_to().row, &self.get_to().column) &&
        // can't be the same spot
        !(&self.get_from().row == &self.get_to().row && &self.get_from().column
            == &self.get_to().column)
    }
}

/// On a line, the square `k` steps from `a` towards `b` is the square `steps - k` steps
/// from `b` towards `a`.
pub proof fn lemma_path_square_reversed(a: RowColumn, b: RowColumn, k: int)
    requires
        aligned(a, b),
        0 <= k <= steps(a, b),
    ensures
        steps(b, a) == steps(a, b),
        path_square(a, b, k) == path_square(b, a, steps(a, b) - k),
{
}

/// Whether pieces stand between two squares of a line does not depend on the direction
/// in which the line is read.
pub proof fn lemma_path_clear_reversed(g: Grid, a: RowColumn, b: RowColumn)
    requires
        aligned(a, b),
    ensures
        path_clear(g, a, b) == path_clear(g, b, a),
{
    let n = steps(a, b);
    lemma_path_square_reversed(a, b, 0);
    if path_clear(g, a, b) {
        assert forall|k: int| 1 <= k < steps(b, a) implies !#[trigger] occupied(
            g,
            path_square(b, a, k),
        ) by {
            lemma_path_square_reversed(a, b, n - k);
            assert(!occupied(g, path_square(a, b, n - k)));
        }
    }
    if path_clear(g, b, a) {
        assert forall|k: int| 1 <= k < n implies !#[trigger] occupied(g, path_square(a, b, k)) by {
            lemma_path_square_reversed(a, b, k);
            assert(!occupied(g, path_square(b, a, n - k)));
        }
    }
}

/// A move of a rook, a bishop, a queen, a knight or a king between two squares of the
/// board can be made back: the shapes these pieces may move in read the same both ways,
/// and so do the squares a rook, a bishop or a queen passes over.
pub proof fn lemma_moves_reversible(g: Grid, a: RowColumn, b: RowColumn)
    requires
        on_board(a),
        on_board(b),
    ensures
        dist8(a.row, b.row) == dist8(b.row, a.row),
        dist8(a.column, b.column) == dist8(b.column, a.column),
        rook_valid(a, b) == rook_valid(b, a),
        bishop_valid(a, b) == bishop_valid(b, a),
        queen_valid(a, b) == queen_valid(b, a),
        knight_valid(a, b) == knight_valid(b, a),
        king_valid(a, b) == king_valid(b, a),
        rook_valid(a, b) || bishop_valid(a, b) ==> path_clear(g, a, b) == path_clear(g, b, a),
        queen_valid(a, b) == (rook_valid(a, b) || bishop_valid(a, b)),
{
    if rook_valid(a, b) || bishop_valid(a, b) {
        lemma_path_clear_reversed(g, a, b);
    }
}

} // verus!
