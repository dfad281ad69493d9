//! Where the kings stand, which pieces attack a square, and when an attack on a king
//! can be answered: the rules by which a move is found to give check or checkmate.
use vstd::prelude::*;

use crate::game::board::{Grid, grid_shape, lemma_put_read, occupied, piece_at, put};
use crate::game::check_mate_status::CheckMateStatus;
use crate::game::game::History;
use crate::pieces::color::Color;
use crate::pieces::piece::{PieceType, movement_spec, piece_color, piece_type};
use crate::pieces::validator::row_column::{RowColumn, aligned, between, on_board};

verus! {

/// `a` comes before `b` when the board is read row by row, each row from column 0.
pub open spec fn earlier(a: RowColumn, b: RowColumn) -> bool {
    a.row < b.row || (a.row == b.row && a.column < b.column)
}

/// `rc` is the first square of the board, read row by row, where `p` holds.
pub open spec fn first_of(p: spec_fn(RowColumn) -> bool, rc: RowColumn) -> bool {
    &&& on_board(rc)
    &&& p(rc)
    &&& forall|q: RowColumn| on_board(q) && earlier(q, rc) ==> !#[trigger] p(q)
}

/// The first square of the board, read row by row, where `p` holds, if any.
pub open spec fn first_where(p: spec_fn(RowColumn) -> bool) -> Option<RowColumn> {
    if exists|rc: RowColumn| first_of(p, rc) {
        Some(choose|rc: RowColumn| first_of(p, rc))
    } else {
        None
    }
}

/// A square is found first only once.
pub proof fn lemma_first_where_found(p: spec_fn(RowColumn) -> bool, rc: RowColumn)
    requires
        first_of(p, rc),
    ensures
        first_where(p) == Some(rc),
{
    let c = choose|c: RowColumn| first_of(p, c);
    assert(first_of(p, c));
    if c != rc {
        if earlier(c, rc) {
            assert(!p(c));
        } else {
            assert(earlier(rc, c));
            assert(!p(rc));
        }
    }
}

/// What is found is the first square where `p` holds.
pub proof fn lemma_first_where_some(p: spec_fn(RowColumn) -> bool, rc: RowColumn)
    requires
        first_where(p) == Some(rc),
    ensures
        first_of(p, rc),
{
}

/// Nothing is found where `p` holds nowhere.
pub proof fn lemma_first_where_none(p: spec_fn(RowColumn) -> bool)
    requires
        forall|q: RowColumn| on_board(q) ==> !#[trigger] p(q),
    ensures
        first_where(p) == None::<RowColumn>,
{
}

/// A piece of side `color` stands at `rc`.
pub open spec fn color_at(g: Grid, rc: RowColumn, color: Color) -> bool {
    match piece_at(g, rc) {
        Some(p) => piece_color(p) == color,
        None => false,
    }
}

/// The square at `row`, `column`.
pub open spec fn square_rc(row: int, column: int) -> RowColumn {
    RowColumn { row: row as u8, column: column as u8 }
}

/// A king of the side other than `current` stands at `rc`.
pub open spec fn other_king_at(g: Grid, current: Color, rc: RowColumn) -> bool {
    &&& !color_at(g, rc, current)
    &&& piece_at(g, rc) matches Some(p)
    &&& piece_type(p) == PieceType::King
}

/// The first square, read row by row, holding a king of the side other than `current`.
pub open spec fn king_position_spec(g: Grid, current: Color) -> Option<RowColumn> {
    first_where(|rc: RowColumn| other_king_at(g, current, rc))
}

/// The piece at `rc` attacks `target`: its side is not `king_color` when
/// `skip_same_color` holds and is `king_color` otherwise, it stands elsewhere than
/// `target`, and it may move onto `target`, a pawn taking diagonally.
pub open spec fn attacks(
    g: Grid,
    last: Option<History>,
    target: RowColumn,
    skip_same_color: bool,
    king_color: Color,
    rc: RowColumn,
) -> bool {
    &&& (if skip_same_color {
        !color_at(g, rc, king_color)
    } else {
        color_at(g, rc, king_color)
    })
    &&& rc != target
    &&& piece_at(g, rc) matches Some(p)
    &&& !(movement_spec(p, rc, target, g, last, true) is INVALID)
}

/// The first square, read row by row, whose piece attacks `target`.
pub open spec fn check_spec(
    g: Grid,
    last: Option<History>,
    target: RowColumn,
    skip_same_color: bool,
    king_color: Color,
) -> Option<RowColumn> {
    first_where(|rc: RowColumn| attacks(g, last, target, skip_same_color, king_color, rc))
}

/// The offset of the `i`-th neighbouring square, in the order the neighbours are visited.
pub open spec fn movement_offset(i: int) -> (int, int) {
    if i == 0 {
        (-1, -1)
    } else if i == 1 {
        (-1, 0)
    } else if i == 2 {
        (-1, 1)
    } else if i == 3 {
        (0, -1)
    } else if i == 4 {
        (0, 1)
    } else if i == 5 {
        (1, -1)
    } else if i == 6 {
        (1, 0)
    } else {
        (1, 1)
    }
}

/// The empty squares on the board among the first `n` neighbours of `rc`, in order.
pub open spec fn around_upto(g: Grid, rc: RowColumn, n: int) -> Seq<RowColumn>
    decreases n,
{
    if n <= 0 {
        Seq::empty()
    } else {
        let prev = around_upto(g, rc, n - 1);
        let row = rc.row + movement_offset(n - 1).0;
        let column = rc.column + movement_offset(n - 1).1;
        if row < 0 || column < 0 || row >= 8 || column >= 8 || occupied(g, square_rc(row, column)) {
            prev
        } else {
            prev.push(square_rc(row, column))
        }
    }
}

/// The empty neighbouring squares of `rc`, in the order they are visited.
pub open spec fn around(g: Grid, rc: RowColumn) -> Seq<RowColumn> {
    around_upto(g, rc, 8)
}

/// The squares on which a piece could block the attack of the piece at `target` on the
/// piece at `king`: none when either square is empty or the attacker is a knight or a
/// king, the squares between them otherwise.
pub open spec fn block_squares(g: Grid, target: RowColumn, king: RowColumn) -> Seq<RowColumn> {
    match piece_at(g, king) {
        None => Seq::empty(),
        Some(_) => match piece_at(g, target) {
            None => Seq::empty(),
            Some(t) => if piece_type(t) == PieceType::Knight || piece_type(t) == PieceType::King {
                Seq::empty()
            } else {
                between(target, king)
            },
        },
    }
}

/// The piece at `rc` can answer an attack from `target`: it is not of side `current`,
/// not a king, stands elsewhere than `target`, and may take the attacker or move onto
/// one of the squares `block`.
pub open spec fn rescues(
    g: Grid,
    last: Option<History>,
    current: Color,
    target: RowColumn,
    block: Seq<RowColumn>,
    rc: RowColumn,
) -> bool {
    &&& !color_at(g, rc, current)
    &&& rc != target
    &&& piece_at(g, rc) matches Some(p)
    &&& piece_type(p) != PieceType::King
    &&& (movement_spec(p, rc, target, g, last, false) is VALID || exists|i: int|
        0 <= i < block.len() && movement_spec(p, rc, block[i], g, last, false) is VALID)
}

/// Some piece can answer the attack from `target` on `king`.
pub open spec fn rescue_spec(
    g: Grid,
    last: Option<History>,
    current: Color,
    target: RowColumn,
    king: RowColumn,
) -> bool {
    exists|rc: RowColumn|
        on_board(rc) && #[trigger] rescues(
            g,
            last,
            current,
            target,
            block_squares(g, target, king),
            rc,
        )
}

/// The king may step to `other`: no piece attacks `other`, or the first attack on it
/// can be answered.
pub open spec fn escape(
    g: Grid,
    last: Option<History>,
    current: Color,
    king_color: Color,
    other: RowColumn,
) -> bool {
    &&& !color_at(g, other, current)
    &&& match check_spec(g, last, other, true, king_color) {
        None => true,
        Some(t) => rescue_spec(g, last, current, t, other),
    }
}

/// The state the side `current` leaves the other side's king in, on the board `g`, the
/// last move being `last`: NONE when there is no such king or nothing attacks it; CHECK
/// when the first attack on it can be answered, or when, the king taken off the board,
/// one of its empty neighbouring squares is a way out; CHECKMATE otherwise.
pub open spec fn status_spec(g: Grid, last: Option<History>, current: Color) -> CheckMateStatus {
    match king_position_spec(g, current) {
        None => CheckMateStatus::NONE,
        Some(k) => {
            let king_color = piece_color(piece_at(g, k).unwrap());
            match check_spec(g, last, k, true, king_color) {
                None => CheckMateStatus::NONE,
                Some(t) => if rescue_spec(g, last, current, t, k) {
                    CheckMateStatus::CHECK
                } else if exists|i: int|
                    0 <= i < around(g, k).len() && escape(
                        put(g, k, None),
                        last,
                        current,
                        king_color,
                        #[trigger] around(g, k)[i],
                    ) {
                    CheckMateStatus::CHECK
                } else {
                    CheckMateStatus::CHECKMATE
                },
            }
        },
    }
}

/// The last move of a record of moves.
pub open spec fn last_move(s: Seq<History>) -> Option<History> {
    if s.len() == 0 {
        None
    } else {
        Some(s.last())
    }
}

/// The neighbours listed by `around_upto` lie on the board, are empty, and differ from
/// `rc`.
pub proof fn lemma_around_upto(g: Grid, rc: RowColumn, n: int)
    requires
        on_board(rc),
    ensures
        forall|i: int|
            0 <= i < around_upto(g, rc, n).len() ==> on_board(#[trigger] around_upto(g, rc, n)[i])
                && !occupied(g, around_upto(g, rc, n)[i]) && around_upto(g, rc, n)[i] != rc,
    decreases n,
{
    if n > 0 {
        lemma_around_upto(g, rc, n - 1);
        let prev = around_upto(g, rc, n - 1);
        let cur = around_upto(g, rc, n);
        assert forall|i: int| 0 <= i < cur.len() implies on_board(#[trigger] cur[i]) && !occupied(
            g,
            cur[i],
        ) && cur[i] != rc by {
            if i < prev.len() {
                assert(cur[i] == prev[i]);
            }
        }
    }
}

/// A piece other than a knight or a king that attacks a square does so along a rank, a
/// file or a diagonal.
pub proof fn lemma_attack_aligned(
    g: Grid,
    last: Option<History>,
    target: RowColumn,
    skip_same_color: bool,
    king_color: Color,
    rc: RowColumn,
)
    requires
        grid_shape(g),
        on_board(target),
        on_board(rc),
        attacks(g, last, target, skip_same_color, king_color, rc),
    ensures
        piece_type(piece_at(g, rc).unwrap()) != PieceType::Knight && piece_type(
            piece_at(g, rc).unwrap(),
        ) != PieceType::King ==> aligned(rc, target),
{
}

/// A king is only ever found in check or checkmate when a king of the other side stands
/// on the board and a piece attacks it; and it is checkmate only when that attack
/// cannot be answered.
pub proof fn lemma_status_attacked(g: Grid, last: Option<History>, current: Color)
    ensures
        status_spec(g, last, current) != CheckMateStatus::NONE ==> {
            &&& king_position_spec(g, current) is Some
            &&& check_spec(
                g,
                last,
                king_position_spec(g, current).unwrap(),
                true,
                piece_color(piece_at(g, king_position_spec(g, current).unwrap()).unwrap()),
            ) is Some
        },
        status_spec(g, last, current) == CheckMateStatus::CHECKMATE ==> !rescue_spec(
            g,
            last,
            current,
            check_spec(
                g,
                last,
                king_position_spec(g, current).unwrap(),
                true,
                piece_color(piece_at(g, king_position_spec(g, current).unwrap()).unwrap()),
            ).unwrap(),
            king_position_spec(g, current).unwrap(),
        ),
{
}

/// Without a king of the side not to move on the board, no check is found.
pub proof fn lemma_no_king_no_status(g: Grid, last: Option<History>, current: Color)
    requires
        forall|rc: RowColumn| on_board(rc) ==> !#[trigger] other_king_at(g, current, rc),
    ensures
        king_position_spec(g, current) == None::<RowColumn>,
        status_spec(g, last, current) == CheckMateStatus::NONE,
{
    lemma_first_where_none(|rc: RowColumn| other_king_at(g, current, rc));
}

/// `o` is one of the eight squares around `k`.
pub open spec fn neighbours(k: RowColumn, o: RowColumn) -> bool {
    &&& o != k
    &&& -1 <= o.row - k.row <= 1
    &&& -1 <= o.column - k.column <= 1
}

/// The position, in the order the squares around a king are visited, of the square at
/// row offset `dr` and column offset `dc`.
spec fn offset_index(dr: int, dc: int) -> int {
    if dr == -1 {
        dc + 1
    } else if dr == 0 {
        if dc == -1 {
            3
        } else {
            4
        }
    } else {
        dc + 6
    }
}

/// An empty square around `k` on the board is among the first `n` squares visited once
/// its turn has come.
proof fn lemma_around_upto_contains(g: Grid, k: RowColumn, o: RowColumn, n: int)
    requires
        on_board(k),
        on_board(o),
        neighbours(k, o),
        !occupied(g, o),
        n > offset_index(o.row - k.row, o.column - k.column),
        n <= 8,
    ensures
        around_upto(g, k, n).contains(o),
    decreases n,
{
    let idx = offset_index(o.row - k.row, o.column - k.column);
    let prev = around_upto(g, k, n - 1);
    let row = k.row + movement_offset(n - 1).0;
    let column = k.column + movement_offset(n - 1).1;
    if n - 1 == idx {
        assert(row == o.row && column == o.column);
        assert(square_rc(row, column) == o);
        assert(around_upto(g, k, n) == prev.push(o));
        assert(around_upto(g, k, n)[prev.len() as int] == o);
    } else {
        lemma_around_upto_contains(g, k, o, n - 1);
        let i = choose|i: int| 0 <= i < prev.len() && prev[i] == o;
        assert(around_upto(g, k, n)[i] == o);
    }
}

/// The king of the side not to move stands on `k` and on no other square.
pub open spec fn only_king_at(g: Grid, current: Color, k: RowColumn) -> bool {
    &&& on_board(k)
    &&& piece_at(g, k) matches Some(p)
    &&& piece_type(p) == PieceType::King
    &&& piece_color(p) != current
    &&& forall|q: RowColumn|
        on_board(q) && q != k && #[trigger] occupied(g, q) ==> !(piece_type(piece_at(g, q).unwrap())
            == PieceType::King && piece_color(piece_at(g, q).unwrap()) != current)
}

/// The only king of the side not to move is found on its square.
pub proof fn lemma_only_king_found(g: Grid, current: Color, k: RowColumn)
    requires
        only_king_at(g, current, k),
    ensures
        king_position_spec(g, current) == Some(k),
{
    let p = |rc: RowColumn| other_king_at(g, current, rc);
    assert forall|q: RowColumn| on_board(q) && earlier(q, k) implies !#[trigger] p(q) by {
        assert(q != k);
        if occupied(g, q) {
            assert(!(piece_type(piece_at(g, q).unwrap()) == PieceType::King && piece_color(
                piece_at(g, q).unwrap(),
            ) != current));
        }
    }
    assert(first_of(p, k));
    lemma_first_where_found(p, k);
}

/// A king with a way out is never checkmated: when the only king of the side not to move
/// has an empty square around it on the board that no piece of the side that moved may
/// move onto once the king is lifted off the board (pawns counted as taking), the state
/// after the move is not checkmate.
pub proof fn lemma_way_out_not_checkmate(
    g: Grid,
    last: Option<History>,
    current: Color,
    k: RowColumn,
    o: RowColumn,
)
    requires
        grid_shape(g),
        only_king_at(g, current, k),
        on_board(o),
        neighbours(k, o),
        !occupied(g, o),
        forall|q: RowColumn|
            on_board(q) && q != o && #[trigger] occupied(put(g, k, None), q) && piece_color(
                piece_at(put(g, k, None), q).unwrap(),
            ) == current ==> movement_spec(
                piece_at(put(g, k, None), q).unwrap(),
                q,
                o,
                put(g, k, None),
                last,
                true,
            ) is INVALID,
    ensures
        status_spec(g, last, current) != CheckMateStatus::CHECKMATE,
{
    lemma_only_king_found(g, current, k);
    let king_color = piece_color(piece_at(g, k).unwrap());
    let g2 = put(g, k, None);
    lemma_put_read(g, k, None, o);
    lemma_around_upto_contains(g, k, o, 8);
    let i = choose|i: int| 0 <= i < around(g, k).len() && around(g, k)[i] == o;
    let pa = |rc: RowColumn| attacks(g2, last, o, true, king_color, rc);
    assert forall|q: RowColumn| on_board(q) implies !#[trigger] pa(q) by {
        if q != o && occupied(g2, q) {
            if piece_color(piece_at(g2, q).unwrap()) != king_color {
                assert(piece_color(piece_at(g2, q).unwrap()) == current);
            }
        }
    }
    lemma_first_where_none(pa);
    assert(check_spec(g2, last, o, true, king_color) == None::<RowColumn>);
    assert(!color_at(g2, o, current));
    assert(escape(g2, last, current, king_color, around(g, k)[i]));
}

/// `t` holds a piece of side `current`, standing elsewhere than `target`, that may move
/// onto `target` on the board `g` (a pawn as taking).
pub open spec fn threatens(g: Grid, last: Option<History>, current: Color, t: RowColumn, target: RowColumn) -> bool {
    &&& t != target
    &&& occupied(g, t)
    &&& piece_color(piece_at(g, t).unwrap()) == current
    &&& !(movement_spec(piece_at(g, t).unwrap(), t, target, g, last, true) is INVALID)
}

/// The only king of the side not to move is in check when a piece of the side that
/// moved threatens it, and is left alone otherwise.
pub proof fn lemma_check_needs_threat(g: Grid, last: Option<History>, current: Color, k: RowColumn)
    requires
        only_king_at(g, current, k),
    ensures
        (forall|q: RowColumn| on_board(q) ==> !#[trigger] threatens(g, last, current, q, k))
            ==> status_spec(g, last, current) == CheckMateStatus::NONE,
        (exists|q: RowColumn| on_board(q) && #[trigger] threatens(g, last, current, q, k))
            ==> status_spec(g, last, current) != CheckMateStatus::NONE,
{
    lemma_only_king_found(g, current, k);
    let king_color = piece_color(piece_at(g, k).unwrap());
    let pa = |rc: RowColumn| attacks(g, last, k, true, king_color, rc);
    assert forall|q: RowColumn| on_board(q) implies #[trigger] pa(q) == threatens(g, last, current, q, k) by {
        if occupied(g, q) {
            if piece_color(piece_at(g, q).unwrap()) != king_color {
                assert(piece_color(piece_at(g, q).unwrap()) == current);
            }
        }
    }
    if forall|q: RowColumn| on_board(q) ==> !#[trigger] threatens(g, last, current, q, k) {
        lemma_first_where_none(pa);
    }
    if exists|q: RowColumn| on_board(q) && #[trigger] threatens(g, last, current, q, k) {
        let q = choose|q: RowColumn| on_board(q) && #[trigger] threatens(g, last, current, q, k);
        assert(pa(q));
        if check_spec(g, last, k, true, king_color) is None {
            assert(exists|rc: RowColumn| first_of(pa, rc)) by {
                lemma_some_first(pa, q);
            }
        }
    }
}

/// Where `p` holds on some square of the board, it holds on a first one.
pub proof fn lemma_some_first(p: spec_fn(RowColumn) -> bool, q: RowColumn)
    requires
        on_board(q),
        p(q),
    ensures
        exists|rc: RowColumn| first_of(p, rc),
    decreases q.row * 8 + q.column,
{
    if exists|e: RowColumn| on_board(e) && earlier(e, q) && p(e) {
        let e = choose|e: RowColumn| on_board(e) && earlier(e, q) && p(e);
        lemma_some_first(p, e);
    } else {
        assert(first_of(p, q));
    }
}

/// A check that a piece can answer is no checkmate: when a single piece of the side that
/// moved threatens the only king of the other side, and a piece of the other side, not
/// its king, may take that piece or, the threat running along a line, move onto a square
/// between the two, the state after the move is check.
pub proof fn lemma_answered_check(
    g: Grid,
    last: Option<History>,
    current: Color,
    k: RowColumn,
    t: RowColumn,
    d: RowColumn,
    onto: RowColumn,
)
    requires
        only_king_at(g, current, k),
        on_board(t),
        threatens(g, last, current, t, k),
        forall|q: RowColumn| on_board(q) && q != t ==> !#[trigger] threatens(g, last, current, q, k),
        on_board(d),
        d != t,
        occupied(g, d),
        piece_color(piece_at(g, d).unwrap()) != current,
        piece_type(piece_at(g, d).unwrap()) != PieceType::King,
        movement_spec(piece_at(g, d).unwrap(), d, onto, g, last, false) is VALID,
        onto == t || (piece_type(piece_at(g, t).unwrap()) != PieceType::Knight && piece_type(
            piece_at(g, t).unwrap(),
        ) != PieceType::King && between(t, k).contains(onto)),
    ensures
        status_spec(g, last, current) == CheckMateStatus::CHECK,
{
    lemma_only_king_found(g, current, k);
    let king_color = piece_color(piece_at(g, k).unwrap());
    let pa = |rc: RowColumn| attacks(g, last, k, true, king_color, rc);
    assert forall|q: RowColumn| on_board(q) implies #[trigger] pa(q) == threatens(g, last, current, q, k) by {
        if occupied(g, q) {
            if piece_color(piece_at(g, q).unwrap()) != king_color {
                assert(piece_color(piece_at(g, q).unwrap()) == current);
            }
        }
    }
    assert(pa(t));
    assert forall|q: RowColumn| on_board(q) && earlier(q, t) implies !#[trigger] pa(q) by {
        assert(q != t);
    }
    assert(first_of(pa, t));
    lemma_first_where_found(pa, t);
    let block = block_squares(g, t, k);
    assert(!color_at(g, d, current));
    if onto != t {
        assert(block == between(t, k));
        let j = choose|j: int| 0 <= j < block.len() && block[j] == onto;
        assert(movement_spec(piece_at(g, d).unwrap(), d, block[j], g, last, false) is VALID);
    }
    assert(rescues(g, last, current, t, block, d));
}

} // verus!
