//! What a move and a command do to a game: when they are refused and with which
//! message, and the game they leave.
use vstd::prelude::*;

use crate::game::board::{
    Grid,
    grid_shape,
    lemma_promotion_kind,
    lemma_put_read,
    occupied,
    piece_at,
    promotion_piece,
    put,
};
use crate::game::check::{last_move, status_spec};
use crate::game::check_mate_status::CheckMateStatus;
use crate::game::command::{split_spaces, square_name_spec};
use crate::game::game::{GameView, History, Outcome, history_of, keep_last_five};
use crate::pieces::color::{Color, opposite};
use crate::pieces::piece::{
    Pieces,
    ValidMovement,
    lemma_accepted_shapes,
    moved_piece,
    movement_spec,
    piece_color,
    piece_type,
};
use crate::pieces::validator::row_column::{RowColumn, on_board};

verus! {

/// The answer of the movement rules to moving the piece at `from` to `to` in the game
/// `v`: the piece is lifted off `from` before its move is judged.
pub open spec fn move_verdict(v: GameView, from: RowColumn, to: RowColumn) -> ValidMovement {
    movement_spec(
        piece_at(v.grid, from).unwrap(),
        from,
        to,
        put(v.grid, from, None),
        last_move(v.history),
        false,
    )
}

/// The piece a pawn becomes on the letter `next`, for the side to move.
pub open spec fn promotion_choice(v: GameView, next: Option<char>) -> Option<Pieces> {
    match next {
        Some(c) => promotion_piece(c, v.current == Color::Black),
        None => None,
    }
}

/// Why moving from `from` to `to` (promoting to `next`) is refused in the game `v`, if
/// it is: no piece stands on `from`, the rules refuse the move, or a pawn reaching the
/// last rank is given no letter or a letter that names no piece it may become.
pub open spec fn move_error(v: GameView, from: RowColumn, to: RowColumn, next: Option<char>) -> Option<
    Seq<char>,
> {
    if !occupied(v.grid, from) {
        Some("Must contain a piece"@)
    } else {
        match move_verdict(v, from, to) {
            ValidMovement::INVALID => Some("Invalid movement."@),
            ValidMovement::Promotion => match next {
                None => Some("We need to know what piece you want"@),
                Some(c) => if promotion_choice(v, next) is None {
                    Some("Invalid piece. Please enter Q, R, B, or N"@)
                } else {
                    None
                },
            },
            _ => None,
        }
    }
}

/// The board once the piece at `from` has moved to `to` as the rules allow it: it is
/// marked as moved; castling moves the rook too, en passant takes the pawn passed by,
/// and a pawn reaching the last rank becomes the piece chosen by `next`.
pub open spec fn grid_after(v: GameView, from: RowColumn, to: RowColumn, next: Option<char>) -> Grid {
    let p = piece_at(v.grid, from).unwrap();
    let lifted = put(v.grid, from, None);
    match move_verdict(v, from, to) {
        ValidMovement::VALID => put(lifted, to, Some(moved_piece(p))),
        ValidMovement::CASTLING(loc) => {
            let placed = put(lifted, to, Some(moved_piece(p)));
            match piece_at(placed, loc.from) {
                Some(rook) => put(put(placed, loc.from, None), loc.to, Some(moved_piece(rook))),
                None => placed,
            }
        },
        ValidMovement::EnPassant(taken) => put(put(lifted, taken, None), to, Some(moved_piece(p))),
        ValidMovement::Promotion => put(lifted, to, promotion_choice(v, next)),
        ValidMovement::INVALID => v.grid,
    }
}

/// The record of the move from `from` to `to` in the game `v`.
pub open spec fn move_record(v: GameView, from: RowColumn, to: RowColumn) -> History {
    history_of(v.current, from, to, piece_type(piece_at(v.grid, from).unwrap()))
}

/// What the side to move leaves the other side's king in once it has moved from `from`
/// to `to`.
pub open spec fn status_after(v: GameView, from: RowColumn, to: RowColumn, next: Option<char>) -> CheckMateStatus {
    status_spec(grid_after(v, from, to, next), Some(move_record(v, from, to)), v.current)
}

/// The game once the side to move has moved from `from` to `to`: the board changed,
/// the move recorded, the other side to move, and the game ended on checkmate.
pub open spec fn game_after(v: GameView, from: RowColumn, to: RowColumn, next: Option<char>) -> GameView {
    GameView {
        grid: grid_after(v, from, to, next),
        history: keep_last_five(v.history, move_record(v, from, to)),
        current: opposite(v.current),
        ended: v.ended || status_after(v, from, to, next) == CheckMateStatus::CHECKMATE,
        ..v
    }
}

/// The `i`-th word, if there is one.
pub open spec fn word_at(words: Seq<Seq<char>>, i: int) -> Option<Seq<char>> {
    if 0 <= i < words.len() {
        Some(words[i])
    } else {
        None
    }
}

/// The move named by the words `from` and `to` in the game `v`: the two squares and the
/// letter after the second one; refused when a word is missing or names no square (both
/// errors, joined by a comma, when both do), when `from` is empty, or when the piece on
/// it is not of the side to move.
pub open spec fn validate_spec(v: GameView, from: Option<Seq<char>>, to: Option<Seq<char>>) -> Result<
    (RowColumn, RowColumn, Option<char>),
    Seq<char>,
> {
    match from {
        Some(f) => match to {
            Some(t) => match square_name_spec(f) {
                Ok(fv) => match square_name_spec(t) {
                    Ok(tv) => {
                        let from_rc = RowColumn { row: (7 - fv.1) as u8, column: fv.0 };
                        let to_rc = RowColumn { row: (7 - tv.1) as u8, column: tv.0 };
                        match piece_at(v.grid, from_rc) {
                            None => Err("No piece! Try again"@),
                            Some(p) => if piece_color(p) != v.current {
                                Err("You can't move the other's person piece"@)
                            } else {
                                Ok((from_rc, to_rc, tv.2))
                            },
                        }
                    },
                    Err(e2) => Err(e2),
                },
                Err(e1) => match square_name_spec(t) {
                    Ok(_) => Err(e1),
                    Err(e2) => Err(e1 + ","@ + e2),
                },
            },
            None => Err("Missing from and/or to"@),
        },
        None => Err("Missing from and/or to"@),
    }
}

/// What the command `input` comes to in the game `v`: its first word is `move` (with the
/// two squares as the next two words), `help` or `exit`; anything else is refused.
pub open spec fn command_result(v: GameView, input: Seq<char>) -> Result<Outcome, Seq<char>> {
    let words = split_spaces(input);
    let action = words[0];
    if action == "move"@ {
        match validate_spec(v, word_at(words, 1), word_at(words, 2)) {
            Err(e) => Err(e),
            Ok(m) => match move_error(v, m.0, m.1, m.2) {
                Some(e) => Err(e),
                None => Ok(Outcome::Moved(status_after(v, m.0, m.1, m.2), v.current)),
            },
        }
    } else if action == "help"@ {
        Ok(Outcome::Help)
    } else if action == "exit"@ {
        Ok(Outcome::Exit)
    } else {
        Err("Unknown input "@ + action)
    }
}

/// The game once the command `input` has been carried out: a move made, or the game
/// ended on `exit`; unchanged otherwise.
pub open spec fn game_after_command(v: GameView, input: Seq<char>) -> GameView {
    let words = split_spaces(input);
    let action = words[0];
    if action == "move"@ {
        match validate_spec(v, word_at(words, 1), word_at(words, 2)) {
            Err(_) => v,
            Ok(m) => match move_error(v, m.0, m.1, m.2) {
                Some(_) => v,
                None => game_after(v, m.0, m.1, m.2),
            },
        }
    } else if action == "exit"@ {
        GameView { ended: true, ..v }
    } else {
        v
    }
}

/// A pawn reaching the last row becomes, on its square, the piece its letter names, for
/// the side that moved, and leaves its own square empty.
pub proof fn lemma_promotion_placed(v: GameView, from: RowColumn, to: RowColumn, c: char)
    requires
        grid_shape(v.grid),
        on_board(from),
        on_board(to),
        from != to,
        move_verdict(v, from, to) is Promotion,
        move_error(v, from, to, Some(c)) is None,
    ensures
        piece_at(grid_after(v, from, to, Some(c)), to) matches Some(p) && piece_color(p) == v.current
            && ((c == 'Q' || c == 'q') ==> p is Queen) && ((c == 'R' || c == 'r') ==> p is Rook) && ((c
            == 'B' || c == 'b') ==> p is Bishop) && ((c == 'N' || c == 'n') ==> p is Knight),
        piece_at(grid_after(v, from, to, Some(c)), from) is None,
{
    lemma_promotion_kind(c, v.current == Color::Black);
    let lifted = put(v.grid, from, None);
    lemma_put_read(v.grid, from, None, to);
    lemma_put_read(lifted, to, promotion_choice(v, Some(c)), to);
    lemma_put_read(lifted, to, promotion_choice(v, Some(c)), from);
    lemma_put_read(v.grid, from, None, from);
}

/// A command makes a move only with a piece of the side to move: the second word names
/// a square holding such a piece, the third names a square too, and the move is reported
/// as made by that side, which then hands the turn to the other.
pub proof fn lemma_moves_own_piece(v: GameView, input: Seq<char>)
    ensures
        command_result(v, input) matches Ok(Outcome::Moved(_, side)) ==> {
            let words = split_spaces(input);
            &&& side == v.current
            &&& words.len() >= 3
            &&& words[0] == "move"@
            &&& square_name_spec(words[2]) is Ok
            &&& square_name_spec(words[1]) matches Ok(f) && piece_at(
                v.grid,
                RowColumn { row: (7 - f.1) as u8, column: f.0 },
            ) matches Some(p) && piece_color(p) == v.current
            &&& game_after_command(v, input).current == opposite(v.current)
        },
{
}

/// What a move does to the squares of the board: the piece leaves its square and stands,
/// marked as moved, on its target; en passant also empties the square of the pawn taken;
/// castling also moves the rook from its corner to the square the king passed over (for
/// a king castling from the e-file; the rook's squares are taken to differ from the
/// king's); every other square keeps its piece.
pub proof fn lemma_move_effects(v: GameView, from: RowColumn, to: RowColumn, next: Option<char>, q: RowColumn)
    requires
        grid_shape(v.grid),
        on_board(from),
        on_board(to),
        on_board(q),
        occupied(v.grid, from),
        move_error(v, from, to, next) is None,
        move_verdict(v, from, to) matches ValidMovement::EnPassant(taken) ==> on_board(taken),
        move_verdict(v, from, to) matches ValidMovement::CASTLING(loc) ==> loc.from != to && loc.to
            != to && loc.to != from,
    ensures
        ({
            let p = piece_at(v.grid, from).unwrap();
            let after = grid_after(v, from, to, next);
            let m = move_verdict(v, from, to);
            &&& from != to
            &&& piece_at(after, from) is None
            &&& !(m is Promotion) ==> piece_at(after, to) == Some(moved_piece(p))
            &&& m is VALID && q != from && q != to ==> piece_at(after, q) == piece_at(v.grid, q)
            &&& m matches ValidMovement::EnPassant(taken) ==> {
                &&& taken != to ==> piece_at(after, taken) is None
                &&& (q != from && q != to && q != taken ==> piece_at(after, q) == piece_at(v.grid, q))
            }
            &&& m matches ValidMovement::CASTLING(loc) ==> {
                &&& piece_at(after, loc.from) is None
                &&& piece_at(after, loc.to) == Some(moved_piece(piece_at(v.grid, loc.from).unwrap()))
                &&& (q != from && q != to && q != loc.from && q != loc.to ==> piece_at(after, q)
                    == piece_at(v.grid, q))
            }
        }),
{
    let p = piece_at(v.grid, from).unwrap();
    let lifted = put(v.grid, from, None);
    let m = move_verdict(v, from, to);
    lemma_accepted_shapes(p, from, to, lifted, last_move(v.history), false);
    lemma_put_read(v.grid, from, None, to);
    lemma_put_read(v.grid, from, None, q);
    lemma_put_read(v.grid, from, None, from);
    match m {
        ValidMovement::VALID => {
            lemma_put_read(lifted, to, Some(moved_piece(p)), from);
            lemma_put_read(lifted, to, Some(moved_piece(p)), to);
            lemma_put_read(lifted, to, Some(moved_piece(p)), q);
        },
        ValidMovement::EnPassant(taken) => {
            let g2 = put(lifted, taken, None);
            lemma_put_read(lifted, taken, None, from);
            lemma_put_read(lifted, taken, None, q);
            lemma_put_read(lifted, taken, None, to);
            lemma_put_read(lifted, taken, None, taken);
            lemma_put_read(g2, to, Some(moved_piece(p)), from);
            lemma_put_read(g2, to, Some(moved_piece(p)), to);
            lemma_put_read(g2, to, Some(moved_piece(p)), q);
            lemma_put_read(g2, to, Some(moved_piece(p)), taken);
        },
        ValidMovement::CASTLING(loc) => {
            let placed = put(lifted, to, Some(moved_piece(p)));
            lemma_put_read(lifted, to, Some(moved_piece(p)), from);
            lemma_put_read(lifted, to, Some(moved_piece(p)), to);
            lemma_put_read(lifted, to, Some(moved_piece(p)), q);
            lemma_put_read(lifted, to, Some(moved_piece(p)), loc.from);
            lemma_put_read(lifted, to, Some(moved_piece(p)), loc.to);
            lemma_put_read(v.grid, from, None, loc.from);
            lemma_put_read(v.grid, from, None, loc.to);
            let rook = piece_at(placed, loc.from).unwrap();
            let g3 = put(placed, loc.from, None);
            lemma_put_read(placed, loc.from, None, from);
            lemma_put_read(placed, loc.from, None, to);
            lemma_put_read(placed, loc.from, None, q);
            lemma_put_read(placed, loc.from, None, loc.from);
            lemma_put_read(placed, loc.from, None, loc.to);
            lemma_put_read(g3, loc.to, Some(moved_piece(rook)), from);
            lemma_put_read(g3, loc.to, Some(moved_piece(rook)), to);
            lemma_put_read(g3, loc.to, Some(moved_piece(rook)), q);
            lemma_put_read(g3, loc.to, Some(moved_piece(rook)), loc.from);
            lemma_put_read(g3, loc.to, Some(moved_piece(rook)), loc.to);
        },
        ValidMovement::Promotion => {
            lemma_put_read(lifted, to, promotion_choice(v, next), from);
        },
        ValidMovement::INVALID => {},
    }
}

/// After a move the game has ended exactly when it had already ended or the move gives
/// checkmate; the move is recorded last, with the side that made it, its squares and the
/// kind of the piece moved, the other side is to move, and the counts of pieces stay.
pub proof fn lemma_after_move(v: GameView, from: RowColumn, to: RowColumn, next: Option<char>)
    requires
        v.history.len() <= 5,
    ensures
        game_after(v, from, to, next).ended == (v.ended || status_after(v, from, to, next)
            == CheckMateStatus::CHECKMATE),
        game_after(v, from, to, next).history.last() == (History {
            color: v.current,
            from,
            to,
            piece_type: piece_type(piece_at(v.grid, from).unwrap()),
        }),
        game_after(v, from, to, next).history.len() == (if v.history.len() < 5 {
            v.history.len() + 1
        } else {
            5
        }),
        game_after(v, from, to, next).current != v.current,
        game_after(v, from, to, next).white_counts == v.white_counts,
        game_after(v, from, to, next).black_counts == v.black_counts,
{
}

} // verus!
