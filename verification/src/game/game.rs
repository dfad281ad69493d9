//! The game: whose turn it is, the moves made so far, and the handling of the players'
//! commands.
use std::collections::VecDeque;

use vstd::prelude::*;

use crate::game::board::{
    Board,
    lemma_put_back,
    lemma_put_empty,
    Grid,
    board_text,
    counts_ok,
    grid_shape,
    occupied,
    piece_at,
    put,
};
use crate::game::check::{
    around,
    around_upto,
    attacks,
    block_squares,
    check_spec,
    color_at,
    escape,
    king_position_spec,
    last_move,
    lemma_around_upto,
    lemma_attack_aligned,
    lemma_first_where_found,
    lemma_first_where_none,
    lemma_first_where_some,
    lemma_no_king_no_status,
    movement_offset,
    other_king_at,
    rescue_spec,
    rescues,
    square_rc,
    status_spec,
    first_of,
};
use crate::game::check_mate_status::CheckMateStatus;
use crate::game::play::{
    command_result,
    game_after,
    game_after_command,
    grid_after,
    move_error,
    move_verdict,
    status_after,
    validate_spec,
    word_at,
};
use crate::game::command::{
    read_square_name,
    same_text,
    space_index,
    split_spaces,
    split_words,
    square_name_spec,
};
use crate::pieces::color::{Color, color_letter, lemma_opposite, opposite};
use crate::pieces::piece::{
    PieceType,
    Pieces,
    ValidMovement,
    lemma_accepted_on_board,
    movement_defined,
    movement_spec,
    piece_color,
    piece_type,
};
use crate::pieces::validator::row_column::{
    BaseLocation,
    RowColumn,
    aligned,
    between,
    lemma_path_on_board_between,
    on_board,
    wrap_u8,
};

verus! {

/// A command that could not be understood.
#[derive(Debug)]
pub enum Errors {
    InvalidInput,
}

/// A move that was made: by which side, from where to where, with which kind of piece.
#[derive(Clone, Copy, Eq, PartialEq, Debug, Structural)]
pub struct History {
    pub color: Color,
    pub from: RowColumn,
    pub to: RowColumn,
    pub piece_type: PieceType,
}

/// The record of a move.
pub open spec fn history_of(
    color: Color,
    from: RowColumn,
    to: RowColumn,
    piece_type: PieceType,
) -> History {
    History { color, from, to, piece_type }
}

/// The record behind an optional reference to one.
pub open spec fn opt_history(h: Option<&History>) -> Option<History> {
    match h {
        Some(h) => Some(*h),
        None => None,
    }
}

impl History {
    pub fn new(color: &Color, from: &RowColumn, to: &RowColumn, piece_type: &PieceType) -> (h:
        History)
        ensures
            h == history_of(*color, *from, *to, *piece_type),
    {
        History {
            color: color.clone(),
            from: from.clone(),
            to: to.clone(),
            piece_type: piece_type.clone(),
        }
    }

    pub fn get_piece_type(&self) -> (r: &PieceType)
        ensures
            *r == self.piece_type,
    {
        &self.piece_type
    }

    pub fn get_color(&self) -> (r: &Color)
        ensures
            *r == self.color,
    {
        &self.color
    }

    pub fn get_from(&self) -> (r: &RowColumn)
        ensures
            *r == self.from,
    {
        &self.from
    }

    pub fn get_to(&self) -> (r: &RowColumn)
        ensures
            *r == self.to,
    {
        &self.to
    }
}

/// The records `s` with `h` appended, of which at most the last five are kept.
pub open spec fn keep_last_five(s: Seq<History>, h: History) -> Seq<History> {
    if s.len() >= 5 {
        s.drop_first().push(h)
    } else {
        s.push(h)
    }
}

/// The last (at most) five moves, oldest first.
pub struct HistoryOfLastFiveMovement {
    history: VecDeque<History>,
}

impl View for HistoryOfLastFiveMovement {
    type V = Seq<History>;

    closed spec fn view(&self) -> Seq<History> {
        self.history@
    }
}

impl HistoryOfLastFiveMovement {
    #[verifier::type_invariant]
    spec fn at_most_five(&self) -> bool {
        self.history@.len() <= 5
    }

    pub fn new() -> (h: HistoryOfLastFiveMovement)
        ensures
            h@ == Seq::<History>::empty(),
    {
        HistoryOfLastFiveMovement { history: VecDeque::new() }
    }

    /// Records a move; once five are kept, the oldest is forgotten.
    pub fn add_history(&mut self, history: History)
        ensures
            final(self)@ == keep_last_five(old(self)@, history),
            final(self)@.len() <= 5,
    {
        proof {
            use_type_invariant(&*self);
        }
        let mut kept = VecDeque::new();
        std::mem::swap(&mut kept, &mut self.history);
        if kept.len() >= 5 {
            kept.pop_front();
        }
        kept.push_back(history);
        self.history = kept;
    }

    /// The latest move, if any.
    pub fn peek(&self) -> (r: Option<&History>)
        ensures
            opt_history(r) == (if self@.len() == 0 {
                None
            } else {
                Some(self@.last())
            }),
    {
        if self.history.len() == 0 {
            return None;
        }
        Some(&self.history[self.history.len() - 1])
    }

    pub fn size(&self) -> (r: usize)
        ensures
            r == self@.len(),
            r <= 5,
    {
        proof {
            use_type_invariant(self);
        }
        self.history.len()
    }
}

/// Whether the game goes on.
#[derive(Clone, Copy, Eq, PartialEq, Debug, Structural)]
enum State {
    Playing,
    Ended,
}

impl State {
    fn has_ended(&self) -> (r: bool)
        ensures
            r == (*self == State::Ended),
    {
        match *self {
            State::Ended => true,
            _ => false,
        }
    }
}

/// What a command given to the game came to.
#[derive(Clone, Copy, PartialEq, Eq, Debug, Structural)]
pub enum Outcome {
    /// A move was made by the given side, leaving the other side's king in the given
    /// state.
    Moved(CheckMateStatus, Color),
    /// Help was asked for.
    Help,
    /// The players leave the game.
    Exit,
}

/// What a game holds: the squares of its board and the counts of pieces, the last moves,
/// the side to move, and whether it has ended.
pub ghost struct GameView {
    pub grid: Grid,
    pub white_counts: Map<u8, u8>,
    pub black_counts: Map<u8, u8>,
    pub history: Seq<History>,
    pub current: Color,
    pub ended: bool,
}

/// A game of chess between two players at one console.
pub struct Game {
    board: Board,
    state: State,
    current_color: Color,
    history: HistoryOfLastFiveMovement,
}

impl View for Game {
    type V = GameView;

    closed spec fn view(&self) -> GameView {
        GameView {
            grid: self.board.grid(),
            white_counts: self.board.white_counts(),
            black_counts: self.board.black_counts(),
            history: self.history@,
            current: self.current_color,
            ended: self.state == State::Ended,
        }
    }
}

/// The board has 8 rows of 8 squares, counts each kind it counts at least once, and the
/// moves recorded lie on the board.
pub open spec fn view_wf(v: GameView) -> bool {
    &&& grid_shape(v.grid)
    &&& counts_ok(v.white_counts)
    &&& counts_ok(v.black_counts)
    &&& forall|i: int|
        0 <= i < v.history.len() ==> on_board(#[trigger] v.history[i].from) && on_board(
            v.history[i].to,
        )
    &&& v.history.len() <= 5
}

impl Game {
    /// The game is well formed.
    pub open spec fn wf(&self) -> bool {
        view_wf(self@)
    }

    /// A game at its start: the standard position, white to move, nothing recorded.
    pub fn new() -> (g: Game)
        ensures
            g.wf(),
            g@.grid == crate::game::board::initial_grid(),
            g@.white_counts == crate::game::board::initial_counts(),
            g@.black_counts == crate::game::board::initial_counts(),
            g@.history == Seq::<History>::empty(),
            g@.current == Color::White,
            !g@.ended,
    {
        let board = Board::new();
        Game {
            board,
            state: State::Playing,
            current_color: Color::White,
            history: HistoryOfLastFiveMovement::new(),
        }
    }

    /// A game on the given board, white to move, nothing recorded.
    pub fn inject_board(board: Board) -> (g: Game)
        requires
            board.wf(),
        ensures
            g.wf(),
            g@.grid == board.grid(),
            g@.white_counts == board.white_counts(),
            g@.black_counts == board.black_counts(),
            g@.history == Seq::<History>::empty(),
            g@.current == Color::White,
            !g@.ended,
    {
        Game {
            board,
            state: State::Playing,
            current_color: Color::White,
            history: HistoryOfLastFiveMovement::new(),
        }
    }

    /// The board of the game.
    pub fn board(&self) -> (b: &Board)
        ensures
            b.grid() == self@.grid,
            b.white_counts() == self@.white_counts,
            b.black_counts() == self@.black_counts,
    {
        &self.board
    }

    /// Whether the game has ended.
    pub fn has_ended(&self) -> (r: bool)
        ensures
            r == self@.ended,
    {
        self.state.has_ended()
    }

    fn is_current_player_color(game_color: &Color, current_color: &Color) -> (r: bool)
        ensures
            r == (*game_color == *current_color),
    {
        let matches = match game_color {
            Color::White => matches!(current_color, Color::White),
            Color::Black => matches!(current_color, Color::Black),
        };
        return matches;
    }

    fn self_is_current_player_color<'a>(&'a self, current_color: &'a Color) -> (r: bool)
        ensures
            r == (*current_color == self@.current),
    {
        let matches = match &self.current_color {
            Color::White => matches!(current_color, Color::White),
            Color::Black => matches!(current_color, Color::Black),
        };
        return matches;
    }

    fn set_next_player_color(&mut self)
        ensures
            final(self)@ == (GameView { current: opposite(old(self)@.current), ..old(self)@ }),
    {
        let game_color = &self.current_color;
        let next_color = match game_color {
            Color::White => Color::Black,
            Color::Black => Color::White,
        };
        self.current_color = next_color;
    }

    fn set_piece_to_square(&mut self, row_column: &RowColumn, piece: Pieces)
        requires
            old(self).wf(),
            on_board(*row_column),
        ensures
            final(self).wf(),
            final(self)@ == (GameView {
                grid: put(old(self)@.grid, *row_column, Some(piece)),
                ..old(self)@
            }),
    {
        self.board.set_piece(row_column.row, row_column.column, piece);
    }

    fn remove_piece_from_square(&mut self, row_column: &RowColumn)
        requires
            old(self).wf(),
            on_board(*row_column),
        ensures
            final(self).wf(),
            final(self)@ == (GameView { grid: put(old(self)@.grid, *row_column, None), ..old(self)@ }),
    {
        self.board.remove_piece(row_column.row, row_column.column);
    }

    fn is_color_square_current_user_color(&self, row: usize, column: usize) -> (r: bool)
        requires
            self.wf(),
            row < 8,
            column < 8,
        ensures
            r == color_at(self@.grid, square_rc(row as int, column as int), self@.current),
    {
        proof {
            assert(self.board.squares@[row as int]@ == self@.grid[row as int]);
        }
        if let Some(color) = self.board.squares[row][column].get_color_of_piece() {
            if self.self_is_current_player_color(&color) {
                return true;
            }
        }
        false
    }

    fn is_color_square_matched(&self, row: usize, column: usize, color: &Color) -> (r: bool)
        requires
            self.wf(),
            row < 8,
            column < 8,
        ensures
            r == color_at(self@.grid, square_rc(row as int, column as int), *color),
    {
        proof {
            assert(self.board.squares@[row as int]@ == self@.grid[row as int]);
        }
        if let Some(piece_color) = self.board.squares[row][column].get_color_of_piece() {
            return match &piece_color {
                Color::White => matches!(color, Color::White),
                Color::Black => matches!(color, Color::Black),
            };
        }
        false
    }

    fn get_king_position(&self) -> (r: Option<RowColumn>)
        requires
            self.wf(),
        ensures
            r == king_position_spec(self@.grid, self@.current),
    {
        let ghost g = self@.grid;
        let ghost p = |rc: RowColumn| other_king_at(g, self@.current, rc);
        let rows = self.board.squares.len();
        for row in 0..rows
            invariant
                rows == 8,
                self.wf(),
                g == self@.grid,
                p == (|rc: RowColumn| other_king_at(g, self@.current, rc)),
                self.board.squares@.len() == 8,
                forall|q: RowColumn| on_board(q) && q.row < row ==> !#[trigger] p(q),
        {
            proof {
                assert(self.board.squares@[0]@ == g[0]);
            }
            let columns = self.board.squares[0].len();
            for column in 0..columns
                invariant
                    columns == 8,
                    self.wf(),
                    g == self@.grid,
                    p == (|rc: RowColumn| other_king_at(g, self@.current, rc)),
                    row < 8,
                    self.board.squares@[0]@.len() == 8,
                    forall|q: RowColumn|
                        on_board(q) && (q.row < row || (q.row == row && q.column < column))
                            ==> !#[trigger] p(q),
            {
                let ghost rc = square_rc(row as int, column as int);
                if !self.is_color_square_current_user_color(row, column) {
                    proof {
                        assert(self.board.squares@[row as int]@ == g[row as int]);
                    }
                    if let Some(piece_info) = self.board.squares[row][column].get_piece_type() {
                        match piece_info {
                            PieceType::King => {
                                proof {
                                    assert(first_of(p, rc));
                                    lemma_first_where_found(p, rc);
                                }
                                return Some(RowColumn::new(row as u8, column as u8));
                            },
                            _ => {
                                // just ignore
                            },
                        }
                    }
                }
                assert(!p(rc));
            }
        }
        proof {
            lemma_first_where_none(p);
        }
        return None;
    }
}

/// Moves recorded on the board stay so when one more such move is recorded.
pub proof fn lemma_recorded_on_board(s: Seq<History>, h: History)
    requires
        forall|i: int| 0 <= i < s.len() ==> on_board(#[trigger] s[i].from) && on_board(s[i].to),
        on_board(h.from),
        on_board(h.to),
    ensures
        forall|i: int|
            0 <= i < keep_last_five(s, h).len() ==> on_board(#[trigger] keep_last_five(s, h)[i].from)
                && on_board(keep_last_five(s, h)[i].to),
{
    let after = keep_last_five(s, h);
    assert forall|i: int| 0 <= i < after.len() implies on_board(#[trigger] after[i].from) && on_board(
        after[i].to,
    ) by {
        if i < after.len() - 1 {
            if s.len() >= 5 {
                assert(after[i] == s[i + 1]);
            } else {
                assert(after[i] == s[i]);
            }
        }
    }
}

impl Game {
    fn movement_offset_at(i: usize) -> (r: (i8, i8))
        requires
            i < 8,
        ensures
            r.0 == movement_offset(i as int).0,
            r.1 == movement_offset(i as int).1,
    {
        if i == 0 {
            (-1, -1)
        } else if i == 1 {
            (-1, 0)
        } else if i == 2 {
            (-1, 1)
        } else if i == 3 {
            (0, -1)
        } else if i == 4 {
            (0, 1)
        } else if i == 5 {
            (1, -1)
        } else if i == 6 {
            (1, 0)
        } else {
            (1, 1)
        }
    }

    fn get_movement_around(&self, row_column: &RowColumn) -> (r: Vec<RowColumn>)
        requires
            self.wf(),
            on_board(*row_column),
        ensures
            r@ == around(self@.grid, *row_column),
    {
        let ghost g = self@.grid;
        let mut surrounding_area: Vec<RowColumn> = vec![];
        for i in 0..8
            invariant
                self.wf(),
                g == self@.grid,
                on_board(*row_column),
                surrounding_area@ == around_upto(g, *row_column, i as int),
        {
            let movement = Game::movement_offset_at(i);
            let row = row_column.row as i8 + movement.0;
            let column = row_column.column as i8 + movement.1;
            if row < 0 || column < 0 || row >= 8 || column >= 8 {
            } else {
                proof {
                    assert(self.board.squares@[row as int]@ == g[row as int]);
                }
                if !self.board.squares[row as usize][column as usize].has_piece() {
                    surrounding_area.push(RowColumn::new(row as u8, column as u8));
                }
            }
        }
        surrounding_area
    }

    fn is_check(&self, curr_location: &RowColumn, skip_same_color: bool, king_color: &Color) -> (r:
        Option<RowColumn>)
        requires
            self.wf(),
            on_board(*curr_location),
        ensures
            r == check_spec(
                self@.grid,
                last_move(self@.history),
                *curr_location,
                skip_same_color,
                *king_color,
            ),
    {
        let ghost g = self@.grid;
        let ghost last = last_move(self@.history);
        let ghost p = |rc: RowColumn| attacks(g, last, *curr_location, skip_same_color, *king_color, rc);
        let rows = self.board.squares.len();
        for row in 0..rows
            invariant
                rows == 8,
                self.wf(),
                g == self@.grid,
                last == last_move(self@.history),
                on_board(*curr_location),
                p == (|rc: RowColumn| attacks(g, last, *curr_location, skip_same_color, *king_color, rc)),
                forall|q: RowColumn| on_board(q) && q.row < row ==> !#[trigger] p(q),
        {
            proof {
                assert(self.board.squares@[0]@ == g[0]);
            }
            let columns = self.board.squares[0].len();
            for column in 0..columns
                invariant
                    columns == 8,
                    self.wf(),
                    g == self@.grid,
                    last == last_move(self@.history),
                    on_board(*curr_location),
                    p == (|rc: RowColumn| attacks(g, last, *curr_location, skip_same_color, *king_color, rc)),
                    row < 8,
                    forall|q: RowColumn|
                        on_board(q) && (q.row < row || (q.row == row && q.column < column))
                            ==> !#[trigger] p(q),
            {
                let ghost rc = square_rc(row as int, column as int);
                let is_same_color = self.is_color_square_matched(row, column, king_color);
                let skipped = if skip_same_color {
                    is_same_color
                } else {
                    !is_same_color
                };
                if !skipped && !(curr_location.row as usize == row && curr_location.column as usize
                    == column) {
                    let row_column = RowColumn::new(row as u8, column as u8);
                    proof {
                        assert(self.board.squares@[row as int]@ == g[row as int]);
                    }
                    match self.board.squares[row][column].get_piece() {
                        None => {},
                        Some(piece_ref) => {
                            match piece_ref.is_valid_movement_has_piece_override(
                                &row_column,
                                &curr_location,
                                &self.board,
                                self.history.peek(),
                                // for pawn
                                true,
                            ) {
                                ValidMovement::VALID
                                | ValidMovement::CASTLING(_)
                                | ValidMovement::EnPassant(_)
                                | ValidMovement::Promotion => {
                                    proof {
                                        assert(first_of(p, rc));
                                        lemma_first_where_found(p, rc);
                                    }
                                    return Some(row_column);
                                },
                                ValidMovement::INVALID => {},
                            }
                        },
                    }
                }
                assert(!p(rc));
            }
        }
        proof {
            lemma_first_where_none(p);
        }
        None
    }

    fn come_to_rescue(&self, target_location: &RowColumn, king_location: &RowColumn) -> (r: bool)
        requires
            self.wf(),
            on_board(*target_location),
            on_board(*king_location),
            occupied(self@.grid, *king_location) && (piece_at(self@.grid, *target_location) matches Some(t)
                && piece_type(t) != PieceType::Knight && piece_type(t) != PieceType::King) ==> aligned(
                *target_location,
                *king_location,
            ),
        ensures
            r == rescue_spec(
                self@.grid,
                last_move(self@.history),
                self@.current,
                *target_location,
                *king_location,
            ),
    {
        let ghost g = self@.grid;
        let ghost last = last_move(self@.history);
        let ghost current = self@.current;
        proof {
            assert(self.board.squares@[king_location.row as int]@ == g[king_location.row as int]);
            assert(self.board.squares@[target_location.row as int]@ == g[target_location.row as int]);
        }
        let movements_between = match self.board.squares[king_location.row as usize][king_location.column as usize].get_piece() {
            None => { vec![] },
            Some(p) => {
                match self.board.squares[target_location.row as usize][target_location.column as usize].get_piece_type() {
                    None => vec![],
                    Some(t) => match t {
                        PieceType::Knight | PieceType::King => { vec![] },
                        _ => p.get_movements_between(target_location, king_location),
                    },
                }
            },
        };
        let ghost block = block_squares(g, *target_location, *king_location);
        assert(movements_between@ == block);
        proof {
            assert forall|i: int| 0 <= i < block.len() implies on_board(#[trigger] block[i]) by {
                lemma_path_on_board_between(*target_location, *king_location, i);
            }
        }
        let ghost p = |rc: RowColumn| rescues(g, last, current, *target_location, block, rc);
        let rows = self.board.squares.len();
        for row in 0..rows
            invariant
                rows == 8,
                self.wf(),
                g == self@.grid,
                last == last_move(self@.history),
                current == self@.current,
                on_board(*target_location),
                movements_between@ == block,
                block == block_squares(g, *target_location, *king_location),
                forall|i: int| 0 <= i < block.len() ==> on_board(#[trigger] block[i]),
                p == (|rc: RowColumn| rescues(g, last, current, *target_location, block, rc)),
                forall|q: RowColumn| on_board(q) && q.row < row ==> !#[trigger] p(q),
        {
            proof {
                assert(self.board.squares@[0]@ == g[0]);
            }
            let columns = self.board.squares[0].len();
            for column in 0..columns
                invariant
                    columns == 8,
                    self.wf(),
                    g == self@.grid,
                    last == last_move(self@.history),
                    current == self@.current,
                    on_board(*target_location),
                    movements_between@ == block,
                    block == block_squares(g, *target_location, *king_location),
                    forall|i: int| 0 <= i < block.len() ==> on_board(#[trigger] block[i]),
                    p == (|rc: RowColumn| rescues(g, last, current, *target_location, block, rc)),
                    row < 8,
                    forall|q: RowColumn|
                        on_board(q) && (q.row < row || (q.row == row && q.column < column))
                            ==> !#[trigger] p(q),
            {
                let ghost rc = square_rc(row as int, column as int);
                if !self.is_color_square_current_user_color(row, column) && !(target_location.row as usize
                    == row && target_location.column as usize == column) {
                    let row_column = RowColumn::new(row as u8, column as u8);
                    proof {
                        assert(self.board.squares@[row as int]@ == g[row as int]);
                    }
                    match self.board.squares[row][column].get_piece() {
                        None => {},
                        Some(piece_ref) => {
                            if !matches!(piece_ref.get_piece_type(), PieceType::King) {
                                match piece_ref.is_valid_movement(
                                    &row_column,
                                    &target_location,
                                    &self.board,
                                    self.history.peek(),
                                ) {
                                    ValidMovement::VALID => {
                                        proof {
                                            assert(p(rc));
                                            assert(on_board(rc));
                                            assert(rescues(g, last, current, *target_location, block_squares(g, *target_location, *king_location), rc));
                                        }
                                        return true;
                                    },
                                    _ => {
                                        let mut j: usize = 0;
                                        while j < movements_between.len()
                                            invariant
                                                self.wf(),
                                                g == self@.grid,
                                                last == last_move(self@.history),
                                                movements_between@ == block,
                                                block == block_squares(g, *target_location, *king_location),
                                                forall|i: int| 0 <= i < block.len() ==> on_board(#[trigger] block[i]),
                                                on_board(row_column),
                                                row_column == rc,
                                                current == self@.current,
                                                p == (|rc: RowColumn| rescues(g, last, current, *target_location, block, rc)),
                                                !color_at(g, rc, current),
                                                rc != *target_location,
                                                piece_type(*piece_ref) != PieceType::King,
                                                piece_at(g, rc) == Some(*piece_ref),
                                                0 <= j <= block.len(),
                                                forall|i: int| 0 <= i < j ==> !(movement_spec(*piece_ref, rc, #[trigger] block[i], g, last, false) is VALID),
                                            decreases block.len() - j,
                                        {
                                            let movement = &movements_between[j];
                                            match piece_ref.is_valid_movement(
                                                &row_column,
                                                &movement,
                                                &self.board,
                                                self.history.peek(),
                                            ) {
                                                ValidMovement::VALID => {
                                                    proof {
                                                        assert(movement_spec(*piece_ref, rc, block[j as int], g, last, false) is VALID);
                                                        assert(rescues(g, last, current, *target_location, block, rc));
                                                        assert(p(rc));
                                                        assert(on_board(rc));
                                                        assert(rescues(g, last, current, *target_location, block_squares(g, *target_location, *king_location), rc));
                                                    }
                                                    return true;
                                                },
                                                _ => {},
                                            }
                                            j += 1;
                                        }
                                    },
                                }
                            }
                        },
                    }
                }
                assert(!p(rc));
            }
        }
        proof {
            assert forall|rc: RowColumn| on_board(rc) implies !#[trigger] rescues(
                g,
                last,
                current,
                *target_location,
                block_squares(g, *target_location, *king_location),
                rc,
            ) by {
                assert(!p(rc));
            }
        }
        false
    }

    /// The state the side to move leaves the other side's king in (see `status_spec`).
    /// To try the king's ways out, the king is taken off the board and put back.
    fn check_check_status(&mut self) -> (r: CheckMateStatus)
        requires
            old(self).wf(),
        ensures
            final(self)@ == old(self)@,
            r == status_spec(old(self)@.grid, last_move(old(self)@.history), old(self)@.current),
            (forall|rc: RowColumn| on_board(rc) ==> !#[trigger] other_king_at(old(self)@.grid, old(self)@.current, rc))
                ==> r == CheckMateStatus::NONE,
    {
        proof {
            if forall|rc: RowColumn| on_board(rc) ==> !#[trigger] other_king_at(self@.grid, self@.current, rc) {
                lemma_no_king_no_status(self@.grid, last_move(self@.history), self@.current);
            }
        }
        let ghost v0 = self@;
        let ghost g = self@.grid;
        let ghost last = last_move(self@.history);
        let ghost current = self@.current;
        match self.get_king_position() {
            None => CheckMateStatus::NONE,
            Some(king_location) => {
                proof {
                    lemma_first_where_some(|rc: RowColumn| other_king_at(g, current, rc), king_location);
                    assert(self.board.squares@[king_location.row as int]@ == g[king_location.row as int]);
                }
                let surrounding_area = self.get_movement_around(&king_location);
                let king_color = self.board.squares[king_location.row as usize][king_location.column as usize].get_color_of_piece().unwrap();
                match self.is_check(&king_location, true, &king_color) {
                    None => CheckMateStatus::NONE,
                    Some(target) => {
                        proof {
                            lemma_first_where_some(
                                |rc: RowColumn| attacks(g, last, king_location, true, king_color, rc),
                                target,
                            );
                            lemma_attack_aligned(g, last, king_location, true, king_color, target);
                        }
                        if self.come_to_rescue(&target, &king_location) {
                            return CheckMateStatus::CHECK;
                        }
                        // the king is taken off the board while its ways out are tried
                        let king_piece = self.board.take_piece(king_location.row, king_location.column).unwrap();
                        let ghost g2 = put(g, king_location, None);
                        proof {
                            assert(RowColumn { row: king_location.row, column: king_location.column } == king_location);
                            lemma_around_upto(g, king_location, 8);
                            lemma_put_back(g, king_location);
                        }
                        let mut i: usize = 0;
                        while i < surrounding_area.len()
                            invariant
                                self.wf(),
                                grid_shape(g),
                                on_board(king_location),
                                self@ == (GameView { grid: g2, ..v0 }),
                                v0 == old(self)@,
                                g2 == put(g, king_location, None),
                                put(g2, king_location, Some(king_piece)) == g,
                                last == last_move(v0.history),
                                current == v0.current,
                                g == v0.grid,
                                king_position_spec(g, current) == Some(king_location),
                                king_color == piece_color(piece_at(g, king_location).unwrap()),
                                check_spec(g, last, king_location, true, king_color) == Some(target),
                                !rescue_spec(g, last, current, target, king_location),
                                (RowColumn { row: king_location.row, column: king_location.column }) == king_location,
                                surrounding_area@ == around(g, king_location),
                                forall|j: int|
                                    0 <= j < around_upto(g, king_location, 8).len() ==> on_board(
                                        #[trigger] around_upto(g, king_location, 8)[j],
                                    ) && !occupied(g, around_upto(g, king_location, 8)[j])
                                        && around_upto(g, king_location, 8)[j] != king_location,
                                i <= surrounding_area.len(),
                                forall|j: int|
                                    0 <= j < i ==> !escape(
                                        g2,
                                        last,
                                        current,
                                        king_color,
                                        #[trigger] around(g, king_location)[j],
                                    ),
                            decreases surrounding_area.len() - i,
                        {
                            let other = &surrounding_area[i];
                            let ghost o = around(g, king_location)[i as int];
                            assert(*other == o);
                            assert(on_board(o) && !occupied(g, o) && o != king_location);
                            assert(!occupied(g2, o));
                            assert(square_rc(other.row as usize as int, other.column as usize as int) == o);
                            if !self.is_color_square_current_user_color(other.row as usize, other.column as usize) {
                                match self.is_check(other, true, &king_color) {
                                    None => {
                                        self.board.set_piece(king_location.row, king_location.column, king_piece);
                                        proof {
                                            assert(escape(g2, last, current, king_color, around(g, king_location)[i as int]));
                                        }
                                        return CheckMateStatus::CHECK;
                                    },
                                    Some(attacker) => {
                                        let rescued = self.come_to_rescue(&attacker, other);
                                        proof {
                                            assert(check_spec(g2, last, o, true, king_color) == Some(attacker));
                                            assert(rescued == rescue_spec(g2, last, current, attacker, o));
                                        }
                                        if rescued {
                                            self.board.set_piece(king_location.row, king_location.column, king_piece);
                                            proof {
                                                assert(escape(g2, last, current, king_color, around(g, king_location)[i as int]));
                                            }
                                            return CheckMateStatus::CHECK;
                                        }
                                    },
                                }
                            }
                            i += 1;
                        }
                        self.board.set_piece(king_location.row, king_location.column, king_piece);
                        CheckMateStatus::CHECKMATE
                    },
                }
            },
        }
    }

    /// Once a move from `from` to `to` by a piece of kind `piece_type` is on the board:
    /// records it, finds the state the other side's king is left in (ending the game on
    /// checkmate), and gives the turn to the other side.
    fn finish_move(&mut self, from: &RowColumn, to: &RowColumn, piece_type: PieceType) -> (r:
        CheckMateStatus)
        requires
            old(self).wf(),
            on_board(*from),
            on_board(*to),
        ensures
            final(self).wf(),
            r == status_spec(
                old(self)@.grid,
                Some(history_of(old(self)@.current, *from, *to, piece_type)),
                old(self)@.current,
            ),
            final(self)@ == (GameView {
                history: keep_last_five(
                    old(self)@.history,
                    history_of(old(self)@.current, *from, *to, piece_type),
                ),
                current: opposite(old(self)@.current),
                ended: old(self)@.ended || r == CheckMateStatus::CHECKMATE,
                ..old(self)@
            }),
    {
        let ghost pre = self@;
        let record = History::new(&self.current_color, from, to, &piece_type);
        self.history.add_history(record);
        proof {
            lemma_recorded_on_board(pre.history, record);
            assert(self@ == (GameView { history: keep_last_five(pre.history, record), ..pre }));
        }
        let status = self.check_check_status();
        if matches!(status, CheckMateStatus::CHECKMATE) {
            self.state = State::Ended;
        }
        self.set_next_player_color();
        status
    }

    /// Moves the piece at `from` to `to`, a pawn reaching the last rank becoming the
    /// piece named by `next_piece`; on success the move is recorded, the other side is to
    /// move, and the state it leaves the other side's king in is returned (the game ends
    /// on checkmate). Whose piece stands on `from` is not checked here. A refused move
    /// leaves the game as it was.
    pub fn play_move(&mut self, from: &RowColumn, to: &RowColumn, next_piece: Option<char>) -> (r:
        Result<CheckMateStatus, String>)
        requires
            old(self).wf(),
            on_board(*from),
            occupied(old(self)@.grid, *from) ==> movement_defined(
                piece_at(old(self)@.grid, *from).unwrap(),
                *from,
                *to,
                put(old(self)@.grid, *from, None),
            ),
        ensures
            final(self).wf(),
            match r {
                Ok(status) => {
                    &&& move_error(old(self)@, *from, *to, next_piece) is None
                    &&& status == status_after(old(self)@, *from, *to, next_piece)
                    &&& final(self)@ == game_after(old(self)@, *from, *to, next_piece)
                },
                Err(e) => {
                    &&& move_error(old(self)@, *from, *to, next_piece) == Some(e@)
                    &&& final(self)@ == old(self)@
                },
            },
    {
        let ghost v0 = self@;
        let ghost g = self@.grid;
        let taken = self.board.take_piece(from.row, from.column);
        proof {
            assert((RowColumn { row: from.row, column: from.column }) == *from);
        }
        let piece_type: PieceType;
        match taken {
            None => {
                proof {
                    lemma_put_empty(g, *from);
                }
                return Err(String::from_str("Must contain a piece"));
            },
            Some(piece) => {
                let mut piece = piece;
                piece_type = piece.get_piece_type();
                let is_valid = piece.is_valid_movement(&from, &to, &self.board, self.history.peek());
                assert(is_valid == move_verdict(v0, *from, *to));
                proof {
                    if !(is_valid is INVALID) {
                        lemma_accepted_on_board(
                            piece,
                            *from,
                            *to,
                            put(g, *from, None),
                            last_move(v0.history),
                            false,
                        );
                    }
                }
                match is_valid {
                    ValidMovement::INVALID => {
                        self.set_piece_to_square(&from, piece);
                        proof {
                            lemma_put_back(g, *from);
                        }
                        return Err(String::from_str("Invalid movement."));
                    },
                    ValidMovement::VALID => {
                        piece.set_as_moved();
                        self.set_piece_to_square(&to, piece);
                    },
                    ValidMovement::CASTLING(location) => {
                        piece.set_as_moved();
                        self.set_piece_to_square(&to, piece);
                        let ghost placed = self@.grid;
                        let rook = self.board.take_piece(location.from.row, location.from.column);
                        proof {
                            assert((RowColumn { row: location.from.row, column: location.from.column }) == location.from);
                        }
                        match rook {
                            Some(rook) => {
                                let mut rook = rook;
                                rook.set_as_moved();
                                self.set_piece_to_square(&location.to, rook);
                            },
                            None => {
                                proof {
                                    assert(piece_at(placed, location.from) is Some);
                                    assert(false);
                                }
                            },
                        }
                    },
                    ValidMovement::EnPassant(row_column) => {
                        self.remove_piece_from_square(&row_column);
                        piece.set_as_moved();
                        self.set_piece_to_square(&to, piece);
                    },
                    ValidMovement::Promotion => {
                        match next_piece {
                            Some(user_wanted_piece) => {
                                let some_new_piece = self.board.create_new_piece_and_set_as_moved(
                                    user_wanted_piece,
                                    matches!(self.current_color, Color::Black),
                                );
                                match some_new_piece {
                                    None => {
                                        self.set_piece_to_square(&from, piece);
                                        proof {
                                            lemma_put_back(g, *from);
                                        }
                                        return Err(
                                            String::from_str("Invalid piece. Please enter Q, R, B, or N"),
                                        );
                                    },
                                    Some(new_piece) => {
                                        self.set_piece_to_square(&to, new_piece);
                                    },
                                }
                            },
                            None => {
                                self.set_piece_to_square(&from, piece);
                                proof {
                                    lemma_put_back(g, *from);
                                }
                                return Err(String::from_str("We need to know what piece you want"));
                            },
                        }
                    },
                }
            },
        }
        assert(self@.grid == grid_after(v0, *from, *to, next_piece));
        let status = self.finish_move(from, to, piece_type);
        Ok(status)
    }

    /// Moves the piece at `from` to `to` (see `play_move`).
    pub fn start_movement(&mut self, from: &RowColumn, to: &RowColumn, next_piece: Option<char>) -> (r:
        Result<(), String>)
        requires
            old(self).wf(),
            on_board(*from),
            occupied(old(self)@.grid, *from) ==> movement_defined(
                piece_at(old(self)@.grid, *from).unwrap(),
                *from,
                *to,
                put(old(self)@.grid, *from, None),
            ),
        ensures
            final(self).wf(),
            match r {
                Ok(()) => {
                    &&& move_error(old(self)@, *from, *to, next_piece) is None
                    &&& final(self)@ == game_after(old(self)@, *from, *to, next_piece)
                },
                Err(e) => {
                    &&& move_error(old(self)@, *from, *to, next_piece) == Some(e@)
                    &&& final(self)@ == old(self)@
                },
            },
    {
        match self.play_move(from, to, next_piece) {
            Ok(_) => Ok(()),
            Err(e) => Err(e),
        }
    }

    /// Reads the name of a square such as `a8` (see `square_name_spec`): the column, the
    /// rank counted from 0, and the character after the two.
    pub fn valid_input(&self, input: &str) -> (r: Result<(u8, u8, Option<char>), String>)
        ensures
            match r {
                Ok(v) => square_name_spec(input@) == Ok::<(u8, u8, Option<char>), Seq<char>>(v),
                Err(e) => square_name_spec(input@) == Err::<(u8, u8, Option<char>), Seq<char>>(e@),
            },
    {
        read_square_name(input)
    }

    /// The row of the board of a rank counted from 0 (rank 0 is row 7); refused above 8.
    /// Rank 8 wraps to 255.
    pub fn convert_row_to_our_array(&self, row: &u8) -> (r: Result<u8, Errors>)
        ensures
            *row > 8 <==> r is Err,
            r matches Ok(v) ==> v == wrap_u8(7 - *row),
    {
        if *row > 8u8 {
            return Err(Errors::InvalidInput);
        }
        if *row == 8 {
            Ok(255)
        } else {
            Ok(7 - *row)
        }
    }

    /// The letter of the side to move.
    pub fn get_current_user_color(&self) -> (r: String)
        ensures
            r@ == color_letter(self@.current),
    {
        return self.current_color.get_color();
    }

    /// The move named by the words `from_op` and `to_op` (see `validate_spec`).
    pub fn validate_input(&self, from_op: Option<&str>, to_op: Option<&str>) -> (r: Result<
        (BaseLocation, Option<char>),
        String,
    >)
        requires
            self.wf(),
        ensures
            match r {
                Ok(m) => validate_spec(
                    self@,
                    match from_op { Some(f) => Some(f@), None => None },
                    match to_op { Some(t) => Some(t@), None => None },
                ) == Ok::<(RowColumn, RowColumn, Option<char>), Seq<char>>((m.0.from, m.0.to, m.1)),
                Err(e) => validate_spec(
                    self@,
                    match from_op { Some(f) => Some(f@), None => None },
                    match to_op { Some(t) => Some(t@), None => None },
                ) == Err::<(RowColumn, RowColumn, Option<char>), Seq<char>>(e@),
            },
    {
        if let (Some(from), Some(to)) = (from_op, to_op) {
            match self.valid_input(from) {
                Ok((from_column, from_row, _)) => match self.valid_input(to) {
                    Ok((to_column, to_row, piece_option)) => {
                        let adjusted_from_row = self.convert_row_to_our_array(&from_row).unwrap();
                        let adjusted_to_row = self.convert_row_to_our_array(&to_row).unwrap();
                        proof {
                            assert(self.board.squares@[adjusted_from_row as int]@
                                == self@.grid[adjusted_from_row as int]);
                        }
                        let from_square = &self.board.squares[adjusted_from_row as usize][from_column as usize];
                        if let Some(color) = from_square.get_color_of_piece() {
                            if !self.self_is_current_player_color(&color) {
                                return Err(String::from_str("You can't move the other's person piece"));
                            }
                            Ok(
                                (
                                    BaseLocation::new_row_column(
                                        RowColumn::new(adjusted_from_row, from_column),
                                        RowColumn::new(adjusted_to_row, to_column),
                                    ),
                                    piece_option,
                                ),
                            )
                        } else {
                            Err(String::from_str("No piece! Try again"))
                        }
                    },
                    Err(error_two) => Err(error_two),
                },
                Err(error) => match self.valid_input(to) {
                    Ok(_) => Err(error),
                    Err(error_two) => {
                        let mut joined = error;
                        joined.append(",");
                        joined.append(error_two.as_str());
                        Err(joined)
                    },
                },
            }
        } else {
            Err(String::from_str("Missing from and/or to"))
        }
    }

    /// Carries out the command `input`: `move` and two squares, `help` or `exit` (see
    /// `command_result` and `game_after_command`).
    pub fn handle_command(&mut self, input: &str) -> (r: Result<Outcome, String>)
        requires
            old(self).wf(),
        ensures
            final(self).wf(),
            final(self)@ == game_after_command(old(self)@, input@),
            match r {
                Ok(o) => command_result(old(self)@, input@) == Ok::<Outcome, Seq<char>>(o),
                Err(e) => command_result(old(self)@, input@) == Err::<Outcome, Seq<char>>(e@),
            },
    {
        let words = split_words(input);
        let ghost w = split_spaces(input@);
        assert(words@.len() == w.len());
        assert(words@.len() >= 1);
        let action = words[0];
        assert(action@ == w[0]);
        if same_text(action, "move") {
            let from_op = if words.len() > 1 {
                assert(words@[1]@ == w[1]);
                Some(words[1])
            } else {
                None
            };
            let to_op = if words.len() > 2 {
                assert(words@[2]@ == w[2]);
                Some(words[2])
            } else {
                None
            };
            assert((match from_op { Some(f) => Some(f@), None => None }) == word_at(w, 1));
            assert((match to_op { Some(t) => Some(t@), None => None }) == word_at(w, 2));
            match self.validate_input(from_op, to_op) {
                Ok((location_info, next_piece_optional_char)) => {
                    let mover = self.current_color;
                    match self.play_move(&location_info.from, &location_info.to, next_piece_optional_char) {
                        Ok(status) => Ok(Outcome::Moved(status, mover)),
                        Err(error) => Err(error),
                    }
                },
                Err(error) => Err(error),
            }
        } else if same_text(action, "help") {
            proof {
                reveal_strlit("help");
                reveal_strlit("exit");
                assert("help"@[0] != "exit"@[0]);
            }
            Ok(Outcome::Help)
        } else if same_text(action, "exit") {
            self.state = State::Ended;
            Ok(Outcome::Exit)
        } else {
            let mut message = String::from_str("Unknown input ");
            message.append(action);
            Err(message)
        }
    }

    /// Carries out the command `input` (see `handle_command`), keeping only whether it was
    /// accepted.
    pub fn handle_input(&mut self, input: &str) -> (r: Result<(), String>)
        requires
            old(self).wf(),
        ensures
            final(self).wf(),
            final(self)@ == game_after_command(old(self)@, input@),
            match r {
                Ok(()) => command_result(old(self)@, input@) is Ok,
                Err(e) => command_result(old(self)@, input@) == Err::<Outcome, Seq<char>>(e@),
            },
    {
        match self.handle_command(input) {
            Ok(_) => Ok(()),
            Err(e) => Err(e),
        }
    }

    /// Puts `piece` on the square at `row`, `column`.
    pub fn set_piece(&mut self, row: u8, column: u8, piece: Pieces)
        requires
            old(self).wf(),
            row <= 7,
            column <= 7,
        ensures
            final(self).wf(),
            final(self)@ == (GameView {
                grid: put(old(self)@.grid, RowColumn { row, column }, Some(piece)),
                ..old(self)@
            }),
    {
        self.board.set_piece(row, column, piece);
    }

    /// Puts `piece` on the square `row_column`.
    pub fn set_piece_row_col(&mut self, row_column: &RowColumn, piece: Pieces)
        requires
            old(self).wf(),
            on_board(*row_column),
        ensures
            final(self).wf(),
            final(self)@ == (GameView { grid: put(old(self)@.grid, *row_column, Some(piece)), ..old(self)@ }),
    {
        self.board.set_piece(row_column.row, row_column.column, piece);
        proof {
            assert((RowColumn { row: row_column.row, column: row_column.column }) == *row_column);
        }
    }

    /// The board as it is shown to the players (see `board_text`).
    pub fn print_board(&self) -> (r: String)
        requires
            self.wf(),
        ensures
            r@ == board_text(self@.grid),
    {
        self.board.print_all()
    }
}

/// The record keeps the last five moves, oldest first: recording a move appends it and,
/// once five are kept, forgets the oldest.
pub proof fn lemma_keep_last_five(s: Seq<History>, h: History)
    requires
        s.len() <= 5,
    ensures
        keep_last_five(s, h).len() == (if s.len() < 5 {
            s.len() + 1
        } else {
            5
        }),
        keep_last_five(s, h).last() == h,
        keep_last_five(s, h) == s.push(h).skip(s.len() + 1 - keep_last_five(s, h).len()),
{
    if s.len() >= 5 {
        assert(s.drop_first().push(h) =~= s.push(h).skip(1));
    } else {
        assert(s.push(h) =~= s.push(h).skip(0));
    }
}

/// Rows and ranks are read from opposite ends: converting a rank to a row and that row
/// back gives the rank.
pub proof fn lemma_row_conversion(rank: u8)
    requires
        rank <= 7,
    ensures
        0 <= wrap_u8(7 - rank) <= 7,
        wrap_u8(7 - wrap_u8(7 - rank)) == rank,
{
}

/// A game that has ended stays ended, whatever command is given.
pub proof fn lemma_ended_stays(v: GameView, input: Seq<char>)
    requires
        v.ended,
    ensures
        game_after_command(v, input).ended,
{
}

/// After two moves the first side is to move again.
pub proof fn lemma_turns_alternate(
    v: GameView,
    from1: RowColumn,
    to1: RowColumn,
    next1: Option<char>,
    from2: RowColumn,
    to2: RowColumn,
    next2: Option<char>,
)
    ensures
        game_after(v, from1, to1, next1).current != v.current,
        game_after(game_after(v, from1, to1, next1), from2, to2, next2).current == v.current,
{
    lemma_opposite(v.current);
}

/// `exit` ends the game, `help` leaves it as it is, and both are accepted.
pub proof fn lemma_exit_and_help(v: GameView)
    ensures
        command_result(v, "exit"@) == Ok::<Outcome, Seq<char>>(Outcome::Exit),
        game_after_command(v, "exit"@) == (GameView { ended: true, ..v }),
        command_result(v, "help"@) == Ok::<Outcome, Seq<char>>(Outcome::Help),
        game_after_command(v, "help"@) == v,
{
    reveal_strlit("exit");
    reveal_strlit("help");
    reveal_strlit("move");
    reveal_with_fuel(space_index, 5);
    assert(split_spaces("exit"@) == seq!["exit"@]);
    assert(split_spaces("help"@) == seq!["help"@]);
    assert("exit"@[0] != "move"@[0]);
    assert("help"@[0] != "move"@[0]);
    assert("help"@[0] != "exit"@[0]);
}

} // verus!
