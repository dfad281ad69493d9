//! The 8x8 board, its standard starting position, and the count of pieces of each kind
//! that each side has.
use std::collections::HashMap;

use vstd::prelude::*;

use crate::game::square::{Square, is_dark, square_piece, square_text, with_piece};
use crate::pieces::color::Color;
use crate::pieces::piece::{
    PieceInfo,
    PieceType,
    Pieces,
    mirror_piece,
    moved_piece,
    new_info,
    piece_color,
    piece_type,
};
use crate::pieces::validator::row_column::{RowColumn, on_board};

verus! {

/// The squares of a board, by row and column.
pub type Grid = Seq<Seq<Square>>;

/// The board has 8 rows of 8 squares.
pub open spec fn grid_shape(g: Grid) -> bool {
    &&& g.len() == 8
    &&& forall|r: int| 0 <= r < 8 ==> #[trigger] g[r].len() == 8
}

/// The square at `rc`.
pub open spec fn square_at(g: Grid, rc: RowColumn) -> Square {
    g[rc.row as int][rc.column as int]
}

/// The piece standing at `rc`.
pub open spec fn piece_at(g: Grid, rc: RowColumn) -> Option<Pieces> {
    square_piece(square_at(g, rc))
}

/// A piece stands at `rc`.
pub open spec fn occupied(g: Grid, rc: RowColumn) -> bool {
    piece_at(g, rc) is Some
}

/// The board with the piece at `rc` replaced by `p` (the square keeps its shade).
pub open spec fn put(g: Grid, rc: RowColumn, p: Option<Pieces>) -> Grid {
    g.update(
        rc.row as int,
        g[rc.row as int].update(rc.column as int, with_piece(g[rc.row as int][rc.column as int], p)),
    )
}

/// The square at row `r` and column `c` is a dark one (a1, row 7 column 0, is dark).
pub open spec fn dark(r: int, c: int) -> bool {
    (r + c) % 2 == 1
}

/// The empty square at row `r` and column `c`, shaded as a chessboard is.
pub open spec fn shaded(r: int, c: int, p: Option<Pieces>) -> Square {
    if dark(r, c) {
        Square::Black(p)
    } else {
        Square::White(p)
    }
}

/// The side whose pieces start on row `row`: black on rows 0 and 1, white otherwise.
pub open spec fn side_of_row(row: int) -> Color {
    if row == 0 || row == 1 {
        Color::Black
    } else {
        Color::White
    }
}

/// The piece that stands at row `row` and column `column` when a game starts.
pub open spec fn initial_piece(row: int, column: int) -> Option<Pieces> {
    let color = side_of_row(row);
    if row == 0 || row == 7 {
        if column == 0 || column == 7 {
            Some(Pieces::Rook(new_info(color, true)))
        } else if column == 1 || column == 6 {
            Some(Pieces::Knight(new_info(color, false)))
        } else if column == 2 || column == 5 {
            Some(Pieces::Bishop(new_info(color, false)))
        } else if column == 3 {
            Some(Pieces::Queen(new_info(color, false)))
        } else if column == 4 {
            Some(Pieces::King(new_info(color, true)))
        } else {
            None
        }
    } else if row == 1 || row == 6 {
        Some(Pieces::Pawn(new_info(color, true)))
    } else {
        None
    }
}

/// The empty board.
pub open spec fn empty_grid() -> Grid {
    Seq::new(8, |r: int| Seq::new(8, |c: int| shaded(r, c, None)))
}

/// The board at the start of a game.
pub open spec fn initial_grid() -> Grid {
    Seq::new(8, |r: int| Seq::new(8, |c: int| shaded(r, c, initial_piece(r, c))))
}

/// The key under which the pieces of a kind are counted: the code of its letter.
pub open spec fn type_key(t: PieceType) -> u8 {
    match t {
        PieceType::Pawn => 80,
        PieceType::Bishop => 66,
        PieceType::Knight => 78,
        PieceType::King => 75,
        PieceType::Queen => 81,
        PieceType::Rook => 82,
    }
}

/// The count of each kind of piece that a side has at the start of a game.
pub open spec fn initial_counts() -> Map<u8, u8> {
    map![82u8 => 2u8, 78u8 => 2u8, 66u8 => 2u8, 81u8 => 1u8, 75u8 => 1u8, 80u8 => 8u8]
}

/// Every kind that is counted is counted at least once.
pub open spec fn counts_ok(m: Map<u8, u8>) -> bool {
    forall|k: u8| m.contains_key(k) ==> m[k] >= 1
}

/// The counts with one piece of kind `k` taken away; a kind whose count reaches zero is
/// no longer counted.
pub open spec fn count_removed(m: Map<u8, u8>, k: u8) -> Map<u8, u8> {
    if m.contains_key(k) {
        if m[k] == 1 {
            m.remove(k)
        } else {
            m.insert(k, (m[k] - 1) as u8)
        }
    } else {
        m
    }
}

/// The piece a pawn is promoted to on the letter `c` (any case: q, n, b or r), of the
/// black side or the white one, already marked as moved.
pub open spec fn promotion_piece(c: char, should_be_black: bool) -> Option<Pieces> {
    let color = if should_be_black {
        Color::Black
    } else {
        Color::White
    };
    if c == 'Q' || c == 'q' {
        Some(moved_piece(Pieces::Queen(new_info(color, true))))
    } else if c == 'N' || c == 'n' {
        Some(moved_piece(Pieces::Knight(new_info(color, false))))
    } else if c == 'B' || c == 'b' {
        Some(moved_piece(Pieces::Bishop(new_info(color, false))))
    } else if c == 'R' || c == 'r' {
        Some(moved_piece(Pieces::Rook(new_info(color, false))))
    } else {
        None
    }
}

/// The text of a row of squares, left to right.
pub open spec fn squares_text(row: Seq<Square>) -> Seq<char>
    decreases row.len(),
{
    if row.len() == 0 {
        Seq::empty()
    } else {
        squares_text(row.drop_last()) + square_text(row.last())
    }
}

/// The label of row `r`: its rank, from `8` for row 0 down to `1` for row 7.
pub open spec fn rank_label(r: int) -> Seq<char> {
    if r == 0 {
        seq!['8']
    } else if r == 1 {
        seq!['7']
    } else if r == 2 {
        seq!['6']
    } else if r == 3 {
        seq!['5']
    } else if r == 4 {
        seq!['4']
    } else if r == 5 {
        seq!['3']
    } else if r == 6 {
        seq!['2']
    } else {
        seq!['1']
    }
}

/// The line of file letters above and below the board.
pub open spec fn files_line() -> Seq<char> {
    "   a b c d e f g h  \n"@
}

/// The line of row `r`: its rank, its squares, its rank again.
pub open spec fn row_line(g: Grid, r: int) -> Seq<char> {
    rank_label(r) + " "@ + squares_text(g[r]) + " "@ + rank_label(r) + "\n"@
}

/// The lines of the first `n` rows.
pub open spec fn rows_text(g: Grid, n: int) -> Seq<char>
    decreases n,
{
    if n <= 0 {
        Seq::empty()
    } else {
        rows_text(g, n - 1) + row_line(g, n - 1)
    }
}

/// The board as it is shown to the players: the file letters, the eight rows from
/// rank 8 down to rank 1, and the file letters again, each line ending in a newline.
pub open spec fn board_text(g: Grid) -> Seq<char> {
    files_line() + rows_text(g, 8) + files_line()
}

/// The board: `squares[row][column]`, and for each side the number of pieces of each
/// kind, keyed by the code of the kind's letter.
pub struct Board {
    pub squares: Vec<Vec<Square>>,
    pub white_pieces: HashMap<u8, u8>,
    pub black_pieces: HashMap<u8, u8>,
}

impl Board {
    /// The squares of the board.
    pub open spec fn grid(&self) -> Grid {
        self.squares@.map_values(|row: Vec<Square>| row@)
    }

    /// How many pieces of each kind the white side is counted to have, by the key of the
    /// kind (see `type_key`).
    pub open spec fn white_counts(&self) -> Map<u8, u8> {
        self.white_pieces@
    }

    /// How many pieces of each kind the black side is counted to have, by the key of the
    /// kind (see `type_key`).
    pub open spec fn black_counts(&self) -> Map<u8, u8> {
        self.black_pieces@
    }

    /// The board has 8 rows of 8 squares and counts each kind it counts at least once.
    pub open spec fn wf(&self) -> bool {
        &&& grid_shape(self.grid())
        &&& counts_ok(self.white_counts())
        &&& counts_ok(self.black_counts())
    }

    fn create_piece_info(should_be_black: bool, track_movement: bool) -> (r: PieceInfo)
        ensures
            r == new_info(
                if should_be_black {
                    Color::Black
                } else {
                    Color::White
                },
                track_movement,
            ),
    {
        let color = if should_be_black {
            Color::Black
        } else {
            Color::White
        };
        PieceInfo::new(color, track_movement)
    }

    fn column_letter(column: usize) -> (c: char)
        requires
            column < 8,
        ensures
            c == (if column == 0 {
                'a'
            } else if column == 1 {
                'b'
            } else if column == 2 {
                'c'
            } else if column == 3 {
                'd'
            } else if column == 4 {
                'e'
            } else if column == 5 {
                'f'
            } else if column == 6 {
                'g'
            } else {
                'h'
            }),
    {
        if column == 0 {
            'a'
        } else if column == 1 {
            'b'
        } else if column == 2 {
            'c'
        } else if column == 3 {
            'd'
        } else if column == 4 {
            'e'
        } else if column == 5 {
            'f'
        } else if column == 6 {
            'g'
        } else {
            'h'
        }
    }

    /// The piece that stands at `row`, `column` when a game starts.
    pub fn maybe_get_piece(row: usize, column: usize) -> (r: Option<Pieces>)
        requires
            row == 0 || row == 7 ==> column < 8,
        ensures
            r == initial_piece(row as int, column as int),
    {
        if row == 0 || row == 7 {
            let should_be_black = row == 0;
            let piece = match Self::column_letter(column) {
                'a' | 'h' => Some(Pieces::Rook(Board::create_piece_info(should_be_black, true))),
                'b' | 'g' => Some(Pieces::Knight(Board::create_piece_info(should_be_black, false))),
                'c' | 'f' => Some(Pieces::Bishop(Board::create_piece_info(should_be_black, false))),
                'd' => Some(Pieces::Queen(Board::create_piece_info(should_be_black, false))),
                'e' => Some(Pieces::King(Board::create_piece_info(should_be_black, true))),
                _ => None,
            };
            return match piece {
                None => None,
                Some(p) => Some(p),
            };
        } else if row == 1 || row == 6 {
            let should_be_black = row == 1;
            let piece = Pieces::Pawn(Board::create_piece_info(should_be_black, true));
            return Some(piece);
        }
        return None;
    }

    /// An empty board, shaded as a chessboard, counting no pieces.
    pub fn create_empty_board() -> (b: Board)
        ensures
            b.wf(),
            b.grid() == empty_grid(),
            b.white_counts() == Map::<u8, u8>::empty(),
            b.black_counts() == Map::<u8, u8>::empty(),
    {
        let mut squares: Vec<Vec<Square>> = Vec::new();
        let mut row: usize = 0;
        while row < 8
            invariant
                0 <= row <= 8,
                squares@.len() == row,
                forall|r: int|
                    0 <= r < row ==> #[trigger] squares@[r]@ == empty_grid()[r],
            decreases 8 - row,
        {
            let white_is_first = row % 2 == 0;
            let mut line: Vec<Square> = Vec::new();
            let mut column: usize = 0;
            while column < 8
                invariant
                    0 <= row < 8,
                    0 <= column <= 8,
                    white_is_first == (row % 2 == 0),
                    line@.len() == column,
                    forall|c: int|
                        0 <= c < column ==> #[trigger] line@[c] == shaded(row as int, c, None),
                decreases 8 - column,
            {
                let be_black: bool;
                if white_is_first {
                    be_black = column % 2 == 1;
                } else {
                    be_black = column % 2 == 0;
                }
                if be_black {
                    line.push(Square::Black(None));
                } else {
                    line.push(Square::White(None));
                }
                column += 1;
            }
            assert(line@ =~= empty_grid()[row as int]);
            squares.push(line);
            row += 1;
        }
        let b = Board { squares, white_pieces: HashMap::new(), black_pieces: HashMap::new() };
        assert(b.grid() =~= empty_grid());
        b
    }

    fn initial_counts_map() -> (m: HashMap<u8, u8>)
        ensures
            m@ == initial_counts(),
    {
        let mut m: HashMap<u8, u8> = HashMap::new();
        m.insert(82, 2);
        m.insert(78, 2);
        m.insert(66, 2);
        m.insert(81, 1);
        m.insert(75, 1);
        m.insert(80, 8);
        assert(m@ =~= initial_counts());
        m
    }

    /// The board at the start of a game: each side has two rooks, knights and bishops,
    /// a queen, a king and eight pawns.
    pub fn new() -> (b: Board)
        ensures
            b.wf(),
            b.grid() == initial_grid(),
            b.white_counts() == initial_counts(),
            b.black_counts() == initial_counts(),
    {
        let white_pieces = Board::initial_counts_map();
        let black_pieces = Board::initial_counts_map();
        let mut squares: Vec<Vec<Square>> = Vec::new();
        let mut row: usize = 0;
        while row < 8
            invariant
                0 <= row <= 8,
                squares@.len() == row,
                forall|r: int|
                    0 <= r < row ==> #[trigger] squares@[r]@ == initial_grid()[r],
            decreases 8 - row,
        {
            let white_is_first = row % 2 == 0;
            let mut line: Vec<Square> = Vec::new();
            let mut column: usize = 0;
            while column < 8
                invariant
                    0 <= row < 8,
                    0 <= column <= 8,
                    white_is_first == (row % 2 == 0),
                    line@.len() == column,
                    forall|c: int|
                        0 <= c < column ==> #[trigger] line@[c] == shaded(
                            row as int,
                            c,
                            initial_piece(row as int, c),
                        ),
                decreases 8 - column,
            {
                let be_black: bool;
                if white_is_first {
                    be_black = column % 2 == 1;
                } else {
                    be_black = column % 2 == 0;
                }
                if be_black {
                    line.push(Square::Black(Board::maybe_get_piece(row, column)));
                } else {
                    line.push(Square::White(Board::maybe_get_piece(row, column)));
                }
                column += 1;
            }
            assert(line@ =~= initial_grid()[row as int]);
            squares.push(line);
            row += 1;
        }
        let b = Board { squares, white_pieces, black_pieces };
        assert(b.grid() =~= initial_grid());
        b
    }

    /// Counts one less on the count given, if one is.
    #[allow(dead_code)]
    fn decrement(&self, ref_count: Option<&mut u8>)
        requires
            ref_count matches Some(c) ==> *c > 0,
        ensures
            ref_count matches Some(c) ==> *final(c) == *c - 1,
    {
        match ref_count {
            None => {},
            Some(ref_count) => {
                *ref_count -= 1;
            },
        }
    }

    fn remove_from(map: &mut HashMap<u8, u8>, key: u8)
        requires
            counts_ok(old(map)@),
        ensures
            final(map)@ == count_removed(old(map)@, key),
            counts_ok(final(map)@),
    {
        broadcast use vstd::std_specs::hash::group_hash_axioms;

        match map.get(&key) {
            Some(count) => {
                let count = *count - 1;
                if count == 0 {
                    map.remove(&key);
                } else {
                    map.insert(key, count);
                }
            },
            None => {},
        }
    }

    /// Counts one piece of `piece`'s kind less for `piece`'s side.
    pub fn remove_piece_from_map(&mut self, piece: Pieces)
        requires
            old(self).wf(),
        ensures
            final(self).wf(),
            final(self).squares == old(self).squares,
            piece_color(piece) == Color::White ==> final(self).white_counts() == count_removed(
                old(self).white_counts(),
                type_key(piece_type(piece)),
            ) && final(self).black_counts() == old(self).black_counts(),
            piece_color(piece) == Color::Black ==> final(self).black_counts() == count_removed(
                old(self).black_counts(),
                type_key(piece_type(piece)),
            ) && final(self).white_counts() == old(self).white_counts(),
    {
        let key = Board::type_key_of(piece.get_piece_type());
        match piece.get_color() {
            Color::White => {
                Board::remove_from(&mut self.white_pieces, key);
            },
            Color::Black => {
                Board::remove_from(&mut self.black_pieces, key);
            },
        }
    }

    fn type_key_of(t: PieceType) -> (k: u8)
        ensures
            k == type_key(t),
    {
        match t {
            PieceType::Pawn => 80,
            PieceType::Bishop => 66,
            PieceType::Knight => 78,
            PieceType::King => 75,
            PieceType::Queen => 81,
            PieceType::Rook => 82,
        }
    }

    /// How many pieces of kind `kind` the side `color` is counted to have.
    pub fn count_of(&self, color: Color, kind: PieceType) -> (n: u8)
        ensures
            color == Color::White ==> n == (if self.white_counts().contains_key(type_key(kind)) {
                self.white_counts()[type_key(kind)]
            } else {
                0
            }),
            color == Color::Black ==> n == (if self.black_counts().contains_key(type_key(kind)) {
                self.black_counts()[type_key(kind)]
            } else {
                0
            }),
    {
        broadcast use vstd::std_specs::hash::group_hash_axioms;

        let key = Board::type_key_of(kind);
        let map = match color {
            Color::White => &self.white_pieces,
            Color::Black => &self.black_pieces,
        };
        match map.get(&key) {
            Some(count) => *count,
            None => 0,
        }
    }

    /// Puts `piece` on the square at `row`, `column`, replacing what stood there; the
    /// piece replaced, if any, is returned.
    pub fn set_piece(&mut self, row: u8, column: u8, piece: Pieces) -> (r: Option<Pieces>)
        requires
            old(self).wf(),
            row <= 7,
            column <= 7,
        ensures
            r == piece_at(old(self).grid(), RowColumn { row, column }),
            final(self).wf(),
            final(self).grid() == put(
                old(self).grid(),
                RowColumn { row, column },
                Some(piece),
            ),
            final(self).white_counts() == old(self).white_counts(),
            final(self).black_counts() == old(self).black_counts(),
    {
        assert(self.squares@[row as int]@ == self.grid()[row as int]);
        let replaced = *self.squares[row as usize][column as usize].get_piece();
        let to_square = &mut self.squares[row as usize][column as usize];
        to_square.set_piece(piece);
        assert(self.grid() =~= put(old(self).grid(), RowColumn { row, column }, Some(piece)));
        replaced
    }

    /// The piece a pawn is promoted to on the letter `c` (q, n, b or r, in either case),
    /// for the black side or the white one, already marked as moved; `None` on any other
    /// letter.
    pub fn create_new_piece_and_set_as_moved(&self, c: char, should_be_black: bool) -> (r:
        Option<Pieces>)
        ensures
            r == promotion_piece(c, should_be_black),
    {
        let option_piece = match c {
            'Q' | 'q' => Some(Pieces::Queen(Board::create_piece_info(should_be_black, true))),
            'N' | 'n' => Some(Pieces::Knight(Board::create_piece_info(should_be_black, false))),
            'B' | 'b' => Some(Pieces::Bishop(Board::create_piece_info(should_be_black, false))),
            'R' | 'r' => Some(Pieces::Rook(Board::create_piece_info(should_be_black, false))),
            _ => None,
        };
        match option_piece {
            None => None,
            Some(mut piece) => {
                piece.set_as_moved();
                Some(piece)
            },
        }
    }

    /// Empties the square at `row`, `column`.
    pub fn remove_piece(&mut self, row: u8, column: u8)
        requires
            old(self).wf(),
            row <= 7,
            column <= 7,
        ensures
            final(self).wf(),
            final(self).grid() == put(old(self).grid(), RowColumn { row, column }, None),
            final(self).white_counts() == old(self).white_counts(),
            final(self).black_counts() == old(self).black_counts(),
    {
        assert(self.squares@[row as int]@ == self.grid()[row as int]);
        let to_square = &mut self.squares[row as usize][column as usize];
        to_square.remove_piece();
        assert(self.grid() =~= put(old(self).grid(), RowColumn { row, column }, None));
    }

    /// Takes the piece off the square at `row`, `column`, leaving it empty.
    pub fn take_piece(&mut self, row: u8, column: u8) -> (r: Option<Pieces>)
        requires
            old(self).wf(),
            row <= 7,
            column <= 7,
        ensures
            final(self).wf(),
            r == piece_at(old(self).grid(), RowColumn { row, column }),
            final(self).grid() == put(old(self).grid(), RowColumn { row, column }, None),
            final(self).white_counts() == old(self).white_counts(),
            final(self).black_counts() == old(self).black_counts(),
    {
        assert(self.squares@[row as int]@ == self.grid()[row as int]);
        let r = self.squares[row as usize][column as usize].get_actual_piece();
        assert(self.grid() =~= put(old(self).grid(), RowColumn { row, column }, None));
        r
    }

    fn rank_text(r: usize) -> (t: &'static str)
        requires
            r < 8,
        ensures
            t@ == rank_label(r as int),
    {
        if r == 0 {
            proof { reveal_strlit("8"); }
            "8"
        } else if r == 1 {
            proof { reveal_strlit("7"); }
            "7"
        } else if r == 2 {
            proof { reveal_strlit("6"); }
            "6"
        } else if r == 3 {
            proof { reveal_strlit("5"); }
            "5"
        } else if r == 4 {
            proof { reveal_strlit("4"); }
            "4"
        } else if r == 5 {
            proof { reveal_strlit("3"); }
            "3"
        } else if r == 6 {
            proof { reveal_strlit("2"); }
            "2"
        } else {
            proof { reveal_strlit("1"); }
            "1"
        }
    }

    /// The board as it is shown to the players (see `board_text`).
    pub fn print_all(&self) -> (r: String)
        requires
            self.wf(),
        ensures
            r@ == board_text(self.grid()),
    {
        let ghost g = self.grid();
        let mut out = String::from_str("   a b c d e f g h  \n");
        assert(out@ == files_line() + rows_text(g, 0));
        for row in 0..8
            invariant
                grid_shape(g),
                g == self.grid(),
                out@ == files_line() + rows_text(g, row as int),
        {
            let label = Board::rank_text(row);
            let ghost start = out@;
            out.append(label);
            out.append(" ");
            proof {
                assert(self.squares@[row as int]@ == g[row as int]);
                assert(g[row as int].take(0) =~= Seq::<Square>::empty());
            }
            for column in 0..8
                invariant
                    grid_shape(g),
                    g == self.grid(),
                    row < 8,
                    out@ == start + rank_label(row as int) + " "@ + squares_text(g[row as int].take(column as int)),
            {
                proof {
                    assert(self.squares@[row as int]@ == g[row as int]);
                }
                let text = self.squares[row][column].print();
                let ghost before = out@;
                out.append(text.as_str());
                proof {
                    let cells = g[row as int];
                    assert(cells.take(column + 1).drop_last() =~= cells.take(column as int));
                    assert(squares_text(cells.take(column + 1)) == squares_text(cells.take(column as int)) + square_text(cells[column as int]));
                    assert(out@ =~= start + rank_label(row as int) + " "@ + squares_text(cells.take(column + 1)));
                }
            }
            out.append(" ");
            out.append(label);
            out.append("\n");
            proof {
                assert(g[row as int].take(8) =~= g[row as int]);
                assert(out@ =~= files_line() + rows_text(g, row + 1));
            }
        }
        out.append("   a b c d e f g h  \n");
        out
    }
}

/// Putting a piece on a square and reading that square gives the piece back; the other
/// squares keep their pieces, every square keeps its shade, and the board keeps its
/// shape.
pub proof fn lemma_put_read(g: Grid, rc: RowColumn, p: Option<Pieces>, q: RowColumn)
    requires
        grid_shape(g),
        on_board(rc),
        on_board(q),
    ensures
        grid_shape(put(g, rc, p)),
        piece_at(put(g, rc, p), rc) == p,
        q != rc ==> piece_at(put(g, rc, p), q) == piece_at(g, q),
        is_dark(square_at(put(g, rc, p), q)) == is_dark(square_at(g, q)),
{
    let g2 = put(g, rc, p);
    assert forall|r: int| 0 <= r < 8 implies #[trigger] g2[r].len() == 8 by {
        if r != rc.row {
            assert(g2[r] == g[r]);
        }
    }
    if q != rc && q.row == rc.row {
        assert(q.column != rc.column);
    }
}

/// The starting position is the same for both sides: the piece that starts on a square
/// of one side's half is, for the other side, on the square of the same file and the
/// mirrored rank.
pub proof fn lemma_initial_mirror(row: int, column: int)
    requires
        0 <= row < 8,
        0 <= column < 8,
    ensures
        initial_piece(7 - row, column) == (match initial_piece(row, column) {
            Some(p) => Some(mirror_piece(p)),
            None => None,
        }),
{
}

/// Emptying a square and putting its piece back gives the board back.
pub proof fn lemma_put_back(g: Grid, rc: RowColumn)
    requires
        grid_shape(g),
        on_board(rc),
        occupied(g, rc),
    ensures
        put(put(g, rc, None), rc, piece_at(g, rc)) == g,
{
    let g2 = put(put(g, rc, None), rc, piece_at(g, rc));
    assert(g2[rc.row as int] =~= g[rc.row as int]);
    assert(g2 =~= g);
}

/// Emptying a square that is already empty changes nothing.
pub proof fn lemma_put_empty(g: Grid, rc: RowColumn)
    requires
        grid_shape(g),
        on_board(rc),
        !occupied(g, rc),
    ensures
        put(g, rc, None) == g,
{
    let g2 = put(g, rc, None);
    assert(g2[rc.row as int] =~= g[rc.row as int]);
    assert(g2 =~= g);
}

/// The piece a pawn is promoted to is the one its letter names, in either case: `Q` a
/// queen, `R` a rook, `B` a bishop, `N` a knight, of the side asked for; any other letter
/// names none.
pub proof fn lemma_promotion_kind(c: char, should_be_black: bool)
    ensures
        ({
            let color = if should_be_black { Color::Black } else { Color::White };
            let named = if c == 'Q' || c == 'q' {
                Some(PieceType::Queen)
            } else if c == 'R' || c == 'r' {
                Some(PieceType::Rook)
            } else if c == 'B' || c == 'b' {
                Some(PieceType::Bishop)
            } else if c == 'N' || c == 'n' {
                Some(PieceType::Knight)
            } else {
                None
            };
            &&& promotion_piece(c, should_be_black) is Some <==> named is Some
            &&& promotion_piece(c, should_be_black) matches Some(p) ==> Some(piece_type(p)) == named
                && piece_color(p) == color
        }),
{
}

/// Taking a piece off the counts counts one fewer of its kind, forgets a kind whose
/// count reaches zero, leaves the other kinds as they were, and keeps every count at
/// least one.
pub proof fn lemma_count_removed(m: Map<u8, u8>, k: u8, other: u8)
    requires
        counts_ok(m),
    ensures
        counts_ok(count_removed(m, k)),
        m.contains_key(k) && m[k] > 1 ==> count_removed(m, k).contains_key(k) && count_removed(m, k)[k]
            == m[k] - 1,
        m.contains_key(k) && m[k] == 1 ==> !count_removed(m, k).contains_key(k),
        !m.contains_key(k) ==> count_removed(m, k) == m,
        other != k ==> (count_removed(m, k).contains_key(other) == m.contains_key(other)
            && (m.contains_key(other) ==> count_removed(m, k)[other] == m[other])),
{
}

} // verus!
