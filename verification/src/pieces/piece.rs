//! The pieces on the board, what they know of themselves, and which moves they may make.
use vstd::prelude::*;

use crate::game::board::{Board, Grid, occupied, piece_at};
use crate::game::game::{History, opt_history};
use crate::pieces::color::{Color, color_letter, opposite};
use crate::pieces::validator::base_validator::{
    BaseValidator,
    ContainsConflictingPiece,
    lemma_walk_aligned,
    path_clear,
    walk_column,
    walk_from,
    walk_row,
};
use crate::pieces::validator::bishop_validator::{BishopValidator, bishop_valid};
use crate::pieces::validator::king_validator::{
    KingValidator,
    castling_defined,
    castling_spec,
    king_valid,
};
use crate::pieces::validator::knight_validator::{KnightValidator, knight_valid};
use crate::pieces::validator::pawn_validator::{PawnValidator, en_passant_spec, pawn_valid};
use crate::pieces::validator::queen_validator::{QueenValidator, queen_valid};
use crate::pieces::validator::rook_validator::{RookValidator, rook_valid};
use crate::pieces::validator::row_column::{
    BaseLocation,
    RowColumn,
    abs,
    aligned,
    between,
    on_board,
    path_square,
    s8,
    sign,
    steps,
    toward,
};

verus! {

/// Behaviour shared by the stand-alone piece types (`Bishop`, `King`, ...).
pub trait Piece {
    /// The name of the piece: its side's letter and its own letter.
    spec fn name_spec(&self) -> Seq<char>;

    fn get_name(&self) -> (r: &str)
        ensures
            r@ == self.name_spec(),
    ;

    /// Whether a coordinate lies off the board.
    #[allow(unused_comparisons)]
    fn invalid_movements(&self, value: &u8) -> (r: bool)
        ensures
            r == (*value > 7),
    {
        *value < 0u8 || *value > 7u8
    }

    /// Whether a target square lies on the board.
    fn is_valid_movement(&self, to_row: &u8, to_column: &u8) -> (r: bool)
        ensures
            r == (*to_row <= 7 && *to_column <= 7),
    {
        !self.invalid_movements(to_row) && !self.invalid_movements(to_column)
    }
}

/// What a piece on the board knows of itself: its side, and for the pieces whose first
/// move matters (pawns, kings, rooks), whether it has moved.
#[derive(Clone, Copy, PartialEq, Eq, Debug, Structural)]
pub enum PieceInfo {
    Default(PieceProperty),
    MovementInfo(PieceMovedProperty),
}

/// The side of a piece whose movement is not tracked.
#[derive(Clone, Copy, PartialEq, Eq, Debug, Structural)]
pub struct PieceProperty {
    pub color: Color,
}

/// The side of a piece whose movement is tracked, and whether it has moved.
#[derive(Clone, Copy, PartialEq, Eq, Debug, Structural)]
pub struct PieceMovedProperty {
    pub color: Color,
    pub has_moved: bool,
}

/// The side recorded in a piece's information.
pub open spec fn info_color(info: PieceInfo) -> Color {
    match info {
        PieceInfo::Default(p) => p.color,
        PieceInfo::MovementInfo(p) => p.color,
    }
}

/// Whether a piece's information records a move (never, when movement is not tracked).
pub open spec fn info_moved(info: PieceInfo) -> bool {
    match info {
        PieceInfo::Default(_) => false,
        PieceInfo::MovementInfo(p) => p.has_moved,
    }
}

/// A piece's information once a move has been recorded in it.
pub open spec fn info_marked_moved(info: PieceInfo) -> PieceInfo {
    match info {
        PieceInfo::Default(p) => PieceInfo::Default(p),
        PieceInfo::MovementInfo(p) => PieceInfo::MovementInfo(
            PieceMovedProperty { color: p.color, has_moved: true },
        ),
    }
}

/// The information of a fresh piece of side `color`, tracking movement or not.
pub open spec fn new_info(color: Color, track_movement: bool) -> PieceInfo {
    if track_movement {
        PieceInfo::MovementInfo(PieceMovedProperty { color, has_moved: false })
    } else {
        PieceInfo::Default(PieceProperty { color })
    }
}

trait PiecePropertyDefault {
    spec fn color_spec(&self) -> Color;

    fn get_color_name(&self) -> (r: String)
        ensures
            r@ == color_letter(self.color_spec()),
    ;

    fn get_color(&self) -> (r: &Color)
        ensures
            *r == self.color_spec(),
    ;
}

impl PiecePropertyDefault for PieceProperty {
    spec fn color_spec(&self) -> Color {
        self.color
    }

    fn get_color_name(&self) -> (r: String) {
        return self.color.get_color();
    }

    fn get_color(&self) -> (r: &Color) {
        return &self.color;
    }
}

impl PiecePropertyDefault for PieceMovedProperty {
    spec fn color_spec(&self) -> Color {
        self.color
    }

    fn get_color_name(&self) -> (r: String) {
        return self.color.get_color();
    }

    fn get_color(&self) -> (r: &Color) {
        return &self.color;
    }
}

impl PieceInfo {
    /// The information of a fresh piece: tracked pieces start as not moved.
    pub fn new(color: Color, track_movement: bool) -> (r: PieceInfo)
        ensures
            r == new_info(color, track_movement),
    {
        if track_movement {
            PieceInfo::MovementInfo(PieceMovedProperty { color: color, has_moved: false })
        } else {
            PieceInfo::Default(PieceProperty { color })
        }
    }

    fn get_color_name(&self) -> (r: String)
        ensures
            r@ == color_letter(info_color(*self)),
    {
        match self {
            PieceInfo::Default(piece_prop) => piece_prop.get_color_name(),
            PieceInfo::MovementInfo(pawn_prop) => pawn_prop.get_color_name(),
        }
    }

    /// Records a move; nothing changes when movement is not tracked.
    pub fn set_has_moved(&mut self)
        ensures
            *final(self) == info_marked_moved(*old(self)),
    {
        match self {
            PieceInfo::Default(_default) => {
                // does nothing
            },
            PieceInfo::MovementInfo(pawn_prop) => pawn_prop.has_moved = true,
        }
    }

    pub fn get_has_moved(&self) -> (r: bool)
        ensures
            r == info_moved(*self),
    {
        match self {
            PieceInfo::Default(_) => return false,
            PieceInfo::MovementInfo(pawn_prop) => return pawn_prop.has_moved,
        }
    }

    fn get_color(&self) -> (r: &Color)
        ensures
            *r == info_color(*self),
    {
        match self {
            PieceInfo::Default(prop) => &prop.color,
            PieceInfo::MovementInfo(prop) => &prop.color,
        }
    }
}

/// The kind of a piece.
#[derive(Clone, Copy, PartialEq, Eq, Debug, Structural)]
pub enum PieceType {
    Pawn,
    Bishop,
    Knight,
    King,
    Queen,
    Rook,
}

/// The piece of kind `t` with information `info`.
pub open spec fn make_piece(t: PieceType, info: PieceInfo) -> Pieces {
    match t {
        PieceType::Pawn => Pieces::Pawn(info),
        PieceType::Bishop => Pieces::Bishop(info),
        PieceType::Knight => Pieces::Knight(info),
        PieceType::King => Pieces::King(info),
        PieceType::Queen => Pieces::Queen(info),
        PieceType::Rook => Pieces::Rook(info),
    }
}

/// The letter that names a kind of piece.
pub open spec fn type_letter(t: PieceType) -> char {
    match t {
        PieceType::Pawn => 'P',
        PieceType::Bishop => 'B',
        PieceType::Knight => 'N',
        PieceType::King => 'K',
        PieceType::Queen => 'Q',
        PieceType::Rook => 'R',
    }
}

impl PieceType {
    /// The piece of this kind with the given information.
    pub fn create_actual_piece(&self, piece_info: PieceInfo) -> (r: Pieces)
        ensures
            r == make_piece(*self, piece_info),
    {
        match self {
            PieceType::Pawn => Pieces::Pawn(piece_info),
            PieceType::Bishop => Pieces::Bishop(piece_info),
            PieceType::Knight => Pieces::Knight(piece_info),
            PieceType::King => Pieces::King(piece_info),
            PieceType::Queen => Pieces::Queen(piece_info),
            PieceType::Rook => Pieces::Rook(piece_info),
        }
    }
}

/// A piece on the board.
#[derive(Clone, Copy, PartialEq, Eq, Debug, Structural)]
pub enum Pieces {
    Pawn(PieceInfo),
    Bishop(PieceInfo),
    Knight(PieceInfo),
    King(PieceInfo),
    Queen(PieceInfo),
    Rook(PieceInfo),
}

/// The answer to "may this piece make this move": no, yes, yes as castling (with the
/// rook's move), yes as en passant (with the square of the pawn taken), yes as a pawn
/// reaching the last rank.
#[allow(non_camel_case_types)]
#[derive(Clone, Copy, Debug)]
pub enum ValidMovement {
    INVALID,
    VALID,
    CASTLING(BaseLocation),
    EnPassant(RowColumn),
    Promotion,
}

/// The information of a piece.
pub open spec fn piece_info(p: Pieces) -> PieceInfo {
    match p {
        Pieces::Pawn(info) => info,
        Pieces::Bishop(info) => info,
        Pieces::Knight(info) => info,
        Pieces::King(info) => info,
        Pieces::Queen(info) => info,
        Pieces::Rook(info) => info,
    }
}

/// The kind of a piece.
pub open spec fn piece_type(p: Pieces) -> PieceType {
    match p {
        Pieces::Pawn(_) => PieceType::Pawn,
        Pieces::Bishop(_) => PieceType::Bishop,
        Pieces::Knight(_) => PieceType::Knight,
        Pieces::King(_) => PieceType::King,
        Pieces::Queen(_) => PieceType::Queen,
        Pieces::Rook(_) => PieceType::Rook,
    }
}

/// The side of a piece.
pub open spec fn piece_color(p: Pieces) -> Color {
    info_color(piece_info(p))
}

/// The name of a piece as the board shows it: side letter, then kind letter.
pub open spec fn piece_name(p: Pieces) -> Seq<char> {
    color_letter(piece_color(p)).push(type_letter(piece_type(p)))
}

/// A piece once it has moved: pawns, kings and rooks record the move, other pieces
/// stay as they are.
pub open spec fn moved_piece(p: Pieces) -> Pieces {
    match p {
        Pieces::Pawn(info) => Pieces::Pawn(info_marked_moved(info)),
        Pieces::King(info) => Pieces::King(info_marked_moved(info)),
        Pieces::Rook(info) => Pieces::Rook(info_marked_moved(info)),
        _ => p,
    }
}

impl Pieces {
    /// Records that the piece has moved (pawns, kings and rooks only).
    pub fn set_as_moved(&mut self)
        ensures
            *final(self) == moved_piece(*old(self)),
    {
        match self {
            Pieces::Pawn(ref mut info) => {
                info.set_has_moved();
            },
            Pieces::King(ref mut info) => {
                info.set_has_moved();
            },
            Pieces::Rook(ref mut info) => {
                info.set_has_moved();
            },
            _ => {},
        }
    }

    /// The name of the piece, such as `WP` for a white pawn.
    pub fn get_name(&self) -> (r: String)
        ensures
            r@ == piece_name(*self),
    {
        let mut name = self.get_piece_info().get_color_name();
        match self {
            Pieces::Pawn(_) => {
                name.append("P");
                proof {
                    reveal_strlit("P");
                }
            },
            Pieces::Bishop(_) => {
                name.append("B");
                proof {
                    reveal_strlit("B");
                }
            },
            Pieces::King(_) => {
                name.append("K");
                proof {
                    reveal_strlit("K");
                }
            },
            Pieces::Queen(_) => {
                name.append("Q");
                proof {
                    reveal_strlit("Q");
                }
            },
            Pieces::Rook(_) => {
                name.append("R");
                proof {
                    reveal_strlit("R");
                }
            },
            Pieces::Knight(_) => {
                name.append("N");
                proof {
                    reveal_strlit("N");
                }
            },
        }
        name
    }

    pub fn get_color(&self) -> (r: &Color)
        ensures
            *r == piece_color(*self),
    {
        match self {
            Pieces::Pawn(piece_info) => piece_info.get_color(),
            Pieces::Bishop(piece_info) => piece_info.get_color(),
            Pieces::King(piece_info) => piece_info.get_color(),
            Pieces::Queen(piece_info) => piece_info.get_color(),
            Pieces::Rook(piece_info) => piece_info.get_color(),
            Pieces::Knight(piece_info) => piece_info.get_color(),
        }
    }

    pub fn get_piece_type(&self) -> (r: PieceType)
        ensures
            r == piece_type(*self),
    {
        match self {
            Pieces::Pawn(_) => PieceType::Pawn,
            Pieces::Bishop(_) => PieceType::Bishop,
            Pieces::Knight(_) => PieceType::Knight,
            Pieces::King(_) => PieceType::King,
            Pieces::Queen(_) => PieceType::Queen,
            Pieces::Rook(_) => PieceType::Rook,
        }
    }

    pub fn get_piece_info(&self) -> (r: &PieceInfo)
        ensures
            *r == piece_info(*self),
    {
        match self {
            Pieces::Pawn(info) => info,
            Pieces::Bishop(info) => info,
            Pieces::Knight(info) => info,
            Pieces::King(info) => info,
            Pieces::Queen(info) => info,
            Pieces::Rook(info) => info,
        }
    }

    pub fn get_piece_info_clone(&self) -> (r: PieceInfo)
        ensures
            r == piece_info(*self),
    {
        match self {
            Pieces::Pawn(info) => info.clone(),
            Pieces::Bishop(info) => info.clone(),
            Pieces::Knight(info) => info.clone(),
            Pieces::King(info) => info.clone(),
            Pieces::Queen(info) => info.clone(),
            Pieces::Rook(info) => info.clone(),
        }
    }

    fn get_increment(&self, value: i8) -> (r: i8)
        ensures
            r == sign(value as int),
    {
        if value == 0 {
            0
        } else if value > 0 {
            1
        } else {
            -1
        }
    }

    /// The squares strictly between `from` and `to`, which lie on one rank, file or
    /// diagonal, in order from `from`.
    pub fn get_movements_between(&self, from: &RowColumn, to: &RowColumn) -> (r: Vec<RowColumn>)
        requires
            from.row < 128,
            from.column < 128,
            to.row < 128,
            to.column < 128,
            aligned(*from, *to),
        ensures
            r@ == between(*from, *to),
    {
        let mut from_row = from.row as i8;
        let mut from_column = from.column as i8;
        let new_row = (to.row as i8) - (from.row as i8);
        let new_column = (to.column as i8) - (from.column as i8);
        let row_increment = self.get_increment(new_row);
        let column_increment = self.get_increment(new_column);
        let mut row_columns: Vec<RowColumn> = vec![];
        let ghost n = steps(*from, *to);
        let ghost mut k: int = 0;
        loop
            invariant_except_break
                k == 0 || k < n,
                row_columns@.len() == k,
            invariant
                from.row < 128,
                from.column < 128,
                to.row < 128,
                to.column < 128,
                aligned(*from, *to),
                n == steps(*from, *to),
                0 <= k,
                row_increment == sign(to.row - from.row),
                column_increment == sign(to.column - from.column),
                from_row == toward(from.row as int, to.row as int, k),
                from_column == toward(from.column as int, to.column as int, k),
                forall|i: int|
                    0 <= i < row_columns@.len() ==> row_columns@[i] == path_square(
                        *from,
                        *to,
                        i + 1,
                    ),
            ensures
                row_columns@ =~= between(*from, *to),
            decreases n - k,
        {
            from_row += row_increment;
            from_column += column_increment;
            proof {
                k = k + 1;
            }
            if from_row == to.row as i8 && from_column == to.column as i8 {
                proof {
                    if n > 0 && k < n {
                        assert(path_square(*from, *to, k) != *to);
                    }
                }
                break ;
            }
            let ghost before = row_columns@;
            row_columns.push(RowColumn::new(from_row as u8, from_column as u8));
            proof {
                assert(row_columns@ == before.push(path_square(*from, *to, k)));
            }
        }
        row_columns
    }
}

/// A rook that has not moved stands at the start of the rook's castling move `loc`, and
/// no piece stands on its way.
pub open spec fn rook_ready(g: Grid, loc: BaseLocation) -> bool {
    match piece_at(g, loc.from) {
        Some(Pieces::Rook(info)) => !info_moved(info) && path_clear(g, loc.from, loc.to),
        _ => false,
    }
}

/// The movement rules read no square off the board `g`: the start lies on the board,
/// the target too for a pawn, and for a king the look for a castling move stays on the
/// board (see `castling_defined`).
pub open spec fn movement_defined(p: Pieces, from: RowColumn, to: RowColumn, g: Grid) -> bool {
    &&& on_board(from)
    &&& (on_board(to) || match p {
        Pieces::Pawn(_) => false,
        Pieces::King(info) => castling_defined(info, from, to, g),
        _ => true,
    })
}

/// The answer to "may piece `p` move from `from` to `to` on the board `g`, the last move
/// made being `last`". A pawn takes diagonally when the target holds a piece, or, when
/// `has_piece_override` holds, as if it did.
pub open spec fn movement_spec(
    p: Pieces,
    from: RowColumn,
    to: RowColumn,
    g: Grid,
    last: Option<History>,
    has_piece_override: bool,
) -> ValidMovement {
    match p {
        Pieces::Pawn(info) => {
            let to_has_piece = has_piece_override || occupied(g, to);
            if pawn_valid(from, to, to_has_piece, info_color(info), info_moved(info)) {
                if to.row == 7 || to.row == 0 {
                    ValidMovement::Promotion
                } else {
                    ValidMovement::VALID
                }
            } else if en_passant_spec(from, to, info_color(info), last) {
                ValidMovement::EnPassant(last.unwrap().to)
            } else {
                ValidMovement::INVALID
            }
        },
        Pieces::Bishop(_) => if bishop_valid(from, to) && path_clear(g, from, to) {
            ValidMovement::VALID
        } else {
            ValidMovement::INVALID
        },
        Pieces::King(info) => match castling_spec(info, from, to, g) {
            Some(loc) => if rook_ready(g, loc) {
                ValidMovement::CASTLING(loc)
            } else if king_valid(from, to) {
                ValidMovement::VALID
            } else {
                ValidMovement::INVALID
            },
            None => if king_valid(from, to) {
                ValidMovement::VALID
            } else {
                ValidMovement::INVALID
            },
        },
        Pieces::Queen(_) => if queen_valid(from, to) && path_clear(g, from, to) {
            ValidMovement::VALID
        } else {
            ValidMovement::INVALID
        },
        Pieces::Rook(_) => if rook_valid(from, to) && path_clear(g, from, to) {
            ValidMovement::VALID
        } else {
            ValidMovement::INVALID
        },
        Pieces::Knight(_) => if knight_valid(from, to) {
            ValidMovement::VALID
        } else {
            ValidMovement::INVALID
        },
    }
}

impl Pieces {
    /// May the piece move from `from` to `to` on `board`, the last move made being
    /// `last_history`? (See `movement_spec`.)
    pub fn is_valid_movement(
        &self,
        from: &RowColumn,
        to: &RowColumn,
        board: &Board,
        last_history: Option<&History>,
    ) -> (r: ValidMovement)
        requires
            board.wf(),
            movement_defined(*self, *from, *to, board.grid()),
        ensures
            r == movement_spec(*self, *from, *to, board.grid(), opt_history(last_history), false),
    {
        self.is_valid_movement_has_piece_override(from, to, board, last_history, false)
    }

    /// As `is_valid_movement`, but a pawn takes diagonally onto `to` as if `to` held a
    /// piece when `has_piece_override` holds: the squares a pawn attacks.
    pub fn is_valid_movement_has_piece_override(
        &self,
        from: &RowColumn,
        to: &RowColumn,
        board: &Board,
        last_history: Option<&History>,
        has_piece_override: bool,
    ) -> (r: ValidMovement)
        requires
            board.wf(),
            movement_defined(*self, *from, *to, board.grid()),
        ensures
            r == movement_spec(
                *self,
                *from,
                *to,
                board.grid(),
                opt_history(last_history),
                has_piece_override,
            ),
    {
        let base_location = BaseLocation::new_row_column(from.clone(), to.clone());
        let ghost g = board.grid();
        proof {
            if on_board(*to) && aligned(*from, *to) {
                lemma_walk_aligned(g, *from, *to);
            }
        }
        let is_valid: bool = match self {
            Pieces::Pawn(pawn) => {
                let to_has_piece = if has_piece_override {
                    true
                } else {
                    proof {
                        assert(board.squares@[to.row as int]@ == g[to.row as int]);
                    }
                    board.squares[to.row as usize][to.column as usize].has_piece()
                };
                let validator = PawnValidator::new(
                    base_location,
                    to_has_piece,
                    &pawn.get_color(),
                    pawn.get_has_moved(),
                    last_history,
                );
                if validator.validate() {
                    if to.row == 7 || to.row == 0 {
                        return ValidMovement::Promotion;
                    }
                    true
                } else {
                    if validator.is_en_passant() {
                        return ValidMovement::EnPassant(last_history.unwrap().get_to().clone());
                    }
                    false
                }
            },
            Pieces::Bishop(_bishop) => {
                let validator = BishopValidator::new(base_location);
                validator.validate() && validator.can_move(&board)
            },
            Pieces::King(king_info) => {
                let validator = KingValidator::new(base_location, &king_info);
                if let Some(position_of_rook) = validator.is_castling(&board) {
                    let from_row = position_of_rook.from.row;
                    let from_column = position_of_rook.from.column;
                    proof {
                        assert(board.squares@[from_row as int]@ == g[from_row as int]);
                    }
                    let piece_type = board.squares[from_row as usize][from_column as usize].get_piece_type();
                    let piece_info = board.squares[from_row as usize][from_column as usize].get_piece_info();
                    if let (Some(piece_type), Some(piece_info)) = (piece_type, piece_info) {
                        if matches!(piece_type, PieceType::Rook) {
                            let validator = RookValidator::new(position_of_rook.clone());
                            proof {
                                lemma_walk_aligned(g, position_of_rook.from, position_of_rook.to);
                            }
                            if !piece_info.get_has_moved() && validator.can_move(&board) {
                                return ValidMovement::CASTLING(position_of_rook.clone());
                            }
                        }
                    }
                }
                validator.validate()
            },
            Pieces::Queen(_queen) => {
                let validator = QueenValidator::new(base_location);
                validator.validate() && validator.can_move(&board)
            },
            Pieces::Rook(_rook_info) => {
                let validator = RookValidator::new(base_location);
                validator.validate() && validator.can_move(&board)
            },
            Pieces::Knight(_knight) => KnightValidator::new(base_location).validate(),
        };
        if is_valid {
            ValidMovement::VALID
        } else {
            ValidMovement::INVALID
        }
    }
}

/// The same information for the other side.
pub open spec fn mirror_info(info: PieceInfo) -> PieceInfo {
    match info {
        PieceInfo::Default(p) => PieceInfo::Default(PieceProperty { color: opposite(p.color) }),
        PieceInfo::MovementInfo(p) => PieceInfo::MovementInfo(
            PieceMovedProperty { color: opposite(p.color), has_moved: p.has_moved },
        ),
    }
}

/// The same piece for the other side.
pub open spec fn mirror_piece(p: Pieces) -> Pieces {
    make_piece(piece_type(p), mirror_info(piece_info(p)))
}

/// A piece made of a kind and information has that kind and that information, and every
/// piece is made of its own kind and information.
pub proof fn lemma_make_piece(t: PieceType, info: PieceInfo, p: Pieces)
    ensures
        piece_type(make_piece(t, info)) == t,
        piece_info(make_piece(t, info)) == info,
        make_piece(piece_type(p), piece_info(p)) == p,
{
}

/// Marking a piece as moved keeps its kind and its side, marks pawns, kings and rooks
/// whose movement is tracked as moved, and changes nothing when done again.
pub proof fn lemma_moved_piece(p: Pieces)
    ensures
        piece_type(moved_piece(p)) == piece_type(p),
        piece_color(moved_piece(p)) == piece_color(p),
        moved_piece(moved_piece(p)) == moved_piece(p),
        (piece_type(p) == PieceType::Pawn || piece_type(p) == PieceType::King || piece_type(p)
            == PieceType::Rook) && piece_info(p) is MovementInfo ==> info_moved(
            piece_info(moved_piece(p)),
        ),
{
}

/// A move the rules accept ends on the board.
pub proof fn lemma_accepted_on_board(
    p: Pieces,
    from: RowColumn,
    to: RowColumn,
    g: Grid,
    last: Option<History>,
    has_piece_override: bool,
)
    requires
        movement_defined(p, from, to, g),
        !(movement_spec(p, from, to, g, last, has_piece_override) is INVALID),
    ensures
        on_board(to),
{
    if !on_board(to) {
        if let Pieces::King(info) = p {
            // a castling move off the board would pass an empty corner, where its rook
            // should stand
            let w1 = RowColumn {
                row: walk_row(from, to, 1) as u8,
                column: walk_column(from, to, 1) as u8,
            };
            reveal_with_fuel(walk_from, 3);
            if castling_spec(info, from, to, g) is Some {
                assert(from.row == to.row);
                let loc = castling_spec(info, from, to, g).unwrap();
                if s8(to.column) > s8(from.column) {
                    assert(loc.from == w1);
                }
            }
        }
    }
}

/// What the movement rules accept of each piece between two squares of the board, in
/// plain row and column differences: a rook moves along a row or a column, a bishop along
/// a diagonal, a queen along either, each with no piece on the squares between; a knight
/// jumps two squares one way and one the other; a king steps to a neighbouring square, or
/// castles two columns along its row before it has moved, with an unmoved rook standing
/// ready in the corner and no piece between; a pawn goes forward within its column (two
/// rows only before it has moved) or takes one column aside, reaching the last row only
/// to be promoted, and takes en passant only the pawn that the other side has just moved
/// straight along the neighbouring column.
pub proof fn lemma_accepted_shapes(
    p: Pieces,
    from: RowColumn,
    to: RowColumn,
    g: Grid,
    last: Option<History>,
    has_piece_override: bool,
)
    requires
        on_board(from),
        on_board(to),
    ensures
        ({
            let m = movement_spec(p, from, to, g, last, has_piece_override);
            let dr = to.row - from.row;
            let dc = to.column - from.column;
            &&& p is Rook && !(m is INVALID) ==> from != to && (dr == 0 || dc == 0) && path_clear(g, from, to)
            &&& p is Bishop && !(m is INVALID) ==> from != to && abs(dr) == abs(dc) && path_clear(g, from, to)
            &&& p is Queen && !(m is INVALID) ==> from != to && (dr == 0 || dc == 0 || abs(dr) == abs(dc))
                && path_clear(g, from, to)
            &&& p is Knight && !(m is INVALID) ==> (abs(dr) == 1 && abs(dc) == 2) || (abs(dr) == 2 && abs(dc) == 1)
            &&& p is King && m is VALID ==> from != to && abs(dr) <= 1 && abs(dc) <= 1
            &&& p is King && m is CASTLING ==> {
                &&& !info_moved(piece_info(p))
                &&& dr == 0
                &&& abs(dc) == 2
                &&& path_clear(g, from, to)
                &&& m->CASTLING_0.from == (RowColumn { row: from.row, column: if dc < 0 { 0 } else { 7 } })
                &&& m->CASTLING_0.to == (RowColumn { row: from.row, column: if dc < 0 { 3 } else { 5 } })
                &&& piece_at(g, m->CASTLING_0.from) matches Some(r) && r is Rook && !info_moved(piece_info(r))
                &&& path_clear(g, m->CASTLING_0.from, m->CASTLING_0.to)
            }
            &&& p is Pawn && (m is VALID || m is Promotion) ==> {
                &&& from != to
                &&& (m is Promotion <==> (to.row == 0 || to.row == 7))
                &&& if has_piece_override || occupied(g, to) {
                    abs(dc) == 1 && (dr == 1 || (piece_color(p) == Color::White && dr == -1))
                } else {
                    &&& dc == 0
                    &&& (piece_color(p) == Color::White ==> dr < 0)
                    &&& (piece_color(p) == Color::Black ==> dr > 0)
                    &&& abs(dr) <= (if info_moved(piece_info(p)) { 1int } else { 2int })
                }
            }
            &&& p is Pawn && m is EnPassant ==> {
                &&& last matches Some(h)
                &&& h.piece_type == PieceType::Pawn
                &&& h.color != piece_color(p)
                &&& h.from.column == h.to.column
                &&& m->EnPassant_0 == h.to
                &&& to.column == h.to.column
                &&& abs(from.column - h.to.column) == 1
                &&& abs(dr) == 1
                &&& (piece_color(p) == Color::White ==> dr < 0)
                &&& (piece_color(p) == Color::Black ==> dr > 0)
            }
            &&& !(p is Pawn) ==> !(m is EnPassant) && !(m is Promotion)
            &&& !(p is King) ==> !(m is CASTLING)
        }),
{
    if p is King && aligned(from, to) {
        lemma_walk_aligned(g, from, to);
    }
}

} // verus!
