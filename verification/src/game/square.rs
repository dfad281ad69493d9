//! A square of the board: light or dark, and the piece standing on it, if any.
use vstd::prelude::*;

use crate::pieces::color::Color;
use crate::pieces::piece::{PieceInfo, PieceType, Pieces, piece_color, piece_info, piece_name, piece_type};

verus! {

/// A light (`White`) or dark (`Black`) square, with the piece on it.
#[derive(Clone, Copy, PartialEq, Eq, Debug, Structural)]
pub enum Square {
    White(Option<Pieces>),
    Black(Option<Pieces>),
}

/// The piece standing on a square.
pub open spec fn square_piece(s: Square) -> Option<Pieces> {
    match s {
        Square::White(p) => p,
        Square::Black(p) => p,
    }
}

/// The square with its piece replaced; a square keeps its own shade.
pub open spec fn with_piece(s: Square, p: Option<Pieces>) -> Square {
    match s {
        Square::White(_) => Square::White(p),
        Square::Black(_) => Square::Black(p),
    }
}

/// The square is a dark one.
pub open spec fn is_dark(s: Square) -> bool {
    s is Black
}

/// What a square shows when printed: the name of its piece, or two blanks on a light
/// square and `##` on a dark one.
pub open spec fn square_text(s: Square) -> Seq<char> {
    match square_piece(s) {
        Some(p) => piece_name(p),
        None => if is_dark(s) {
            seq!['#', '#']
        } else {
            seq![' ', ' ']
        },
    }
}

impl Square {
    pub fn has_piece(&self) -> (r: bool)
        ensures
            r == square_piece(*self) is Some,
    {
        match self {
            Square::White(piece) => match piece {
                None => false,
                Some(_) => true,
            },
            Square::Black(piece) => match piece {
                None => false,
                Some(_) => true,
            },
        }
    }

    pub fn get_piece_type(&self) -> (r: Option<PieceType>)
        ensures
            r == (match square_piece(*self) {
                Some(p) => Some(piece_type(p)),
                None => None,
            }),
    {
        match self {
            Square::White(piece) => match piece {
                None => None,
                Some(piece) => Some(piece.get_piece_type().clone()),
            },
            Square::Black(piece) => match piece {
                None => None,
                Some(piece) => Some(piece.get_piece_type().clone()),
            },
        }
    }

    pub fn get_piece_info(&self) -> (r: Option<PieceInfo>)
        ensures
            r == (match square_piece(*self) {
                Some(p) => Some(piece_info(p)),
                None => None,
            }),
    {
        match self {
            Square::White(piece) => match piece {
                None => None,
                Some(piece) => Some(piece.get_piece_info_clone()),
            },
            Square::Black(piece) => match piece {
                None => None,
                Some(piece) => Some(piece.get_piece_info_clone()),
            },
        }
    }

    /// The text the board shows for this square.
    pub fn print(&self) -> (r: String)
        ensures
            r@ == square_text(*self),
    {
        match self {
            Square::White(piece) => match piece {
                None => {
                    let s = String::from_str("  ");
                    proof {
                        reveal_strlit("  ");
                    }
                    s
                },
                Some(p) => p.get_name(),
            },
            Square::Black(piece) => match piece {
                None => {
                    let s = String::from_str("##");
                    proof {
                        reveal_strlit("##");
                    }
                    s
                },
                Some(p) => p.get_name(),
            },
        }
    }

    pub fn get_piece(&self) -> (r: &Option<Pieces>)
        ensures
            *r == square_piece(*self),
    {
        match self {
            Square::White(piece) => piece,
            Square::Black(piece) => piece,
        }
    }

    pub fn get_color_of_piece(&self) -> (r: Option<Color>)
        ensures
            r == (match square_piece(*self) {
                Some(p) => Some(piece_color(p)),
                None => None,
            }),
    {
        match self {
            Square::White(Some(piece)) => Some(piece.get_color().clone()),
            Square::Black(Some(piece)) => Some(piece.get_color().clone()),
            _ => None,
        }
    }

    /// Takes the piece off the square, leaving it empty.
    pub fn get_actual_piece(&mut self) -> (r: Option<Pieces>)
        ensures
            r == square_piece(*old(self)),
            *final(self) == with_piece(*old(self), None),
    {
        match self {
            Square::White(ref mut piece) => piece.take(),
            Square::Black(ref mut piece) => piece.take(),
        }
    }

    #[allow(dead_code)]
    fn get_piece_reference(&self) -> (r: Option<&Pieces>)
        ensures
            r == (match square_piece(*self) {
                Some(p) => Some(&p),
                None => None,
            }),
    {
        match self {
            Square::White(Some(piece)) => Some(piece),
            Square::Black(Some(piece)) => Some(piece),
            _ => None,
        }
    }

    /// Puts a piece on the square, replacing whatever stood there.
    pub fn set_piece(&mut self, new_piece: Pieces)
        ensures
            *final(self) == with_piece(*old(self), Some(new_piece)),
    {
        match self {
            Square::White(piece) => *piece = Some(new_piece),
            Square::Black(piece) => *piece = Some(new_piece),
        }
    }

    /// Empties the square.
    pub fn remove_piece(&mut self)
        ensures
            *final(self) == with_piece(*old(self), None),
    {
        match self {
            Square::White(piece) => *piece = None,
            Square::Black(piece) => *piece = None,
        }
    }
}

} // verus!
