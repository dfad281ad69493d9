//! The two sides of the game.
use vstd::prelude::*;

verus! {

/// A side of the game.
#[derive(Clone, Copy, Eq, PartialEq, Debug, Structural)]
pub enum Color {
    White,
    Black,
}

/// The letter that names a side: `W` or `B`.
pub open spec fn color_letter(c: Color) -> Seq<char> {
    match c {
        Color::White => seq!['W'],
        Color::Black => seq!['B'],
    }
}

/// The other side.
pub open spec fn opposite(c: Color) -> Color {
    match c {
        Color::White => Color::Black,
        Color::Black => Color::White,
    }
}

impl Color {
    /// The letter that names this side, as a string.
    pub fn get_color(&self) -> (s: String)
        ensures
            s@ == color_letter(*self),
    {
        match self {
            Color::White => {
                let s = String::from_str("W");
                proof {
                    reveal_strlit("W");
                }
                s
            },
            Color::Black => {
                let s = String::from_str("B");
                proof {
                    reveal_strlit("B");
                }
                s
            },
        }
    }
}

/// The other side of the other side is the side itself, and never the side itself.
pub proof fn lemma_opposite(c: Color)
    ensures
        opposite(opposite(c)) == c,
        opposite(c) != c,
{
}

} // verus!
