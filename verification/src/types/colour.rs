//! The two sides of the game.

use vstd::prelude::*;

verus! {

/// A side: White moves first.
#[derive(Clone, Copy, PartialEq, Eq, Structural, Debug, Hash)]
pub enum Colour {
    White,
    Black,
}

impl Colour {
    /// Ordinal of the colour: White is 0, Black is 1.
    pub open spec fn spec_idx(self) -> u64 {
        match self {
            Colour::White => 0,
            Colour::Black => 1,
        }
    }

    /// Ordinal of the colour, for indexing per-side tables.
    pub fn idx(self) -> (r: u64)
        ensures
            r == self.spec_idx(),
    {
        match self {
            Colour::White => 0,
            Colour::Black => 1,
        }
    }

    /// The other side.
    pub open spec fn spec_opposite(self) -> Colour {
        match self {
            Colour::White => Colour::Black,
            Colour::Black => Colour::White,
        }
    }

    /// Negation: flips to the opponent.
    pub fn opposite(self) -> (r: Colour)
        ensures
            r == self.spec_opposite(),
    {
        match self {
            Colour::White => Colour::Black,
            Colour::Black => Colour::White,
        }
    }
}

impl Default for Colour {
    /// White moves first.
    fn default() -> (r: Self)
        ensures
            r == Colour::White,
    {
        Colour::White
    }
}

} // verus!
