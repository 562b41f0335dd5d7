//! A piece: a kind ordinal paired with its colour.

use vstd::prelude::*;

use crate::types::colour::Colour;
use crate::types::piece_type::{spec_piece_char, PieceType};
use crate::types::EngineError;

verus! {

/// A piece as stored outside the bitboards: the kind's ordinal (0 pawn to
/// 5 king) and the colour.
#[derive(Clone, Copy, PartialEq, Eq, Structural, Debug, Hash)]
pub struct Piece(pub i32, pub Colour);

/// The FEN letter of a piece: upper case for White, lower case for Black.
pub open spec fn spec_piece_fen_char(p: PieceType, c: Colour) -> char {
    if c == Colour::White {
        spec_piece_char(p)
    } else {
        match p {
            PieceType::Pawn => 'p',
            PieceType::Knight => 'n',
            PieceType::Bishop => 'b',
            PieceType::Rook => 'r',
            PieceType::Queen => 'q',
            PieceType::King => 'k',
        }
    }
}

impl Piece {
    /// Packs a kind and a colour into a piece.
    pub fn from_tuple(piece: PieceType, colour: Colour) -> (r: Self)
        ensures
            r.0 == piece.spec_idx() as i32,
            r.1 == colour,
    {
        Self(piece.to_piece(), colour)
    }

    /// The kind the ordinal stands for; an out-of-range ordinal is an
    /// invariant violation.
    pub fn piece_type(&self) -> (r: Result<PieceType, EngineError>)
        ensures
            r matches Ok(p) ==> p.spec_idx() as i32 == self.0,
            r is Err <==> !(0 <= self.0 < 6),
    {
        if self.0 == 0 {
            Ok(PieceType::Pawn)
        } else if self.0 == 1 {
            Ok(PieceType::Knight)
        } else if self.0 == 2 {
            Ok(PieceType::Bishop)
        } else if self.0 == 3 {
            Ok(PieceType::Rook)
        } else if self.0 == 4 {
            Ok(PieceType::Queen)
        } else if self.0 == 5 {
            Ok(PieceType::King)
        } else {
            Err(EngineError::new("unknown piece ordinal"))
        }
    }
}

} // verus!
