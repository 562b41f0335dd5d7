//! The six kinds of chessmen.

use vstd::prelude::*;

use crate::types::EngineError;

verus! {

/// A piece kind, colour left aside.
#[derive(Copy, Clone, Debug, PartialEq, Eq, Structural, Hash)]
pub enum PieceType {
    Pawn,
    Knight,
    Bishop,
    Rook,
    Queen,
    King,
}

/// The letter that stands for a piece kind in FEN, White case.
pub open spec fn spec_piece_char(p: PieceType) -> char {
    match p {
        PieceType::Pawn => 'P',
        PieceType::Knight => 'N',
        PieceType::Bishop => 'B',
        PieceType::Rook => 'R',
        PieceType::Queen => 'Q',
        PieceType::King => 'K',
    }
}

/// The piece kind a FEN letter stands for, either case; None for any other
/// character.
pub open spec fn spec_piece_of_char(c: char) -> Option<PieceType> {
    if c == 'P' || c == 'p' {
        Some(PieceType::Pawn)
    } else if c == 'N' || c == 'n' {
        Some(PieceType::Knight)
    } else if c == 'B' || c == 'b' {
        Some(PieceType::Bishop)
    } else if c == 'R' || c == 'r' {
        Some(PieceType::Rook)
    } else if c == 'Q' || c == 'q' {
        Some(PieceType::Queen)
    } else if c == 'K' || c == 'k' {
        Some(PieceType::King)
    } else {
        None
    }
}

impl PieceType {
    /// Ordinal of the piece kind, in the order of the declaration.
    pub open spec fn spec_idx(self) -> u64 {
        match self {
            PieceType::Pawn => 0,
            PieceType::Knight => 1,
            PieceType::Bishop => 2,
            PieceType::Rook => 3,
            PieceType::Queen => 4,
            PieceType::King => 5,
        }
    }

    /// Ordinal of the piece kind, for indexing per-kind tables.
    pub fn idx(self) -> (r: u64)
        ensures
            r == self.spec_idx(),
    {
        match self {
            PieceType::Pawn => 0,
            PieceType::Knight => 1,
            PieceType::Bishop => 2,
            PieceType::Rook => 3,
            PieceType::Queen => 4,
            PieceType::King => 5,
        }
    }

    /// The piece kind's ordinal as a signed number.
    pub fn to_piece(&self) -> (r: i32)
        ensures
            r == self.spec_idx() as i32,
    {
        match self {
            PieceType::Pawn => 0,
            PieceType::Knight => 1,
            PieceType::Bishop => 2,
            PieceType::Rook => 3,
            PieceType::Queen => 4,
            PieceType::King => 5,
        }
    }

    /// Upper-case FEN letter of the piece kind.
    pub fn to_char(self) -> (r: char)
        ensures
            r == spec_piece_char(self),
    {
        match self {
            Self::Pawn => 'P',
            Self::Knight => 'N',
            Self::Bishop => 'B',
            Self::Rook => 'R',
            Self::Queen => 'Q',
            Self::King => 'K',
        }
    }

    /// Reads a FEN piece letter of either case; any other character is an
    /// input error.
    pub fn from_char(c: char) -> (r: Result<Self, EngineError>)
        ensures
            r matches Ok(p) ==> spec_piece_of_char(c) == Some(p),
            r is Err <==> spec_piece_of_char(c) is None,
    {
        if c == 'P' || c == 'p' {
            Ok(Self::Pawn)
        } else if c == 'N' || c == 'n' {
            Ok(Self::Knight)
        } else if c == 'B' || c == 'b' {
            Ok(Self::Bishop)
        } else if c == 'R' || c == 'r' {
            Ok(Self::Rook)
        } else if c == 'Q' || c == 'q' {
            Ok(Self::Queen)
        } else if c == 'K' || c == 'k' {
            Ok(Self::King)
        } else {
            Err(EngineError::new("unexpected piece character"))
        }
    }
}

} // verus!
