//! Bitboards: 64-bit square sets, their iteration, and the masked
//! one-step shifts the move generator is built on.

use vstd::prelude::*;

use crate::bits::{bit, low_bit, lemma_clear_lowest, lemma_low_bit};
use crate::types::chess_move::{extracted_moves, Move, MoveType};
use crate::types::square::SquareIndex;
use crate::types::{EAST, FILEA, FILEH, NORTH, SOUTH, WEST};

verus! {

/// A set of squares: bit `i` stands for square `i`.
pub type BB = u64;

/// Walking the set squares of a bitboard, lowest square first.
pub trait PieceItr {
    /// The bitboard the implementing value stands for.
    spec fn bb_val(&self) -> u64;

    /// An iterator over the set squares.
    fn iter(&self) -> (r: BBIterator)
        ensures
            r.bb == self.bb_val(),
    ;
}

impl PieceItr for BB {
    open spec fn bb_val(&self) -> u64 {
        *self
    }

    fn iter(&self) -> (r: BBIterator) {
        BBIterator { bb: *self }
    }
}

/// Yields each set square of a bitboard in ascending order, with its
/// one-bit mask.
pub struct BBIterator {
    pub bb: BB,
}

impl BBIterator {
    /// The lowest remaining square and its mask; None once the board is
    /// exhausted.
    pub fn next(&mut self) -> (r: Option<(SquareIndex, BB)>)
        ensures
            old(self).bb == 0 ==> r is None && final(self).bb == 0,
            old(self).bb != 0 ==> {
                let sq = low_bit(old(self).bb);
                r == Some((sq, 1u64 << sq)) && sq < 64 && bit(old(self).bb, sq) && final(self).bb
                    == old(self).bb & ((old(self).bb - 1) as u64)
            },
    {
        if self.bb == 0 {
            return None;
        }
        proof {
            lemma_low_bit(self.bb);
            lemma_clear_lowest(self.bb);
        }
        let square: u64 = self.bb.trailing_zeros() as u64;
        self.bb = self.bb & (self.bb - 1);
        Some((square, 1u64 << square))
    }
}

/// Left shift that discards overlong shifts instead of overflowing.
pub fn shift_left(n: u64, i: u8) -> (r: BB)
    ensures
        r == spec_shift_left(n, i),
{
    if i >= 64 {
        0
    } else {
        n << i
    }
}

/// Right shift that discards overlong shifts instead of overflowing.
pub fn shift_right(n: u64, i: u8) -> (r: BB)
    ensures
        r == spec_shift_right(n, i),
{
    if i >= 64 {
        0
    } else {
        n >> i
    }
}

/// Left shift with overlong shifts giving the empty board.
pub open spec fn spec_shift_left(n: u64, i: u8) -> u64 {
    if i >= 64 {
        0
    } else {
        n << i
    }
}

/// Right shift with overlong shifts giving the empty board.
pub open spec fn spec_shift_right(n: u64, i: u8) -> u64 {
    if i >= 64 {
        0
    } else {
        n >> i
    }
}

/// Moves every set square one step in a compass direction, dropping
/// squares that would leave the board; see `Shift::shift` for the
/// direction encoding.
pub open spec fn spec_shift(b: u64, n: i8) -> u64 {
    if n == NORTH {
        b << 8
    } else if n == SOUTH {
        b >> 8
    } else if n == NORTH + NORTH {
        b << 16
    } else if n == SOUTH + SOUTH {
        b >> 16
    } else if n == EAST {
        (b & !FILEH) << 1
    } else if n == WEST {
        (b & !FILEA) >> 1
    } else if n == NORTH + EAST {
        (b & !FILEH) << 9
    } else if n == NORTH + WEST {
        (b & !FILEA) << 7
    } else if n == SOUTH + EAST {
        (b & !FILEH) >> 7
    } else if n == SOUTH + WEST {
        (b & !FILEA) >> 9
    } else if n > 0 {
        spec_shift_left(b, n as u8)
    } else {
        spec_shift_right(b, (-(n as int)) as u8)
    }
}

/// One-step translation of a whole square set.
pub trait Shift {
    /// The bitboard the implementing value stands for.
    spec fn sh_val(&self) -> u64;

    /// Shifts every set square one step in direction `n`: +-8 for north
    /// and south, +-1 for east and west (masked so nothing wraps around
    /// the board edge), their sums for the diagonals, and +-16 for the
    /// double pawn push.
    fn shift(&self, n: i8) -> (r: BB)
        ensures
            r == spec_shift(self.sh_val(), n),
    ;
}

impl Shift for BB {
    open spec fn sh_val(&self) -> u64 {
        *self
    }

    fn shift(&self, n: i8) -> (r: BB) {
        if n == NORTH {
            *self << 8u64
        } else if n == SOUTH {
            *self >> 8u64
        } else if n == NORTH + NORTH {
            *self << 16u64
        } else if n == SOUTH + SOUTH {
            *self >> 16u64
        } else if n == EAST {
            (*self & !FILEH) << 1u64
        } else if n == WEST {
            (*self & !FILEA) >> 1u64
        } else if n == NORTH + EAST {
            (*self & !FILEH) << 9u64
        } else if n == NORTH + WEST {
            (*self & !FILEA) << 7u64
        } else if n == SOUTH + EAST {
            (*self & !FILEH) >> 7u64
        } else if n == SOUTH + WEST {
            (*self & !FILEA) >> 9u64
        } else if n > 0 {
            shift_left(*self, n as u8)
        } else {
            shift_right(*self, (-(n as i32)) as u8)
        }
    }
}

/// Square-set operations every bitboard offers.
pub trait BBMethods: Sized + Copy {
    /// The bitboard the implementing value stands for.
    spec fn mval(&self) -> u64;

    /// Whether the square's bit is set.
    fn has(self, square: SquareIndex) -> (r: bool)
        requires
            square < 64,
        ensures
            r == bit(self.mval(), square),
    ;

    /// Whether no square is set.
    fn is_empty(self) -> (r: bool)
        ensures
            r == (self.mval() == 0),
    ;

    /// Flips the square's bit; the caller keeps track of whether it was
    /// set.
    fn clear_at(&mut self, index: usize)
        requires
            index < 64,
        ensures
            final(self).mval() == old(self).mval() ^ (1u64 << (index as u64)),
    ;

    /// Drains the board into one move per set square, lowest square
    /// first, all with the given source square and kind.
    fn extract_moves(&mut self, original: SquareIndex, kind: MoveType) -> (r: Vec<Move>)
        ensures
            r@ == extracted_moves(original, old(self).mval(), kind),
            final(self).mval() == 0,
    ;

    /// Sets the square's bit.
    fn add_at(&mut self, square: SquareIndex)
        requires
            square < 64,
        ensures
            final(self).mval() == old(self).mval() | (1u64 << square),
    ;

    /// Unions the other board into this one.
    fn merge(&mut self, other: BB)
        ensures
            final(self).mval() == old(self).mval() | other,
    ;
}

impl BBMethods for BB {
    open spec fn mval(&self) -> u64 {
        *self
    }

    fn has(self, square: SquareIndex) -> (r: bool) {
        (self & (1u64 << square)) != 0
    }

    fn is_empty(self) -> (r: bool) {
        self == 0
    }

    fn clear_at(&mut self, index: usize) {
        *self = *self ^ (1u64 << (index as u64));
    }

    fn extract_moves(&mut self, original: SquareIndex, kind: MoveType) -> (r: Vec<Move>) {
        let mut moves: Vec<Move> = Vec::new();
        let ghost full: u64 = *self;
        while *self != 0
            invariant
                extracted_moves(original, full, kind) == moves@ + extracted_moves(
                    original,
                    *self,
                    kind,
                ),
            decreases *self,
        {
            proof {
                lemma_low_bit(*self);
                lemma_clear_lowest(*self);
            }
            let move_index: u64 = self.trailing_zeros() as u64;
            moves.push(Move { from: original, to: move_index, kind });
            *self = *self & (*self - 1);
            proof {
                assert(extracted_moves(original, full, kind) == moves@ + extracted_moves(
                    original,
                    *self,
                    kind,
                ));
            }
        }
        proof {
            assert(moves@ =~= moves@ + extracted_moves(original, *self, kind));
        }
        moves
    }

    fn add_at(&mut self, square: SquareIndex) {
        *self = *self | (1u64 << square);
    }

    fn merge(&mut self, other: BB) {
        *self = *self | other;
    }
}

/// Conversion of a square-like value into its bitboard.
pub trait ToBitboard {
    /// Whether the value lies on the board.
    spec fn tb_wf(&self) -> bool;

    /// The bitboard the value denotes.
    spec fn spec_to_bitboard(&self) -> BB;

    /// The value's bitboard.
    fn to_bitboard(&self) -> (r: BB)
        requires
            self.tb_wf(),
        ensures
            r == self.spec_to_bitboard(),
    ;
}

} // verus!
