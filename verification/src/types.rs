//! Shared engine types: compass directions, rank and file masks, and the
//! error type that every fallible engine operation reports.

use vstd::prelude::*;

pub mod bitboard;
pub mod board_state;
pub mod chess_move;
pub mod colour;
pub mod piece;
pub mod piece_type;
pub mod position;
pub mod square;

verus! {

/// One step toward rank 8, as a square-index offset.
pub const NORTH: i8 = 8;

/// One step toward rank 1.
pub const SOUTH: i8 = -8;

/// One step toward file h.
pub const EAST: i8 = 1;

/// One step toward file a.
pub const WEST: i8 = -1;

pub const RANK1: u64 = 0xFF;

pub const RANK2: u64 = 0xFF00;

pub const RANK3: u64 = 0xFF_0000;

pub const RANK4: u64 = 0xFF00_0000;

pub const RANK5: u64 = 0xFF_0000_0000;

pub const RANK6: u64 = 0xFF00_0000_0000;

pub const RANK7: u64 = 0xFF_0000_0000_0000;

pub const RANK8: u64 = 0xFF00_0000_0000_0000;

pub const FILEA: u64 = 0x0101_0101_0101_0101;

pub const FILEB: u64 = 0x0202_0202_0202_0202;

pub const FILEG: u64 = 0x4040_4040_4040_4040;

pub const FILEH: u64 = 0x8080_8080_8080_8080;

/// An error raised by the engine: either malformed input text or a broken
/// internal invariant, with a short description.
#[derive(Debug)]
pub struct EngineError {
    pub message: String,
}

impl EngineError {
    /// Wraps a description into an engine error.
    pub fn new(message: &str) -> (r: EngineError)
        ensures
            r.message@ == message@,
    {
        EngineError { message: String::from_str(message) }
    }

    /// The error's description.
    pub fn text(&self) -> (r: &str)
        ensures
            r@ == self.message@,
    {
        self.message.as_str()
    }
}

} // verus!
