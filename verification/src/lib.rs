//! A chess engine core: bitboard position representation, FEN codec,
//! legal move generation, and a small negamax search, with machine-checked
//! contracts throughout.

pub mod attacks;
pub mod bits;
pub mod fen;
pub mod movegen;
pub mod search;
pub mod types;
