//! Precomputed attack tables: knight and king patterns, empty-board
//! slider influence, and the line-through-two-squares table used by the
//! legality filter.

use vstd::prelude::*;

use crate::attacks::{
    get_slider_moves, king_destinations, knight_destinations, spec_bishop_attacks,
    spec_king_attacks, spec_knight_attacks, spec_rook_attacks, spec_slider_attacks,
};
use crate::bits::bit;
use crate::types::bitboard::BB;
use crate::types::piece_type::PieceType;
use crate::types::square::SquareIndex;

verus! {

/// The whole line through two squares that share a rank, file or
/// diagonal — both endpoints included — and the empty board otherwise.
pub open spec fn spec_between(s1: u64, s2: u64) -> u64 {
    if bit(spec_rook_attacks(0, s1), s2) {
        (spec_rook_attacks(0, s1) & spec_rook_attacks(0, s2)) | (1u64 << s1) | (1u64 << s2)
    } else if bit(spec_bishop_attacks(0, s1), s2) {
        (spec_bishop_attacks(0, s1) & spec_bishop_attacks(0, s2)) | (1u64 << s1) | (1u64 << s2)
    } else {
        0
    }
}

/// The shared line cut down to the span between the two squares, both
/// endpoints included: the index mask `(!0 << s1) ^ (!0 << s2)` keeps
/// the square numbers between the endpoints.
pub open spec fn spec_ray_between(s1: u64, s2: u64) -> u64 {
    spec_between(s1, s2) & ((!0u64 << s1) ^ (!0u64 << s2)) | (1u64 << s1) | (1u64 << s2)
}

/// Slider attacks by piece kind; pieces that do not slide attack
/// nothing here.
pub open spec fn spec_sliding_moves(square: u64, blockers: u64, piece: PieceType) -> u64 {
    match piece {
        PieceType::Bishop => spec_bishop_attacks(blockers, square),
        PieceType::Rook => spec_rook_attacks(blockers, square),
        PieceType::Queen => spec_rook_attacks(blockers, square) | spec_bishop_attacks(
            blockers,
            square,
        ),
        _ => 0,
    }
}

/// Fixed-pattern moves by piece kind: knight and king patterns, the
/// queen's empty-board influence, and nothing for the rest.
pub open spec fn spec_piece_moves(square: u64, piece: PieceType) -> u64 {
    match piece {
        PieceType::Knight => spec_knight_attacks(square),
        PieceType::King => spec_king_attacks(square),
        PieceType::Queen => spec_sliding_moves(square, 0, PieceType::Queen),
        _ => 0,
    }
}

/// The read-only lookup tables, built once at start-up.
pub struct Lookup {
    knight_table: Vec<BB>,
    king_table: Vec<BB>,
    ortho_influence: Vec<BB>,
    diag_influence: Vec<BB>,
    between: Vec<Vec<BB>>,
}

impl Lookup {
    /// The tables hold exactly the attack sets they stand for.
    pub closed spec fn wf(&self) -> bool {
        &&& self.knight_table@.len() == 64
        &&& forall|i: int|
            0 <= i < 64 ==> #[trigger] self.knight_table@[i] == spec_knight_attacks(i as u64)
        &&& self.king_table@.len() == 64
        &&& forall|i: int|
            0 <= i < 64 ==> #[trigger] self.king_table@[i] == spec_king_attacks(i as u64)
        &&& self.ortho_influence@.len() == 64
        &&& forall|i: int|
            0 <= i < 64 ==> #[trigger] self.ortho_influence@[i] == spec_rook_attacks(0, i as u64)
        &&& self.diag_influence@.len() == 64
        &&& forall|i: int|
            0 <= i < 64 ==> #[trigger] self.diag_influence@[i] == spec_bishop_attacks(0, i as u64)
        &&& self.between@.len() == 64
        &&& forall|i: int| 0 <= i < 64 ==> #[trigger] self.between@[i]@.len() == 64
        &&& forall|i: int, j: int|
            0 <= i < 64 && 0 <= j < 64 ==> #[trigger] self.between@[i]@[j] == spec_between(
                i as u64,
                j as u64,
            )
    }

    /// Attacks of a sliding piece from a square over the blockers.
    pub fn sliding_moves(&self, square: SquareIndex, blockers: BB, piece: PieceType) -> (r: BB)
        requires
            square < 64,
        ensures
            r == spec_sliding_moves(square, blockers, piece),
    {
        match piece {
            PieceType::Bishop => get_slider_moves(square, blockers, false),
            PieceType::Rook => get_slider_moves(square, blockers, true),
            PieceType::Queen => get_slider_moves(square, blockers, true) | get_slider_moves(
                square,
                blockers,
                false,
            ),
            _ => 0,
        }
    }

    /// Fixed-pattern moves of a piece from a square.
    pub fn moves(&self, square: SquareIndex, piece: PieceType) -> (r: BB)
        requires
            self.wf(),
            square < 64,
        ensures
            r == spec_piece_moves(square, piece),
    {
        match piece {
            PieceType::Knight => self.knight_table[square as usize],
            PieceType::King => self.king_table[square as usize],
            PieceType::Queen => self.sliding_moves(square, 0, PieceType::Queen),
            _ => 0,
        }
    }

    /// The span of the shared line strictly between two squares, with
    /// both endpoints added back.
    pub fn ray_between(&self, s1: SquareIndex, s2: SquareIndex) -> (r: BB)
        requires
            self.wf(),
            s1 < 64,
            s2 < 64,
        ensures
            r == spec_ray_between(s1, s2),
    {
        let full: BB = !0u64;
        let bb1: BB = 1u64 << s1;
        let bb2: BB = 1u64 << s2;
        self.between(s1, s2) & ((full << s1) ^ (full << s2)) | bb1 | bb2
    }

    /// The whole line through two colinear squares; empty otherwise.
    pub fn between(&self, s1: SquareIndex, s2: SquareIndex) -> (r: BB)
        requires
            self.wf(),
            s1 < 64,
            s2 < 64,
        ensures
            r == spec_between(s1, s2),
    {
        self.between[s1 as usize][s2 as usize]
    }

    /// A slider's influence from a square on the empty board.
    pub fn piece_influence(&self, ortho: bool, square: SquareIndex) -> (r: BB)
        requires
            self.wf(),
            square < 64,
        ensures
            r == spec_slider_attacks(0, square, ortho),
    {
        if ortho {
            self.ortho_influence[square as usize]
        } else {
            self.diag_influence[square as usize]
        }
    }
}

impl Default for Lookup {
    /// Builds every table from the attack definitions.
    fn default() -> (r: Self)
        ensures
            r.wf(),
    {
        let mut knight_table: Vec<BB> = Vec::new();
        let mut king_table: Vec<BB> = Vec::new();
        let mut ortho_influence: Vec<BB> = Vec::new();
        let mut diag_influence: Vec<BB> = Vec::new();
        let mut i: usize = 0;
        while i < 64
            invariant
                i <= 64,
                knight_table@.len() == i,
                forall|k: int| 0 <= k < i ==> #[trigger] knight_table@[k] == spec_knight_attacks(k as u64),
                king_table@.len() == i,
                forall|k: int| 0 <= k < i ==> #[trigger] king_table@[k] == spec_king_attacks(k as u64),
                ortho_influence@.len() == i,
                forall|k: int|
                    0 <= k < i ==> #[trigger] ortho_influence@[k] == spec_rook_attacks(0, k as u64),
                diag_influence@.len() == i,
                forall|k: int|
                    0 <= k < i ==> #[trigger] diag_influence@[k] == spec_bishop_attacks(0, k as u64),
            decreases 64 - i,
        {
            knight_table.push(knight_destinations(i as u64));
            king_table.push(king_destinations(i as u64));
            ortho_influence.push(get_slider_moves(i as u64, 0, true));
            diag_influence.push(get_slider_moves(i as u64, 0, false));
            i = i + 1;
        }
        let between = Self::init_between();
        Lookup { knight_table, king_table, ortho_influence, diag_influence, between }
    }
}

impl Lookup {
    /// Builds the line table: for every colinear pair the whole shared
    /// line, endpoints included.
    fn init_between() -> (r: Vec<Vec<BB>>)
        ensures
            r@.len() == 64,
            forall|i: int| 0 <= i < 64 ==> #[trigger] r@[i]@.len() == 64,
            forall|i: int, j: int|
                0 <= i < 64 && 0 <= j < 64 ==> #[trigger] r@[i]@[j] == spec_between(
                    i as u64,
                    j as u64,
                ),
    {
        let mut table: Vec<Vec<BB>> = Vec::new();
        let mut i: usize = 0;
        while i < 64
            invariant
                i <= 64,
                table@.len() == i,
                forall|k: int| 0 <= k < i ==> #[trigger] table@[k]@.len() == 64,
                forall|k: int, j: int|
                    0 <= k < i && 0 <= j < 64 ==> #[trigger] table@[k]@[j] == spec_between(
                        k as u64,
                        j as u64,
                    ),
            decreases 64 - i,
        {
            let mut row: Vec<BB> = Vec::new();
            let rook_i = get_slider_moves(i as u64, 0, true);
            let bishop_i = get_slider_moves(i as u64, 0, false);
            let bb_i: u64 = 1u64 << (i as u64);
            let mut j: usize = 0;
            while j < 64
                invariant
                    i < 64,
                    j <= 64,
                    row@.len() == j,
                    rook_i == spec_rook_attacks(0, i as u64),
                    bishop_i == spec_bishop_attacks(0, i as u64),
                    bb_i == 1u64 << (i as u64),
                    forall|k: int|
                        0 <= k < j ==> #[trigger] row@[k] == spec_between(i as u64, k as u64),
                decreases 64 - j,
            {
                let bb_j: u64 = 1u64 << (j as u64);
                let entry: u64 = if rook_i & bb_j != 0 {
                    (rook_i & get_slider_moves(j as u64, 0, true)) | bb_i | bb_j
                } else if bishop_i & bb_j != 0 {
                    (bishop_i & get_slider_moves(j as u64, 0, false)) | bb_i | bb_j
                } else {
                    0
                };
                row.push(entry);
                j = j + 1;
            }
            table.push(row);
            i = i + 1;
        }
        table
    }
}

} // verus!
