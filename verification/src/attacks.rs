//! Attack sets: sliding-piece rays walked square by square over the
//! occupancy, and the fixed knight and king attack patterns.

use vstd::prelude::*;

use crate::bits::{bit, lemma_or_zero};
use crate::types::bitboard::{spec_shift_left, spec_shift_right, BB};
use crate::types::square::SquareIndex;
use crate::types::{FILEA, FILEB, FILEG, FILEH};

verus! {

/// Whether a file-and-rank pair lies on the board.
pub open spec fn on_board(f: int, r: int) -> bool {
    0 <= f < 8 && 0 <= r < 8
}

/// The square number of a file-and-rank pair.
pub open spec fn sq_of(f: int, r: int) -> u64 {
    (r * 8 + f) as u64
}

/// How many steps remain to the board edge along a direction.
pub open spec fn ray_room(f: int, r: int, df: int, dr: int) -> int {
    (if df > 0 {
        7 - f
    } else if df < 0 {
        f
    } else {
        0
    }) + (if dr > 0 {
        7 - r
    } else if dr < 0 {
        r
    } else {
        0
    })
}

/// The squares a slider on `(f, r)` attacks along direction
/// `(df, dr)`: every square walked until the first occupied square,
/// which is included, or the board edge.
pub open spec fn ray_attacks(occ: u64, f: int, r: int, df: int, dr: int) -> u64
    decreases ray_room(f, r, df, dr),
        when on_board(f, r) && (df != 0 || dr != 0) && -1 <= df <= 1 && -1 <= dr <= 1
{
    if !on_board(f + df, r + dr) {
        0
    } else {
        let s = sq_of(f + df, r + dr);
        if bit(occ, s) {
            1u64 << s
        } else {
            (1u64 << s) | ray_attacks(occ, f + df, r + dr, df, dr)
        }
    }
}

/// Rook attacks from a square: the four orthogonal rays.
pub open spec fn spec_rook_attacks(occ: u64, s: u64) -> u64 {
    let f = (s % 8) as int;
    let r = (s / 8) as int;
    ray_attacks(occ, f, r, 1, 0) | ray_attacks(occ, f, r, -1, 0) | ray_attacks(occ, f, r, 0, 1)
        | ray_attacks(occ, f, r, 0, -1)
}

/// Bishop attacks from a square: the four diagonal rays.
pub open spec fn spec_bishop_attacks(occ: u64, s: u64) -> u64 {
    let f = (s % 8) as int;
    let r = (s / 8) as int;
    ray_attacks(occ, f, r, 1, 1) | ray_attacks(occ, f, r, -1, 1) | ray_attacks(occ, f, r, 1, -1)
        | ray_attacks(occ, f, r, -1, -1)
}

/// Slider attacks: orthogonal for the rook, diagonal for the bishop.
pub open spec fn spec_slider_attacks(occ: u64, s: u64, ortho: bool) -> u64 {
    if ortho {
        spec_rook_attacks(occ, s)
    } else {
        spec_bishop_attacks(occ, s)
    }
}

/// Walks one ray from `sq`, collecting squares until the first blocker
/// or the board edge.
fn ray_walk(occ: u64, sq: u64, df: i64, dr: i64) -> (acc: u64)
    requires
        sq < 64,
        -1 <= df <= 1,
        -1 <= dr <= 1,
        df != 0 || dr != 0,
    ensures
        acc == ray_attacks(occ, (sq % 8) as int, (sq / 8) as int, df as int, dr as int),
{
    let mut f: i64 = (sq % 8) as i64;
    let mut r: i64 = (sq / 8) as i64;
    let mut acc: u64 = 0;
    let ghost target: u64 = ray_attacks(occ, f as int, r as int, df as int, dr as int);
    proof {
        lemma_or_zero(target);
    }
    loop
        invariant_except_break
            on_board(f as int, r as int),
            -1 <= df <= 1,
            -1 <= dr <= 1,
            df != 0 || dr != 0,
            acc | ray_attacks(occ, f as int, r as int, df as int, dr as int) == target,
        ensures
            acc == target,
        decreases ray_room(f as int, r as int, df as int, dr as int),
    {
        let nf = f + df;
        let nr = r + dr;
        if nf < 0 || nf > 7 || nr < 0 || nr > 7 {
            proof {
                lemma_or_zero(acc);
                assert(ray_attacks(occ, f as int, r as int, df as int, dr as int) == 0);
            }
            break ;
        }
        let s: u64 = (nr * 8 + nf) as u64;
        proof {
            assert(s == sq_of(nf as int, nr as int));
        }
        let sbb: u64 = 1u64 << s;
        let blocked = occ & sbb != 0;
        proof {
            let rest = ray_attacks(occ, nf as int, nr as int, df as int, dr as int);
            if blocked {
                assert(ray_attacks(occ, f as int, r as int, df as int, dr as int) == sbb);
            } else {
                assert(ray_attacks(occ, f as int, r as int, df as int, dr as int) == sbb | rest);
            }
            crate::bits::lemma_or_algebra(acc, sbb, rest);
        }
        acc = acc | sbb;
        if blocked {
            break ;
        }
        f = nf;
        r = nr;
    }
    acc
}

/// Rook or bishop attacks from a square over the given blockers, the
/// rook when `ortho` is set. A blocker on the first reached square of
/// a ray ends that ray but is itself included.
pub fn get_slider_moves(square: SquareIndex, blockers: BB, ortho: bool) -> (r: BB)
    requires
        square < 64,
    ensures
        r == spec_slider_attacks(blockers, square, ortho),
{
    if ortho {
        get_rook_moves(square, blockers)
    } else {
        get_bishop_moves(square, blockers)
    }
}

fn get_rook_moves(square: SquareIndex, blockers: BB) -> (r: BB)
    requires
        square < 64,
    ensures
        r == spec_rook_attacks(blockers, square),
{
    ray_walk(blockers, square, 1, 0) | ray_walk(blockers, square, -1, 0) | ray_walk(
        blockers,
        square,
        0,
        1,
    ) | ray_walk(blockers, square, 0, -1)
}

fn get_bishop_moves(square: SquareIndex, blockers: BB) -> (r: BB)
    requires
        square < 64,
    ensures
        r == spec_bishop_attacks(blockers, square),
{
    ray_walk(blockers, square, 1, 1) | ray_walk(blockers, square, -1, 1) | ray_walk(
        blockers,
        square,
        1,
        -1,
    ) | ray_walk(blockers, square, -1, -1)
}

/// The knight attack pattern of a square: the eight knight steps with
/// the file masks that keep jumps from wrapping around the board edge.
pub open spec fn spec_knight_attacks(s: u64) -> u64 {
    let b = 1u64 << s;
    let nnw = spec_shift_left(b, 15) & !FILEH;
    let nww = spec_shift_left(b, 6) & !(FILEH | FILEG);
    let nne = spec_shift_left(b, 17) & !FILEA;
    let nee = spec_shift_left(b, 10) & !(FILEA | FILEB);
    let sse = spec_shift_right(b, 15) & !FILEA;
    let see = spec_shift_right(b, 6) & !(FILEA | FILEB);
    let ssw = spec_shift_right(b, 17) & !FILEH;
    let sww = spec_shift_right(b, 10) & !(FILEG | FILEH);
    nnw | nww | nne | nee | sww | ssw | sse | see
}

/// Destinations of a knight.
pub fn knight_destinations(square: SquareIndex) -> (r: BB)
    requires
        square < 64,
    ensures
        r == spec_knight_attacks(square),
{
    let base_bb: u64 = 1u64 << square;
    let nnw: u64 = crate::types::bitboard::shift_left(base_bb, 15) & !FILEH;
    let nww: u64 = crate::types::bitboard::shift_left(base_bb, 6) & !(FILEH | FILEG);
    let nne: u64 = crate::types::bitboard::shift_left(base_bb, 17) & !FILEA;
    let nee: u64 = crate::types::bitboard::shift_left(base_bb, 10) & !(FILEA | FILEB);
    let sse: u64 = crate::types::bitboard::shift_right(base_bb, 15) & !FILEA;
    let see: u64 = crate::types::bitboard::shift_right(base_bb, 6) & !(FILEA | FILEB);
    let ssw: u64 = crate::types::bitboard::shift_right(base_bb, 17) & !FILEH;
    let sww: u64 = crate::types::bitboard::shift_right(base_bb, 10) & !(FILEG | FILEH);
    nnw | nww | nne | nee | sww | ssw | sse | see
}

/// The king attack pattern of a square: the eight one-step shifts.
pub open spec fn spec_king_attacks(s: u64) -> u64 {
    let b = 1u64 << s;
    let e = (b & !FILEH) << 1;
    let w = (b & !FILEA) >> 1;
    let n = b << 8;
    let so = b >> 8;
    let ne = (b & !FILEH) << 9;
    let nw = (b & !FILEA) << 7;
    let se = (b & !FILEH) >> 7;
    let sw = (b & !FILEA) >> 9;
    w | nw | n | ne | e | se | so | sw
}

/// Destinations of a king.
pub fn king_destinations(square: SquareIndex) -> (r: BB)
    requires
        square < 64,
    ensures
        r == spec_king_attacks(square),
{
    let b: u64 = 1u64 << square;
    let e = (b & !FILEH) << 1u64;
    let w = (b & !FILEA) >> 1u64;
    let n = b << 8u64;
    let so = b >> 8u64;
    let ne = (b & !FILEH) << 9u64;
    let nw = (b & !FILEA) << 7u64;
    let se = (b & !FILEH) >> 7u64;
    let sw = (b & !FILEA) >> 9u64;
    w | nw | n | ne | e | se | so | sw
}

} // verus!
