//! Static evaluation: material count plus piece-square bonuses, from
//! the side to move's point of view.

use vstd::prelude::*;

use crate::bits::{bit, low_bit, pcount, popcount, lemma_clear_lowest, lemma_low_bit, lemma_pcount_bound};
use crate::types::bitboard::BB;
use crate::types::board_state::BoardState;
use crate::types::colour::Colour;
use crate::types::piece_type::PieceType;

verus! {

pub const PAWN_VALUE: u32 = 1000;

pub const KNIGHT_VALUE: u32 = 3000;

pub const BISHOP_VALUE: u32 = 3200;

pub const ROOK_VALUE: u32 = 5000;

pub const QUEEN_VALUE: u32 = 9000;

/// The pawn piece-square table, from White's side of the board.
pub open spec fn spec_pawn_table() -> Seq<int> {
    seq![0int, 0int, 0int, 0int, 0int, 0int, 0int, 0int, 0int, 0int, 0int, -5int, -5int, 0int, 0int, 0int, 0int, 2int, 3int, 4int, 4int, 3int, 2int, 0int, 0int, 4int, 6int, 10int, 10int, 6int, 4int, 0int, 0int, 6int, 9int, 10int, 10int, 9int, 6int, 0int, 4int, 8int, 12int, 16int, 16int, 12int, 8int, 4int, 5int, 10int, 15int, 20int, 20int, 15int, 10int, 5int, 0int, 0int, 0int, 0int, 0int, 0int, 0int, 0int]
}

/// The knight piece-square table, from White's side of the board.
pub open spec fn spec_knight_table() -> Seq<int> {
    seq![-50int, -40int, -30int, -20int, -20int, -30int, -40int, -50int, -40int, -15int, 0int, 0int, 0int, 0int, -15int, -40int, -30int, 0int, 10int, 15int, 15int, 10int, 0int, -30int, -20int, 5int, 15int, 20int, 20int, 15int, 5int, -20int, -20int, 0int, 15int, 20int, 20int, 15int, 0int, -20int, -30int, 5int, 10int, 15int, 15int, 10int, 5int, -30int, -40int, -15int, 0int, 5int, 5int, 0int, -15int, -40int, -50int, -40int, -30int, -20int, -20int, -30int, -40int, -50int]
}

/// The bishop piece-square table, from White's side of the board.
pub open spec fn spec_bishop_table() -> Seq<int> {
    seq![-20int, -10int, -10int, -10int, -10int, -10int, -10int, -20int, -10int, 0int, 0int, 0int, 0int, 0int, 0int, -10int, -10int, 0int, 5int, 10int, 10int, 5int, 0int, -10int, -10int, 5int, 5int, 10int, 10int, 5int, 5int, -10int, -10int, 0int, 10int, 10int, 10int, 10int, 0int, -10int, -10int, 10int, 10int, 10int, 10int, 10int, 10int, -10int, -10int, 5int, 0int, 0int, 0int, 0int, 5int, -10int, -20int, -10int, -10int, -10int, -10int, -10int, -10int, -20int]
}

/// The rook piece-square table, from White's side of the board.
pub open spec fn spec_rook_table() -> Seq<int> {
    seq![0int, 0int, 0int, 0int, 0int, 0int, 0int, 0int, 5int, 10int, 10int, 10int, 10int, 10int, 10int, 5int, -5int, 0int, 0int, 0int, 0int, 0int, 0int, -5int, -5int, 0int, 0int, 0int, 0int, 0int, 0int, -5int, -5int, 0int, 0int, 0int, 0int, 0int, 0int, -5int, -5int, 0int, 0int, 0int, 0int, 0int, 0int, -5int, -5int, 0int, 0int, 0int, 0int, 0int, 0int, -5int, 0int, 0int, 0int, 5int, 5int, 0int, 0int, 0int]
}

/// The queen piece-square table, from White's side of the board.
pub open spec fn spec_queen_table() -> Seq<int> {
    seq![-20int, -10int, -10int, -5int, -5int, -10int, -10int, -20int, -10int, 0int, 0int, 0int, 0int, 0int, 0int, -10int, -10int, 0int, 5int, 5int, 5int, 5int, 0int, -10int, -5int, 0int, 5int, 5int, 5int, 5int, 0int, -5int, 0int, 0int, 5int, 5int, 5int, 5int, 0int, -5int, -10int, 5int, 5int, 5int, 5int, 5int, 0int, -10int, -10int, 0int, 5int, 0int, 0int, 0int, 0int, -10int, -20int, -10int, -10int, -5int, -5int, -10int, -10int, -20int]
}

/// The king piece-square table, from White's side of the board.
pub open spec fn spec_king_table() -> Seq<int> {
    seq![-30int, -40int, -40int, -50int, -50int, -40int, -40int, -30int, -30int, -40int, -40int, -50int, -50int, -40int, -40int, -30int, -30int, -40int, -40int, -50int, -50int, -40int, -40int, -30int, -30int, -40int, -40int, -50int, -50int, -40int, -40int, -30int, -20int, -30int, -30int, -40int, -40int, -30int, -30int, -20int, -10int, -20int, -20int, -20int, -20int, -20int, -20int, -10int, 20int, 20int, 0int, 0int, 0int, 0int, 20int, 20int, 20int, 30int, 10int, 0int, 0int, 10int, 30int, 20int]
}

/// The piece-square table of a piece kind.
pub open spec fn spec_table_of(p: PieceType) -> Seq<int> {
    match p {
        PieceType::Pawn => spec_pawn_table(),
        PieceType::Knight => spec_knight_table(),
        PieceType::Bishop => spec_bishop_table(),
        PieceType::Rook => spec_rook_table(),
        PieceType::Queen => spec_queen_table(),
        PieceType::King => spec_king_table(),
    }
}

/// The sum of a table's entries over the set squares of a board.
pub open spec fn psq_sum(bb: u64, table: Seq<int>) -> int
    decreases bb,
        via psq_sum_decreases
{
    if bb == 0 {
        0
    } else {
        table[low_bit(bb) as int] + psq_sum(bb & ((bb - 1) as u64), table)
    }
}

#[via_fn]
proof fn psq_sum_decreases(bb: u64, table: Seq<int>) {
    if bb != 0 {
        lemma_clear_lowest(bb);
    }
}

/// A sum over a small-valued table is bounded by the population count.
pub proof fn lemma_psq_sum_bound(bb: u64, table: Seq<int>)
    requires
        forall|i: int| 0 <= i < 64 ==> -100 <= #[trigger] table[i] <= 100,
    ensures
        -100 * pcount(bb) <= psq_sum(bb, table) <= 100 * pcount(bb),
    decreases bb,
{
    if bb != 0 {
        lemma_low_bit(bb);
        lemma_clear_lowest(bb);
        crate::types::chess_move::lemma_pcount_clear_lowest(bb);
        lemma_psq_sum_bound(bb & ((bb - 1) as u64), table);
    }
}

/// The material score of one side: piece counts weighted by the piece
/// values, kings not counted.
pub open spec fn spec_material(b: BoardState, colour: Colour) -> int {
    pcount(b.position.spec_bb(colour, PieceType::Pawn)) * PAWN_VALUE + pcount(
        b.position.spec_bb(colour, PieceType::Knight),
    ) * KNIGHT_VALUE + pcount(b.position.spec_bb(colour, PieceType::Bishop)) * BISHOP_VALUE
        + pcount(b.position.spec_bb(colour, PieceType::Rook)) * ROOK_VALUE + pcount(
        b.position.spec_bb(colour, PieceType::Queen),
    ) * QUEEN_VALUE
}

/// The piece-square score of the whole board: White's placements
/// minus Black's, kind by kind.
pub open spec fn spec_piece_eval(b: BoardState) -> int {
    psq_sum(b.position.spec_bb(Colour::White, PieceType::Pawn), spec_pawn_table()) - psq_sum(
        b.position.spec_bb(Colour::Black, PieceType::Pawn),
        spec_pawn_table(),
    ) + psq_sum(b.position.spec_bb(Colour::White, PieceType::Knight), spec_knight_table())
        - psq_sum(b.position.spec_bb(Colour::Black, PieceType::Knight), spec_knight_table())
        + psq_sum(b.position.spec_bb(Colour::White, PieceType::Bishop), spec_bishop_table())
        - psq_sum(b.position.spec_bb(Colour::Black, PieceType::Bishop), spec_bishop_table())
        + psq_sum(b.position.spec_bb(Colour::White, PieceType::Rook), spec_rook_table()) - psq_sum(
        b.position.spec_bb(Colour::Black, PieceType::Rook),
        spec_rook_table(),
    ) + psq_sum(b.position.spec_bb(Colour::White, PieceType::Queen), spec_queen_table()) - psq_sum(
        b.position.spec_bb(Colour::Black, PieceType::Queen),
        spec_queen_table(),
    ) + psq_sum(b.position.spec_bb(Colour::White, PieceType::King), spec_king_table()) - psq_sum(
        b.position.spec_bb(Colour::Black, PieceType::King),
        spec_king_table(),
    )
}

/// The evaluation of a board, positive when the side to move stands
/// better: material difference plus piece-square bonuses, negated for
/// Black.
pub open spec fn spec_eval(b: BoardState) -> int {
    let white_view = spec_material(b, Colour::White) - spec_material(b, Colour::Black)
        + spec_piece_eval(b);
    if b.active_player == Colour::White {
        white_view
    } else {
        -white_view
    }
}

fn pawn_table() -> (r: Vec<i32>)
    ensures
        r@.len() == 64,
        forall|i: int| 0 <= i < 64 ==> #[trigger] r@[i] == spec_pawn_table()[i],
        forall|i: int| 0 <= i < 64 ==> -100 <= #[trigger] spec_pawn_table()[i] <= 100,
{
    let t: Vec<i32> = vec![0, 0, 0, 0, 0, 0, 0, 0, 0, 0, 0, -5, -5, 0, 0, 0, 0, 2, 3, 4, 4, 3, 2, 0, 0, 4, 6, 10, 10, 6, 4, 0, 0, 6, 9, 10, 10, 9, 6, 0, 4, 8, 12, 16, 16, 12, 8, 4, 5, 10, 15, 20, 20, 15, 10, 5, 0, 0, 0, 0, 0, 0, 0, 0];
    proof {
        assert forall|i: int| 0 <= i < 64 implies #[trigger] t@[i] == spec_pawn_table()[i] && -100
            <= spec_pawn_table()[i] <= 100 by {
        }
    }
    t
}

fn knight_table() -> (r: Vec<i32>)
    ensures
        r@.len() == 64,
        forall|i: int| 0 <= i < 64 ==> #[trigger] r@[i] == spec_knight_table()[i],
        forall|i: int| 0 <= i < 64 ==> -100 <= #[trigger] spec_knight_table()[i] <= 100,
{
    let t: Vec<i32> = vec![-50, -40, -30, -20, -20, -30, -40, -50, -40, -15, 0, 0, 0, 0, -15, -40, -30, 0, 10, 15, 15, 10, 0, -30, -20, 5, 15, 20, 20, 15, 5, -20, -20, 0, 15, 20, 20, 15, 0, -20, -30, 5, 10, 15, 15, 10, 5, -30, -40, -15, 0, 5, 5, 0, -15, -40, -50, -40, -30, -20, -20, -30, -40, -50];
    proof {
        assert forall|i: int| 0 <= i < 64 implies #[trigger] t@[i] == spec_knight_table()[i] && -100
            <= spec_knight_table()[i] <= 100 by {
        }
    }
    t
}

fn bishop_table() -> (r: Vec<i32>)
    ensures
        r@.len() == 64,
        forall|i: int| 0 <= i < 64 ==> #[trigger] r@[i] == spec_bishop_table()[i],
        forall|i: int| 0 <= i < 64 ==> -100 <= #[trigger] spec_bishop_table()[i] <= 100,
{
    let t: Vec<i32> = vec![-20, -10, -10, -10, -10, -10, -10, -20, -10, 0, 0, 0, 0, 0, 0, -10, -10, 0, 5, 10, 10, 5, 0, -10, -10, 5, 5, 10, 10, 5, 5, -10, -10, 0, 10, 10, 10, 10, 0, -10, -10, 10, 10, 10, 10, 10, 10, -10, -10, 5, 0, 0, 0, 0, 5, -10, -20, -10, -10, -10, -10, -10, -10, -20];
    proof {
        assert forall|i: int| 0 <= i < 64 implies #[trigger] t@[i] == spec_bishop_table()[i] && -100
            <= spec_bishop_table()[i] <= 100 by {
        }
    }
    t
}

fn rook_table() -> (r: Vec<i32>)
    ensures
        r@.len() == 64,
        forall|i: int| 0 <= i < 64 ==> #[trigger] r@[i] == spec_rook_table()[i],
        forall|i: int| 0 <= i < 64 ==> -100 <= #[trigger] spec_rook_table()[i] <= 100,
{
    let t: Vec<i32> = vec![0, 0, 0, 0, 0, 0, 0, 0, 5, 10, 10, 10, 10, 10, 10, 5, -5, 0, 0, 0, 0, 0, 0, -5, -5, 0, 0, 0, 0, 0, 0, -5, -5, 0, 0, 0, 0, 0, 0, -5, -5, 0, 0, 0, 0, 0, 0, -5, -5, 0, 0, 0, 0, 0, 0, -5, 0, 0, 0, 5, 5, 0, 0, 0];
    proof {
        assert forall|i: int| 0 <= i < 64 implies #[trigger] t@[i] == spec_rook_table()[i] && -100
            <= spec_rook_table()[i] <= 100 by {
        }
    }
    t
}

fn queen_table() -> (r: Vec<i32>)
    ensures
        r@.len() == 64,
        forall|i: int| 0 <= i < 64 ==> #[trigger] r@[i] == spec_queen_table()[i],
        forall|i: int| 0 <= i < 64 ==> -100 <= #[trigger] spec_queen_table()[i] <= 100,
{
    let t: Vec<i32> = vec![-20, -10, -10, -5, -5, -10, -10, -20, -10, 0, 0, 0, 0, 0, 0, -10, -10, 0, 5, 5, 5, 5, 0, -10, -5, 0, 5, 5, 5, 5, 0, -5, 0, 0, 5, 5, 5, 5, 0, -5, -10, 5, 5, 5, 5, 5, 0, -10, -10, 0, 5, 0, 0, 0, 0, -10, -20, -10, -10, -5, -5, -10, -10, -20];
    proof {
        assert forall|i: int| 0 <= i < 64 implies #[trigger] t@[i] == spec_queen_table()[i] && -100
            <= spec_queen_table()[i] <= 100 by {
        }
    }
    t
}

fn king_table() -> (r: Vec<i32>)
    ensures
        r@.len() == 64,
        forall|i: int| 0 <= i < 64 ==> #[trigger] r@[i] == spec_king_table()[i],
        forall|i: int| 0 <= i < 64 ==> -100 <= #[trigger] spec_king_table()[i] <= 100,
{
    let t: Vec<i32> = vec![-30, -40, -40, -50, -50, -40, -40, -30, -30, -40, -40, -50, -50, -40, -40, -30, -30, -40, -40, -50, -50, -40, -40, -30, -30, -40, -40, -50, -50, -40, -40, -30, -20, -30, -30, -40, -40, -30, -30, -20, -10, -20, -20, -20, -20, -20, -20, -10, 20, 20, 0, 0, 0, 0, 20, 20, 20, 30, 10, 0, 0, 10, 30, 20];
    proof {
        assert forall|i: int| 0 <= i < 64 implies #[trigger] t@[i] == spec_king_table()[i] && -100
            <= spec_king_table()[i] <= 100 by {
        }
    }
    t
}

/// Sums a table over the set squares of a board.
fn psq_sum_exec(bb: BB, table: &Vec<i32>) -> (r: i32)
    requires
        table@.len() == 64,
        forall|i: int| 0 <= i < 64 ==> -100 <= #[trigger] table@[i] <= 100,
    ensures
        r == psq_sum(bb, table@.map_values(|v: i32| v as int)),
{
    let ghost spec_table = table@.map_values(|v: i32| v as int);
    let mut cur: u64 = bb;
    let mut sum: i32 = 0;
    proof {
        lemma_psq_sum_bound(bb, spec_table);
        lemma_pcount_bound(bb);
        assert(forall|i: int| 0 <= i < 64 ==> -100 <= #[trigger] spec_table[i] <= 100);
    }
    while cur != 0
        invariant
            table@.len() == 64,
            spec_table == table@.map_values(|v: i32| v as int),
            forall|i: int| 0 <= i < 64 ==> -100 <= #[trigger] spec_table[i] <= 100,
            sum + psq_sum(cur, spec_table) == psq_sum(bb, spec_table),
            -12800 <= sum <= 12800,
            -6400 <= psq_sum(bb, spec_table) <= 6400,
            -6400 <= psq_sum(cur, spec_table) <= 6400,
        decreases cur,
    {
        proof {
            lemma_low_bit(cur);
            lemma_clear_lowest(cur);
            lemma_psq_sum_bound(cur & ((cur - 1) as u64), spec_table);
            lemma_pcount_bound(cur & ((cur - 1) as u64));
        }
        let sq: u64 = cur.trailing_zeros() as u64;
        sum = sum + table[sq as usize];
        cur = cur & (cur - 1);
    }
    sum
}

/// The material score of one side.
fn get_material_score(board: &BoardState, colour: Colour) -> (r: i32)
    ensures
        r == spec_material(*board, colour),
        0 <= r <= 3_000_000,
{
    proof {
        lemma_pcount_bound(board.position.spec_bb(colour, PieceType::Pawn));
        lemma_pcount_bound(board.position.spec_bb(colour, PieceType::Knight));
        lemma_pcount_bound(board.position.spec_bb(colour, PieceType::Bishop));
        lemma_pcount_bound(board.position.spec_bb(colour, PieceType::Rook));
        lemma_pcount_bound(board.position.spec_bb(colour, PieceType::Queen));
    }
    let pawns: u32 = popcount(board.position.bb(colour, PieceType::Pawn)) * PAWN_VALUE;
    let knights: u32 = popcount(board.position.bb(colour, PieceType::Knight)) * KNIGHT_VALUE;
    let bishops: u32 = popcount(board.position.bb(colour, PieceType::Bishop)) * BISHOP_VALUE;
    let rooks: u32 = popcount(board.position.bb(colour, PieceType::Rook)) * ROOK_VALUE;
    let queens: u32 = popcount(board.position.bb(colour, PieceType::Queen)) * QUEEN_VALUE;
    (pawns + knights + bishops + rooks + queens) as i32
}

/// The piece-square score of the whole board, from White's side.
fn get_piece_eval(board: &BoardState) -> (r: i32)
    ensures
        r == spec_piece_eval(*board),
        -80_000 <= r <= 80_000,
{
    let pawn_t = pawn_table();
    let knight_t = knight_table();
    let bishop_t = bishop_table();
    let rook_t = rook_table();
    let queen_t = queen_table();
    let king_t = king_table();
    proof {
        assert(pawn_t@.map_values(|v: i32| v as int) =~= spec_pawn_table());
        assert(knight_t@.map_values(|v: i32| v as int) =~= spec_knight_table());
        assert(bishop_t@.map_values(|v: i32| v as int) =~= spec_bishop_table());
        assert(rook_t@.map_values(|v: i32| v as int) =~= spec_rook_table());
        assert(queen_t@.map_values(|v: i32| v as int) =~= spec_queen_table());
        assert(king_t@.map_values(|v: i32| v as int) =~= spec_king_table());
    }
    let mut eval: i32 = 0;
    eval = eval + eval_piece_type(board, PieceType::Pawn, Colour::White, &pawn_t);
    eval = eval - eval_piece_type(board, PieceType::Pawn, Colour::Black, &pawn_t);
    eval = eval + eval_piece_type(board, PieceType::Knight, Colour::White, &knight_t);
    eval = eval - eval_piece_type(board, PieceType::Knight, Colour::Black, &knight_t);
    eval = eval + eval_piece_type(board, PieceType::Bishop, Colour::White, &bishop_t);
    eval = eval - eval_piece_type(board, PieceType::Bishop, Colour::Black, &bishop_t);
    eval = eval + eval_piece_type(board, PieceType::Rook, Colour::White, &rook_t);
    eval = eval - eval_piece_type(board, PieceType::Rook, Colour::Black, &rook_t);
    eval = eval + eval_piece_type(board, PieceType::Queen, Colour::White, &queen_t);
    eval = eval - eval_piece_type(board, PieceType::Queen, Colour::Black, &queen_t);
    eval = eval + eval_piece_type(board, PieceType::King, Colour::White, &king_t);
    eval = eval - eval_piece_type(board, PieceType::King, Colour::Black, &king_t);
    eval
}

/// The piece-square score of one side's men of one kind.
fn eval_piece_type(board: &BoardState, piece: PieceType, colour: Colour, table: &Vec<i32>) -> (r:
    i32)
    requires
        table@.len() == 64,
        forall|i: int| 0 <= i < 64 ==> -100 <= #[trigger] table@[i] <= 100,
    ensures
        r == psq_sum(board.position.spec_bb(colour, piece), table@.map_values(|v: i32| v as int)),
        -6400 <= r <= 6400,
{
    let pieces: BB = board.position.bb(colour, piece);
    proof {
        lemma_psq_sum_bound(pieces, table@.map_values(|v: i32| v as int));
        lemma_pcount_bound(pieces);
    }
    psq_sum_exec(pieces, table)
}

/// Evaluates a board for its side to move: material difference plus
/// piece-square bonuses, negated when Black is to move.
pub fn eval(board: &BoardState) -> (r: i32)
    ensures
        r == spec_eval(*board),
        -6_100_000 <= r <= 6_100_000,
{
    let material: i32 = get_material_score(board, Colour::White) - get_material_score(
        board,
        Colour::Black,
    );
    let pieces: i32 = get_piece_eval(board);
    if board.active_player == Colour::White {
        material + pieces
    } else {
        -(material + pieces)
    }
}

/// The evaluation of any board lies within six million and one
/// hundred thousand units either way.
pub proof fn lemma_eval_bounded(b: BoardState)
    ensures
        -6_100_000 <= spec_eval(b) <= 6_100_000,
{
    lemma_material_bounded(b, Colour::White);
    lemma_material_bounded(b, Colour::Black);
    lemma_piece_eval_bounded(b);
}

proof fn lemma_material_bounded(b: BoardState, c: Colour)
    ensures
        0 <= spec_material(b, c) <= 3_000_000,
{
    lemma_pcount_bound(b.position.spec_bb(c, PieceType::Pawn));
    lemma_pcount_bound(b.position.spec_bb(c, PieceType::Knight));
    lemma_pcount_bound(b.position.spec_bb(c, PieceType::Bishop));
    lemma_pcount_bound(b.position.spec_bb(c, PieceType::Rook));
    lemma_pcount_bound(b.position.spec_bb(c, PieceType::Queen));
}

proof fn lemma_piece_eval_bounded(b: BoardState)
    ensures
        -80_000 <= spec_piece_eval(b) <= 80_000,
{
    lemma_table_small();
    lemma_one_psq(b.position.spec_bb(Colour::White, PieceType::Pawn), spec_pawn_table());
    lemma_one_psq(b.position.spec_bb(Colour::Black, PieceType::Pawn), spec_pawn_table());
    lemma_one_psq(b.position.spec_bb(Colour::White, PieceType::Knight), spec_knight_table());
    lemma_one_psq(b.position.spec_bb(Colour::Black, PieceType::Knight), spec_knight_table());
    lemma_one_psq(b.position.spec_bb(Colour::White, PieceType::Bishop), spec_bishop_table());
    lemma_one_psq(b.position.spec_bb(Colour::Black, PieceType::Bishop), spec_bishop_table());
    lemma_one_psq(b.position.spec_bb(Colour::White, PieceType::Rook), spec_rook_table());
    lemma_one_psq(b.position.spec_bb(Colour::Black, PieceType::Rook), spec_rook_table());
    lemma_one_psq(b.position.spec_bb(Colour::White, PieceType::Queen), spec_queen_table());
    lemma_one_psq(b.position.spec_bb(Colour::Black, PieceType::Queen), spec_queen_table());
    lemma_one_psq(b.position.spec_bb(Colour::White, PieceType::King), spec_king_table());
    lemma_one_psq(b.position.spec_bb(Colour::Black, PieceType::King), spec_king_table());
}

proof fn lemma_one_psq(bb: u64, table: Seq<int>)
    requires
        forall|i: int| 0 <= i < 64 ==> -100 <= #[trigger] table[i] <= 100,
    ensures
        -6400 <= psq_sum(bb, table) <= 6400,
{
    lemma_psq_sum_bound(bb, table);
    lemma_pcount_bound(bb);
}

#[verifier::rlimit(60)]
proof fn lemma_table_small()
    ensures
        forall|i: int| 0 <= i < 64 ==> -100 <= #[trigger] spec_pawn_table()[i] <= 100,
        forall|i: int| 0 <= i < 64 ==> -100 <= #[trigger] spec_knight_table()[i] <= 100,
        forall|i: int| 0 <= i < 64 ==> -100 <= #[trigger] spec_bishop_table()[i] <= 100,
        forall|i: int| 0 <= i < 64 ==> -100 <= #[trigger] spec_rook_table()[i] <= 100,
        forall|i: int| 0 <= i < 64 ==> -100 <= #[trigger] spec_queen_table()[i] <= 100,
        forall|i: int| 0 <= i < 64 ==> -100 <= #[trigger] spec_king_table()[i] <= 100,
{
}

} // verus!
