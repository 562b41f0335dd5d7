//! The search driver: perft counting and a negamax alpha-beta search
//! over the legal move generator.

use vstd::prelude::*;

use crate::movegen::{spec_all_moves, spec_attacks_to, MoveGen};
use crate::bits::low_bit;
use crate::search::eval::{eval, spec_eval};
use crate::search::perft::gen_ready;
use crate::types::board_state::{spec_make_move, spec_move_applies, BoardState};
use crate::types::chess_move::{Move, MoveType};
use crate::types::colour::Colour;
use crate::types::piece_type::PieceType;
use crate::types::EngineError;

pub mod eval;
pub mod perft;

verus! {

/// The checkmate sentinel: beyond any reachable evaluation.
pub const MATE: i32 = 100000;

/// A bound on every score the search can produce.
pub const SCORE_BOUND: i32 = 6_200_000;

/// Whether the side to move stands in check: its king's square is
/// attacked. A board without that king is not in check.
pub open spec fn spec_in_check(b: BoardState) -> bool {
    let king_bb = b.position.spec_bb(b.active_player, PieceType::King);
    king_bb != 0 && spec_attacks_to(b, low_bit(king_bb)) != 0
}

/// The negamax value of a board within the alpha-beta window:
/// the evaluation at depth zero, the mate or stalemate score on a
/// board without moves, and otherwise the running maximum over the
/// moves with an alpha-beta cutoff; None when a reached board has no
/// king or holds a move the transition cannot apply.
pub open spec fn spec_negamax(b: BoardState, remaining: int, alpha: int, beta: int) -> Option<int>
    decreases remaining + 1, 0int,
        when remaining >= 0
{
    if remaining == 0 {
        Some(spec_eval(b))
    } else if b.position.spec_bb(b.active_player, PieceType::King) == 0 {
        None
    } else {
        let moves = spec_all_moves(b);
        if moves.len() == 0 {
            Some(
                if spec_in_check(b) {
                    -MATE as int
                } else {
                    0
                },
            )
        } else {
            spec_negamax_loop(moves, 0, b, remaining, alpha, beta, i32::MIN as int)
        }
    }
}

/// One pass of the negamax move loop, from move `idx` on, with the
/// running window and best score.
pub open spec fn spec_negamax_loop(
    moves: Seq<Move>,
    idx: int,
    b: BoardState,
    remaining: int,
    alpha: int,
    beta: int,
    best: int,
) -> Option<int>
    decreases remaining, moves.len() - idx,
        when remaining >= 1 && 0 <= idx <= moves.len()
{
    if idx >= moves.len() {
        Some(best)
    } else {
        let mv = moves[idx];
        if !(mv.kind == MoveType::Null || spec_move_applies(b, mv)) {
            None
        } else {
            match spec_negamax(spec_make_move(b, mv), remaining - 1, -beta, -alpha) {
                Some(v) => {
                    let ev = if -v > best {
                        -v
                    } else {
                        best
                    };
                    let a2 = if ev > alpha {
                        ev
                    } else {
                        alpha
                    };
                    if a2 >= beta {
                        Some(ev)
                    } else {
                        spec_negamax_loop(moves, idx + 1, b, remaining, a2, beta, ev)
                    }
                },
                None => None,
            }
        }
    }
}

/// Every defined negamax score lies within the score bound.
#[verifier::rlimit(100)]
pub proof fn lemma_negamax_bounded(b: BoardState, remaining: int, alpha: int, beta: int)
    requires
        remaining >= 0,
    ensures
        spec_negamax(b, remaining, alpha, beta) matches Some(v) ==> -SCORE_BOUND <= v
            <= SCORE_BOUND,
    decreases remaining + 1, 0int,
{
    if remaining == 0 {
        crate::search::eval::lemma_eval_bounded(b);
    } else if b.position.spec_bb(b.active_player, PieceType::King) != 0 {
        let moves = spec_all_moves(b);
        if moves.len() > 0 {
            lemma_negamax_loop_bounded(moves, 0, b, remaining, alpha, beta, i32::MIN as int);
        }
    }
}

proof fn lemma_negamax_loop_bounded(
    moves: Seq<Move>,
    idx: int,
    b: BoardState,
    remaining: int,
    alpha: int,
    beta: int,
    best: int,
)
    requires
        remaining >= 1,
        0 <= idx <= moves.len(),
        best == i32::MIN as int || -SCORE_BOUND <= best <= SCORE_BOUND,
        idx == 0 ==> best == i32::MIN as int || -SCORE_BOUND <= best <= SCORE_BOUND,
        idx > 0 || moves.len() > 0,
        best == i32::MIN as int ==> idx < moves.len(),
    ensures
        spec_negamax_loop(moves, idx, b, remaining, alpha, beta, best) matches Some(v)
            ==> -SCORE_BOUND <= v <= SCORE_BOUND,
    decreases remaining, moves.len() - idx,
{
    if idx >= moves.len() {
    } else {
        let mv = moves[idx];
        if mv.kind == MoveType::Null || spec_move_applies(b, mv) {
            lemma_negamax_bounded(spec_make_move(b, mv), remaining - 1, -beta, -alpha);
            match spec_negamax(spec_make_move(b, mv), remaining - 1, -beta, -alpha) {
                Some(v) => {
                    let ev = if -v > best {
                        -v
                    } else {
                        best
                    };
                    let a2 = if ev > alpha {
                        ev
                    } else {
                        alpha
                    };
                    if a2 >= beta {
                    } else {
                        lemma_negamax_loop_bounded(moves, idx + 1, b, remaining, a2, beta, ev);
                    }
                },
                None => {},
            }
        }
    }
}

/// A searcher: finds a best move and its score for a board.
pub trait Searcher {
    /// Whether the searcher's tables are sound.
    spec fn s_wf(&self) -> bool;

    /// The value the searcher is specified to compute for a board and
    /// depth; None where the search fails on a broken board.
    spec fn search_spec(&self, board: BoardState, depth: i32) -> Option<(Option<Move>, i32)>;

    /// Searches the board to the given depth and returns a best move,
    /// if any move exists, with its score.
    fn search(&mut self, board: BoardState, depth: i32) -> (r: Result<
        (Option<Move>, i32),
        EngineError,
    >)
        requires
            old(self).s_wf(),
            gen_ready(board),
        ensures
            final(self).s_wf(),
            r matches Ok(v) ==> old(self).search_spec(board, depth) == Some(v),
            r is Err <==> old(self).search_spec(board, depth) is None,
    ;
}

/// The negamax alpha-beta searcher.
pub struct NegaMax(pub MoveGen);

impl Default for NegaMax {
    /// A searcher with freshly built tables.
    fn default() -> (r: Self)
        ensures
            r.s_wf(),
    {
        NegaMax(Default::default())
    }
}

/// The result of the root search loop: the running best move and
/// score, with the same window discipline as the inner loop.
pub open spec fn spec_search_loop(
    moves: Seq<Move>,
    idx: int,
    b: BoardState,
    depth: i32,
    alpha: int,
    beta: int,
    best_mv: Move,
    best_ev: int,
) -> Option<(Move, int)>
    decreases moves.len() - idx,
        when 0 <= idx <= moves.len() && depth >= 1
{
    if idx >= moves.len() {
        Some((best_mv, best_ev))
    } else {
        let mv = moves[idx];
        if !(mv.kind == MoveType::Null || spec_move_applies(b, mv)) {
            None
        } else {
            match spec_negamax(spec_make_move(b, mv), depth - 1, -beta, -alpha) {
                Some(v) => {
                    let (nmv, nev) = if -v > best_ev {
                        (mv, -v)
                    } else {
                        (best_mv, best_ev)
                    };
                    let a2 = if nev > alpha {
                        nev
                    } else {
                        alpha
                    };
                    if a2 >= beta {
                        Some((nmv, nev))
                    } else {
                        spec_search_loop(moves, idx + 1, b, depth, a2, beta, nmv, nev)
                    }
                },
                None => None,
            }
        }
    }
}

impl NegaMax {
    /// The negamax value of a board within a window; see
    /// `spec_negamax`.
    #[verifier::rlimit(100)]
    fn inner(&mut self, board: &BoardState, remaining: i32, alpha: i32, beta: i32) -> (r: Result<
        i32,
        EngineError,
    >)
        requires
            old(self).s_wf(),
            gen_ready(*board),
            remaining >= 0,
            alpha > i32::MIN,
            beta > i32::MIN,
        ensures
            final(self).s_wf(),
            r matches Ok(v) ==> spec_negamax(*board, remaining as int, alpha as int, beta as int)
                == Some(v as int),
            r is Err <==> spec_negamax(*board, remaining as int, alpha as int, beta as int)
                is None,
        decreases remaining,
    {
        if remaining == 0 {
            return Ok(eval(board));
        }
        let moves: Vec<Move> = match self.0.all_moves(board) {
            Ok(moves) => moves,
            Err(e) => {
                return Err(e);
            },
        };
        if moves.len() == 0 {
            return Ok(
                if self.is_check(board) {
                    -MATE
                } else {
                    0
                },
            );
        }
        let mut best: i32 = i32::MIN;
        let mut cur_alpha: i32 = alpha;
        let mut i: usize = 0;
        let ghost target = spec_negamax_loop(
            moves@,
            0,
            *board,
            remaining as int,
            alpha as int,
            beta as int,
            i32::MIN as int,
        );
        while i < moves.len()
            invariant
                self.s_wf(),
                gen_ready(*board),
                remaining >= 1,
                i <= moves.len(),
                cur_alpha >= alpha,
                alpha > i32::MIN,
                beta > i32::MIN,
                best == i32::MIN || -SCORE_BOUND <= best <= SCORE_BOUND,
                cur_alpha == alpha || (-SCORE_BOUND <= cur_alpha <= SCORE_BOUND),
                spec_negamax_loop(
                    moves@,
                    i as int,
                    *board,
                    remaining as int,
                    cur_alpha as int,
                    beta as int,
                    best as int,
                ) == target,
                spec_negamax(*board, remaining as int, alpha as int, beta as int) == target,
            decreases moves@.len() - i,
        {
            let mv: Move = moves[i];
            let applied: BoardState = match board.clone_with_move(&mv) {
                Ok(b2) => b2,
                Err(e) => {
                    return Err(e);
                },
            };
            proof {
                crate::search::perft::lemma_make_move_gen_ready(*board, mv);
            }
            let v: i32 = match self.inner(&applied, remaining - 1, -beta, -cur_alpha) {
                Ok(v) => v,
                Err(e) => {
                    return Err(e);
                },
            };
            proof {
                lemma_negamax_bounded(
                    applied,
                    remaining as int - 1,
                    -beta as int,
                    -cur_alpha as int,
                );
            }
            if -v > best {
                best = -v;
            }
            if best > cur_alpha {
                cur_alpha = best;
            }
            if cur_alpha >= beta {
                return Ok(best);
            }
            i = i + 1;
        }
        Ok(best)
    }

    /// Whether the given side, which must be the side to move, stands
    /// in check.
    pub fn is_check(&self, board: &BoardState) -> (r: bool)
        requires
            self.s_wf(),
        ensures
            r == spec_in_check(*board),
    {
        let king_bb = board.position.bb(board.active_player, PieceType::King);
        if king_bb == 0 {
            return false;
        }
        let king_square = crate::bits::first_set_square(king_bb);
        self.0.attacks_to(board, king_square) != 0
    }
}

impl Searcher for NegaMax {
    open spec fn s_wf(&self) -> bool {
        self.0.wf()
    }

    open spec fn search_spec(&self, board: BoardState, depth: i32) -> Option<(Option<Move>, i32)> {
        if depth <= 0 {
            None
        } else if board.position.spec_bb(board.active_player, PieceType::King) == 0 {
            None
        } else {
            let moves = spec_all_moves(board);
            if moves.len() == 0 {
                Some(
                    (
                        None,
                        if spec_in_check(board) {
                            (-MATE) as i32
                        } else {
                            0
                        },
                    ),
                )
            } else {
                match spec_search_loop(
                    moves,
                    0,
                    board,
                    depth,
                    i32::MIN as int + 1,
                    i32::MAX as int,
                    Move { from: 0, to: 0, kind: MoveType::Null },
                    i32::MIN as int,
                ) {
                    Some((mv, ev)) => Some((Some(mv), ev as i32)),
                    None => None,
                }
            }
        }
    }

    #[verifier::rlimit(100)]
    fn search(&mut self, board: BoardState, depth: i32) -> (r: Result<
        (Option<Move>, i32),
        EngineError,
    >) {
        if depth <= 0 {
            return Err(EngineError::new("only positive search depths are allowed"));
        }
        let moves: Vec<Move> = match self.0.all_moves(&board) {
            Ok(moves) => moves,
            Err(e) => {
                return Err(e);
            },
        };
        if moves.len() == 0 {
            return Ok(
                (
                    None,
                    if self.is_check(&board) {
                        -MATE
                    } else {
                        0
                    },
                ),
            );
        }
        let mut best_mv: Move = Move::null();
        let mut best_ev: i32 = i32::MIN;
        let mut alpha: i32 = i32::MIN + 1;
        let beta: i32 = i32::MAX;
        let mut i: usize = 0;
        let ghost target = spec_search_loop(
            moves@,
            0,
            board,
            depth,
            i32::MIN as int + 1,
            i32::MAX as int,
            Move { from: 0, to: 0, kind: MoveType::Null },
            i32::MIN as int,
        );
        while i < moves.len()
            invariant
                self.s_wf(),
                gen_ready(board),
                depth >= 1,
                i <= moves.len(),
                alpha >= i32::MIN + 1,
                best_ev == i32::MIN || -SCORE_BOUND <= best_ev <= SCORE_BOUND,
                alpha == i32::MIN + 1 || (-SCORE_BOUND <= alpha <= SCORE_BOUND),
                beta == i32::MAX,
                spec_search_loop(
                    moves@,
                    i as int,
                    board,
                    depth,
                    alpha as int,
                    i32::MAX as int,
                    best_mv,
                    best_ev as int,
                ) == target,
                old(self).search_spec(board, depth) == (match target {
                    Some(p) => Some((Some(p.0), p.1 as i32)),
                    None => None,
                }),
            decreases moves@.len() - i,
        {
            let mv: Move = moves[i];
            let applied: BoardState = match board.clone_with_move(&mv) {
                Ok(b2) => b2,
                Err(e) => {
                    return Err(e);
                },
            };
            proof {
                crate::search::perft::lemma_make_move_gen_ready(board, mv);
            }
            let v: i32 = match self.inner(&applied, depth - 1, -beta, -alpha) {
                Ok(v) => v,
                Err(e) => {
                    return Err(e);
                },
            };
            proof {
                lemma_negamax_bounded(applied, depth as int - 1, -beta as int, -alpha as int);
            }
            if -v > best_ev {
                best_ev = -v;
                best_mv = mv;
            }
            if best_ev > alpha {
                alpha = best_ev;
            }
            if alpha >= beta {
                return Ok((Some(best_mv), best_ev));
            }
            i = i + 1;
        }
        Ok((Some(best_mv), best_ev))
    }
}

} // verus!
