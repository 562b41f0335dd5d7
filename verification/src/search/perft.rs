//! Perft: the number of leaf nodes of the full legal-move tree at a
//! fixed depth — the canonical oracle for generator correctness.

use vstd::prelude::*;

use crate::movegen::{spec_all_moves, MoveGen};
use crate::types::board_state::{
    spec_make_move, spec_move_applies, BoardState,
};
use crate::types::chess_move::{Move, MoveType};
use crate::types::colour::Colour;
use crate::types::piece_type::PieceType;
use crate::types::EngineError;

verus! {

/// Whether a board can be handed to the move generator: its
/// en-passant square, if any, lies on the board.
pub open spec fn gen_ready(b: BoardState) -> bool {
    b.en_passant matches Some(t) ==> t < 64
}

/// The perft value of a board: at depth one the number of legal
/// moves, deeper the sum over every legal move of the successor's
/// value one level down; None when some reached board has no king for
/// its side to move or holds a move the transition cannot apply.
pub open spec fn spec_perft(b: BoardState, depth: int) -> Option<nat>
    decreases depth, 0int,
        when depth >= 1
{
    if b.position.spec_bb(b.active_player, PieceType::King) == 0 {
        None
    } else if depth <= 1 {
        Some(spec_all_moves(b).len())
    } else {
        spec_perft_sum(spec_all_moves(b), b, depth - 1)
    }
}

/// The sum of the perft values of the successors by each move.
pub open spec fn spec_perft_sum(moves: Seq<Move>, b: BoardState, depth: int) -> Option<nat>
    decreases depth, moves.len() + 1,
        when depth >= 1
{
    if moves.len() == 0 {
        Some(0)
    } else {
        let mv = moves.first();
        if !(mv.kind == MoveType::Null || spec_move_applies(b, mv)) {
            None
        } else {
            let sub = spec_perft(spec_make_move(b, mv), depth);
            let rest = spec_perft_sum(moves.drop_first(), b, depth);
            if sub is Some && rest is Some {
                Some((sub->Some_0 + rest->Some_0) as nat)
            } else {
                None
            }
        }
    }
}

/// A successor produced by an applicable move is ready for the
/// generator again: its en-passant square lies on the board.
pub proof fn lemma_make_move_gen_ready(b: BoardState, mv: Move)
    requires
        gen_ready(b),
        mv.kind == MoveType::Null || spec_move_applies(b, mv),
    ensures
        gen_ready(spec_make_move(b, mv)),
{
}

/// The perft driver.
pub struct Perft {
    pub gen: MoveGen,
    pub count: usize,
}

impl Default for Perft {
    /// A fresh driver with its own generator.
    fn default() -> (r: Self)
        ensures
            r.wf(),
            r.count == 0,
    {
        Perft { gen: Default::default(), count: 0 }
    }
}

impl Perft {
    /// The driver's generator tables are sound.
    pub closed spec fn wf(&self) -> bool {
        self.gen.wf()
    }

    /// Counts the leaf nodes of the legal-move tree `depth` plies
    /// deep. A missing king is an invariant-violation error; a count
    /// beyond the machine word is an error as well.
    #[verifier::rlimit(60)]
    pub fn perft_inner(&mut self, board: &BoardState, depth: i32) -> (r: Result<
        usize,
        EngineError,
    >)
        requires
            old(self).wf(),
            gen_ready(*board),
            depth >= 1,
        ensures
            final(self).wf(),
            r matches Ok(n) ==> spec_perft(*board, depth as int) == Some(n as nat),
            r is Err <==> !(spec_perft(*board, depth as int) matches Some(t) && t
                <= usize::MAX),
        decreases depth,
    {
        let moves: Vec<Move> = match self.gen.all_moves(board) {
            Ok(moves) => moves,
            Err(e) => {
                return Err(e);
            },
        };
        if depth <= 1 {
            return Ok(moves.len());
        }
        let mut sum: usize = 0;
        let mut i: usize = 0;
        proof {
            assert(moves@.skip(0) =~= moves@);
        }
        while i < moves.len()
            invariant
                self.wf(),
                gen_ready(*board),
                depth >= 2,
                i <= moves.len(),
                moves@ == spec_all_moves(*board),
                board.position.spec_bb(board.active_player, PieceType::King) != 0,
                spec_perft_sum(moves@.skip(i as int), *board, depth - 1) matches Some(t) ==>
                    spec_perft(*board, depth as int) == Some((t + sum) as nat),
                spec_perft_sum(moves@.skip(i as int), *board, depth - 1) is None ==> spec_perft(
                    *board,
                    depth as int,
                ) is None,
            decreases moves@.len() - i,
        {
            let mv: Move = moves[i];
            proof {
                assert(moves@.skip(i as int).first() == mv);
                assert(moves@.skip(i as int).drop_first() =~= moves@.skip(i as int + 1));
            }
            let new_board: BoardState = match board.clone_with_move(&mv) {
                Ok(b2) => b2,
                Err(e) => {
                    return Err(e);
                },
            };
            proof {
                lemma_make_move_gen_ready(*board, mv);
            }
            let subtotal: usize = match self.perft_inner(&new_board, depth - 1) {
                Ok(n) => n,
                Err(e) => {
                    proof {
                        lemma_perft_sum_none_or_big(
                            moves@.skip(i as int),
                            *board,
                            depth - 1,
                            spec_perft(new_board, depth - 1),
                        );
                    }
                    return Err(e);
                },
            };
            if sum > usize::MAX - subtotal {
                proof {
                    let tail = spec_perft_sum(moves@.skip(i as int + 1), *board, depth - 1);
                    if tail is Some {
                        assert(spec_perft_sum(moves@.skip(i as int), *board, depth - 1) == Some(
                            (subtotal + tail->Some_0) as nat,
                        ));
                    } else {
                        assert(spec_perft_sum(moves@.skip(i as int), *board, depth - 1) is None);
                    }
                }
                return Err(EngineError::new("perft count does not fit the machine word"));
            }
            sum = sum + subtotal;
            i = i + 1;
        }
        proof {
            assert(moves@.skip(moves@.len() as int) =~= Seq::<Move>::empty());
        }
        Ok(sum)
    }

    /// Forgets the accumulated node count.
    pub fn reset(&mut self)
        ensures
            final(self).count == 0,
            final(self).wf() == old(self).wf(),
    {
        self.count = 0;
    }
}

/// A summed perft is at least each of its addends: when the first
/// successor's value is missing or too large, so is the whole sum.
proof fn lemma_perft_sum_none_or_big(moves: Seq<Move>, b: BoardState, depth: int, sub: Option<nat>)
    requires
        depth >= 1,
        moves.len() > 0,
        moves.first().kind == MoveType::Null || spec_move_applies(b, moves.first()),
        sub == spec_perft(spec_make_move(b, moves.first()), depth),
        sub is None || sub->Some_0 > usize::MAX,
    ensures
        spec_perft_sum(moves, b, depth) is None || spec_perft_sum(moves, b, depth)->Some_0
            > usize::MAX,
{
}

} // verus!
