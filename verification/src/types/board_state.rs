//! The full game state: placement, side to move, castling rights,
//! en-passant target and the two move counters, together with the
//! make-move transition.

use vstd::prelude::*;

use crate::bits::bit;
use crate::types::chess_move::{
    is_castle_kind, is_promotion_capture_kind, is_promotion_kind, spec_promoted_piece, Move,
    MoveType,
};
use crate::types::colour::Colour;
use crate::types::piece_type::PieceType;
use crate::types::position::Position;
use crate::types::square::SquareIndex;
use crate::types::EngineError;

verus! {

/// Castling rights, one flag per side and wing.
#[derive(Clone, Copy, PartialEq, Eq, Structural, Debug)]
pub struct CastlingRights {
    pub white_king: bool,
    pub white_queen: bool,
    pub black_king: bool,
    pub black_queen: bool,
}

impl CastlingRights {
    /// No right retained.
    pub open spec fn none() -> CastlingRights {
        CastlingRights { white_king: false, white_queen: false, black_king: false, black_queen: false }
    }

    /// The king-side right of a side.
    pub open spec fn king_side(self, c: Colour) -> bool {
        if c == Colour::White {
            self.white_king
        } else {
            self.black_king
        }
    }

    /// The queen-side right of a side.
    pub open spec fn queen_side(self, c: Colour) -> bool {
        if c == Colour::White {
            self.white_queen
        } else {
            self.black_queen
        }
    }

    /// Both rights of one side withdrawn.
    pub open spec fn spec_clear_side(self, c: Colour) -> CastlingRights {
        if c == Colour::White {
            CastlingRights { white_king: false, white_queen: false, ..self }
        } else {
            CastlingRights { black_king: false, black_queen: false, ..self }
        }
    }
}

/// The full game state.
#[derive(Clone, Copy, PartialEq, Eq, Structural, Debug)]
pub struct BoardState {
    pub position: Position,
    pub active_player: Colour,
    pub en_passant: Option<SquareIndex>,
    pub castling_rights: CastlingRights,
    pub half_moves: i32,
    pub full_moves: i32,
}

/// Castling rights after the mover's own side effects: a king move or a
/// castle withdraws both own rights; a rook move off a starting corner
/// withdraws the matching right.
pub open spec fn spec_rights_after_own(
    r: CastlingRights,
    us: Colour,
    kind: PieceType,
    mv: Move,
) -> CastlingRights {
    if kind == PieceType::King {
        r.spec_clear_side(us)
    } else if kind == PieceType::Rook {
        if us == Colour::White {
            if mv.from == 7 {
                CastlingRights { white_king: false, ..r }
            } else if mv.from == 0 {
                CastlingRights { white_queen: false, ..r }
            } else {
                r
            }
        } else {
            if mv.from == 63 {
                CastlingRights { black_king: false, ..r }
            } else if mv.from == 56 {
                CastlingRights { black_queen: false, ..r }
            } else {
                r
            }
        }
    } else {
        r
    }
}

/// Castling rights after a capture landing on an enemy rook starting
/// corner: the corresponding enemy right is withdrawn.
pub open spec fn spec_rights_after_capture(
    r: CastlingRights,
    us: Colour,
    captures_rook: bool,
    to: SquareIndex,
) -> CastlingRights {
    if !captures_rook {
        r
    } else if us == Colour::White {
        if to == 63 {
            CastlingRights { black_king: false, ..r }
        } else if to == 56 {
            CastlingRights { black_queen: false, ..r }
        } else {
            r
        }
    } else {
        if to == 7 {
            CastlingRights { white_king: false, ..r }
        } else if to == 0 {
            CastlingRights { white_queen: false, ..r }
        } else {
            r
        }
    }
}

/// Whether the move's kind captures an enemy man on its target square.
pub open spec fn is_capturing_kind(k: MoveType) -> bool {
    k == MoveType::Capture || k == MoveType::EnPassantCapture || is_promotion_capture_kind(k)
}

/// The square passed over by a double pawn push, or None when the move
/// is no double push.
pub open spec fn spec_ep_after(us: Colour, kind: PieceType, mv: Move) -> Option<SquareIndex> {
    if kind == PieceType::Pawn && us == Colour::White && mv.to == mv.from + 16 {
        Some((mv.from + 8) as u64)
    } else if kind == PieceType::Pawn && us == Colour::Black && mv.from == mv.to + 16 {
        Some((mv.to + 8) as u64)
    } else {
        None
    }
}

/// The square of the pawn captured en passant: one rank behind the
/// target, from the mover's point of view.
pub open spec fn spec_ep_victim(us: Colour, to: SquareIndex) -> u64 {
    if us == Colour::White {
        (to - 8) as u64
    } else {
        (to + 8) as u64
    }
}

/// Saturating increment of a move counter.
pub open spec fn spec_bump(n: i32) -> i32 {
    if n == i32::MAX {
        n
    } else {
        (n + 1) as i32
    }
}

/// Whether a non-null move can be applied to the board: the mover is an
/// own piece on `from`, and the target and side conditions of the kind
/// hold. The make-move transition is defined exactly on these moves.
pub open spec fn spec_move_applies(b: BoardState, mv: Move) -> bool {
    let us = b.active_player;
    let them = us.spec_opposite();
    let p = b.position;
    &&& mv.from < 64
    &&& mv.to < 64
    &&& p.spec_type_at(mv.from) is Some
    &&& p.spec_colour_at(mv.from) == Some(us)
    &&& {
        let kind = p.spec_type_at(mv.from)->Some_0;
        &&& (kind == PieceType::Pawn && us == Colour::White && mv.to == mv.from + 16 ==> mv.from
            / 8 == 1)
        &&& (kind == PieceType::Pawn && us == Colour::Black && mv.from == mv.to + 16 ==> mv.from
            / 8 == 6)
        &&& (is_promotion_kind(mv.kind) && us == Colour::White ==> mv.from / 8 == 6)
        &&& (is_promotion_kind(mv.kind) && us == Colour::Black ==> mv.from / 8 == 1)
    }
    &&& {
        let kind = p.spec_type_at(mv.from)->Some_0;
        match mv.kind {
            MoveType::Quiet => p.spec_colour_at(mv.to) is None,
            MoveType::Capture => p.spec_colour_at(mv.to) == Some(them) && p.spec_type_at(mv.to)
                is Some && p.spec_type_at(mv.to) != Some(PieceType::King),
            MoveType::EnPassantCapture => {
                &&& kind == PieceType::Pawn
                &&& b.en_passant == Some(mv.to)
                &&& p.spec_colour_at(mv.to) is None
                &&& (if us == Colour::White {
                    mv.to >= 8
                } else {
                    mv.to < 56
                })
                &&& p.spec_type_at(spec_ep_victim(us, mv.to)) == Some(PieceType::Pawn)
                &&& p.spec_colour_at(spec_ep_victim(us, mv.to)) == Some(them)
            },
            MoveType::KnightPromotion | MoveType::BishopPromotion | MoveType::RookPromotion
                | MoveType::QueenPromotion => kind == PieceType::Pawn && p.spec_colour_at(mv.to)
                is None,
            MoveType::KnightPromotionCapture | MoveType::BishopPromotionCapture
                | MoveType::RookPromotionCapture | MoveType::QueenPromotionCapture => kind
                == PieceType::Pawn && p.spec_colour_at(mv.to) == Some(them) && p.spec_type_at(mv.to)
                is Some && p.spec_type_at(mv.to) != Some(PieceType::King),
            MoveType::CastleKing => {
                let base: u64 = if us == Colour::White {
                    0
                } else {
                    56
                };
                &&& mv.from == base + 4
                &&& mv.to == base + 6
                &&& p.spec_type_at((base + 4) as u64) == Some(PieceType::King)
                &&& p.spec_type_at((base + 7) as u64) == Some(PieceType::Rook)
                &&& p.spec_colour_at((base + 7) as u64) == Some(us)
                &&& p.spec_colour_at((base + 5) as u64) is None
                &&& p.spec_colour_at((base + 6) as u64) is None
            },
            MoveType::CastleQueen => {
                let base: u64 = if us == Colour::White {
                    0
                } else {
                    56
                };
                &&& mv.from == base + 4
                &&& mv.to == base + 2
                &&& p.spec_type_at((base + 4) as u64) == Some(PieceType::King)
                &&& p.spec_type_at(base) == Some(PieceType::Rook)
                &&& p.spec_colour_at(base) == Some(us)
                &&& p.spec_colour_at((base + 2) as u64) is None
                &&& p.spec_colour_at((base + 3) as u64) is None
            },
            MoveType::Null => true,
        }
    }
}

/// The placement after a non-null applicable move.
pub open spec fn spec_position_after(b: BoardState, mv: Move) -> Position {
    let us = b.active_player;
    let them = us.spec_opposite();
    let p = b.position;
    let kind = p.spec_type_at(mv.from)->Some_0;
    match mv.kind {
        MoveType::Quiet => p.spec_remove(us, kind, mv.from).spec_add(us, kind, mv.to),
        MoveType::Capture => p.spec_capture(mv, us),
        MoveType::EnPassantCapture => p.spec_remove(us, kind, mv.from).spec_remove(
            them,
            PieceType::Pawn,
            spec_ep_victim(us, mv.to),
        ).spec_add(us, kind, mv.to),
        MoveType::KnightPromotion | MoveType::BishopPromotion | MoveType::RookPromotion
            | MoveType::QueenPromotion => p.spec_remove(us, kind, mv.from).spec_add(
            us,
            spec_promoted_piece(mv.kind)->Some_0,
            mv.to,
        ),
        MoveType::KnightPromotionCapture | MoveType::BishopPromotionCapture
            | MoveType::RookPromotionCapture | MoveType::QueenPromotionCapture => {
            let captured = p.spec_type_at(mv.to)->Some_0;
            p.spec_remove(us, kind, mv.from).spec_remove(them, captured, mv.to).spec_add(
                us,
                spec_promoted_piece(mv.kind)->Some_0,
                mv.to,
            )
        },
        MoveType::CastleKing => p.spec_castle(MoveType::CastleKing, us),
        MoveType::CastleQueen => p.spec_castle(MoveType::CastleQueen, us),
        MoveType::Null => p,
    }
}

/// The full state after an applicable move: the placement changes with
/// the kind's geometry, castling rights and the en-passant square are
/// updated, the side to move flips, the half-move clock resets on pawn
/// moves and captures, and the full-move number grows after Black's
/// move. A null move leaves the state unchanged.
pub open spec fn spec_make_move(b: BoardState, mv: Move) -> BoardState {
    if mv.kind == MoveType::Null {
        b
    } else {
        let us = b.active_player;
        let p = b.position;
        let kind = p.spec_type_at(mv.from)->Some_0;
        let captures_rook = (mv.kind == MoveType::Capture || is_promotion_capture_kind(mv.kind))
            && p.spec_type_at(mv.to) == Some(PieceType::Rook);
        let r1 = spec_rights_after_own(b.castling_rights, us, kind, mv);
        let r2 = spec_rights_after_capture(r1, us, captures_rook, mv.to);
        let r3 = if is_castle_kind(mv.kind) {
            r2.spec_clear_side(us)
        } else {
            r2
        };
        let pawn_or_capture = kind == PieceType::Pawn || is_capturing_kind(mv.kind);
        BoardState {
            position: spec_position_after(b, mv),
            active_player: us.spec_opposite(),
            en_passant: spec_ep_after(us, kind, mv),
            castling_rights: r3,
            half_moves: if pawn_or_capture {
                0
            } else {
                spec_bump(b.half_moves)
            },
            full_moves: if us == Colour::Black {
                spec_bump(b.full_moves)
            } else {
                b.full_moves
            },
        }
    }
}


/// The en-passant field is sound: when set, the target lies on the
/// third rank of the side that just moved, with that side's pawn
/// standing directly behind it (toward its own camp).
pub open spec fn ep_wf(b: BoardState) -> bool {
    b.en_passant matches Some(t) ==> {
        &&& t < 64
        &&& (if b.active_player == Colour::Black {
            &&& t / 8 == 2
            &&& b.position.spec_type_at((t + 8) as u64) == Some(PieceType::Pawn)
            &&& b.position.spec_colour_at((t + 8) as u64) == Some(Colour::White)
        } else {
            &&& t / 8 == 5
            &&& t >= 8
            &&& b.position.spec_type_at((t - 8) as u64) == Some(PieceType::Pawn)
            &&& b.position.spec_colour_at((t - 8) as u64) == Some(Colour::Black)
        })
    }
}

/// A well-formed game state: the placement is well-formed, each side
/// has exactly one king, and the en-passant field is sound.
pub open spec fn wf_board(b: BoardState) -> bool {
    &&& b.position.wf()
    &&& crate::types::position::one_king(b.position, Colour::White)
    &&& crate::types::position::one_king(b.position, Colour::Black)
    &&& ep_wf(b)
}

/// Applying an applicable move to a well-formed state yields a
/// well-formed state: the placement invariants, the one king of each
/// side, and the soundness of the en-passant field all survive the
/// transition.
pub proof fn lemma_make_move_wf(b: BoardState, mv: Move)
    requires
        wf_board(b),
        mv.kind == MoveType::Null || spec_move_applies(b, mv),
    ensures
        wf_board(spec_make_move(b, mv)),
{
    if mv.kind == MoveType::Null {
        return;
    }
    let us = b.active_player;
    let them = us.spec_opposite();
    let p = b.position;
    let kind = p.spec_type_at(mv.from)->Some_0;
    let after = spec_make_move(b, mv);
    crate::types::position::lemma_at_to_bb(p, mv.from);
    assert(bit(p.spec_bb(us, kind), mv.from));

    match mv.kind {
        MoveType::Quiet | MoveType::KnightPromotion | MoveType::BishopPromotion
            | MoveType::RookPromotion | MoveType::QueenPromotion => {
            let landed = if mv.kind == MoveType::Quiet {
                kind
            } else {
                spec_promoted_piece(mv.kind)->Some_0
            };
            let q1 = p.spec_remove(us, kind, mv.from);
            let q2 = q1.spec_add(us, landed, mv.to);
            crate::types::position::lemma_remove_wf(p, us, kind, mv.from);
            assert(mv.to != mv.from);
            assert(q1.spec_type_at(mv.to) == p.spec_type_at(mv.to));
            crate::types::position::lemma_add_wf(q1, us, landed, mv.to);
            assert(after.position == q2);
            assert(q2.spec_bb(them, PieceType::King) == p.spec_bb(them, PieceType::King));
            if kind == PieceType::King {
                lemma_king_singleton_move(
                    p.spec_bb(us, PieceType::King),
                    q2.spec_bb(us, PieceType::King),
                    mv.from,
                    mv.to,
                );
            } else {
                assert(q2.spec_bb(us, PieceType::King) == p.spec_bb(us, PieceType::King));
            }
            lemma_ep_sound(b, mv, after);
        },
        MoveType::Capture | MoveType::KnightPromotionCapture | MoveType::BishopPromotionCapture
            | MoveType::RookPromotionCapture | MoveType::QueenPromotionCapture => {
            let landed = if mv.kind == MoveType::Capture {
                kind
            } else {
                spec_promoted_piece(mv.kind)->Some_0
            };
            let captured = p.spec_type_at(mv.to)->Some_0;
            crate::types::position::lemma_at_to_bb(p, mv.to);
            let q1 = p.spec_remove(us, kind, mv.from);
            let q2 = q1.spec_remove(them, captured, mv.to);
            let q3 = q2.spec_add(us, landed, mv.to);
            crate::types::position::lemma_remove_wf(p, us, kind, mv.from);
            assert(bit(q1.spec_bb(them, captured), mv.to));
            crate::types::position::lemma_remove_wf(q1, them, captured, mv.to);
            crate::types::position::lemma_add_wf(q2, us, landed, mv.to);
            assert(after.position == q3);
            // Kings: the captured piece is no king, so only the mover's
            // own king board can change, and only when the king moves.
            assert(q2.spec_bb(us, PieceType::King) == q1.spec_bb(us, PieceType::King));
            assert(q2.spec_bb(them, PieceType::King) == q1.spec_bb(them, PieceType::King));
            assert(q3.spec_bb(them, PieceType::King) == p.spec_bb(them, PieceType::King));
            if kind == PieceType::King {
                lemma_king_singleton_move(
                    p.spec_bb(us, PieceType::King),
                    q3.spec_bb(us, PieceType::King),
                    mv.from,
                    mv.to,
                );
            } else {
                assert(q3.spec_bb(us, PieceType::King) == p.spec_bb(us, PieceType::King));
            }
            lemma_ep_sound(b, mv, after);
        },
        MoveType::EnPassantCapture => {
            let victim = spec_ep_victim(us, mv.to);
            crate::types::position::lemma_at_to_bb(p, victim);
            let q1 = p.spec_remove(us, kind, mv.from);
            let q2 = q1.spec_remove(them, PieceType::Pawn, victim);
            let q3 = q2.spec_add(us, kind, mv.to);
            assert(mv.from != victim);
            crate::types::position::lemma_remove_wf(p, us, kind, mv.from);
            assert(bit(q1.spec_bb(them, PieceType::Pawn), victim));
            crate::types::position::lemma_remove_wf(q1, them, PieceType::Pawn, victim);
            assert(mv.to != mv.from && mv.to != victim);
            assert(q1.spec_type_at(mv.to) == p.spec_type_at(mv.to));
            assert(q2.spec_type_at(mv.to) == q1.spec_type_at(mv.to));
            crate::types::position::lemma_add_wf(q2, us, kind, mv.to);
            assert(after.position == q3);
            assert(q2.spec_bb(us, PieceType::King) == q1.spec_bb(us, PieceType::King));
            assert(q2.spec_bb(them, PieceType::King) == q1.spec_bb(them, PieceType::King));
            assert(q3.spec_bb(us, PieceType::King) == p.spec_bb(us, PieceType::King));
            assert(q3.spec_bb(them, PieceType::King) == p.spec_bb(them, PieceType::King));
            lemma_ep_sound(b, mv, after);
        },
        MoveType::CastleKing | MoveType::CastleQueen => {
            let base: u64 = if us == Colour::White {
                0
            } else {
                56
            };
            let (rook_from, king_to, rook_to) = if mv.kind == MoveType::CastleKing {
                (((base + 7) as u64), ((base + 6) as u64), ((base + 5) as u64))
            } else {
                (base, ((base + 2) as u64), ((base + 3) as u64))
            };
            crate::types::position::lemma_at_to_bb(p, rook_from);
            let q1 = p.spec_remove(us, PieceType::King, (base + 4) as u64);
            let q2 = q1.spec_remove(us, PieceType::Rook, rook_from);
            let q3 = q2.spec_add(us, PieceType::King, king_to);
            let q4 = q3.spec_add(us, PieceType::Rook, rook_to);
            crate::types::position::lemma_remove_wf(p, us, PieceType::King, (base + 4) as u64);
            assert(bit(q1.spec_bb(us, PieceType::Rook), rook_from));
            crate::types::position::lemma_remove_wf(q1, us, PieceType::Rook, rook_from);
            assert(king_to != (base + 4) as u64 && king_to != rook_from && rook_to != (base
                + 4) as u64 && rook_to != rook_from && rook_to != king_to);
            assert(q1.spec_type_at(king_to) == p.spec_type_at(king_to));
            assert(q2.spec_type_at(king_to) == q1.spec_type_at(king_to));
            assert(q1.spec_type_at(rook_to) == p.spec_type_at(rook_to));
            assert(q2.spec_type_at(rook_to) == q1.spec_type_at(rook_to));
            assert(q2.spec_colour_at(king_to) is None);
            crate::types::position::lemma_add_wf(q2, us, PieceType::King, king_to);
            assert(q3.spec_type_at(rook_to) == q2.spec_type_at(rook_to));
            assert(q3.spec_colour_at(rook_to) is None);
            crate::types::position::lemma_add_wf(q3, us, PieceType::Rook, rook_to);
            assert(after.position == q4);
            // The mover's king board goes from its singleton through the
            // empty board to the singleton of the landing square.
            let king_bb = p.spec_bb(us, PieceType::King);
            let sk = choose|sk: u64| sk < 64 && king_bb == 1u64 << sk;
            assert(sk == (base + 4) as u64) by {
                crate::bits::lemma_single_bit(sk, (base + 4) as u64);
            }
            assert(q1.spec_bb(us, PieceType::King) == king_bb ^ (1u64 << (base + 4) as u64));
            crate::bits::lemma_xor_self(1u64 << (base + 4) as u64);
            assert(q2.spec_bb(us, PieceType::King) == 0);
            assert(q3.spec_bb(us, PieceType::King) == 0u64 | (1u64 << king_to));
            crate::bits::lemma_or_zero(1u64 << king_to);
            assert(q4.spec_bb(us, PieceType::King) == 1u64 << king_to);
            assert(crate::types::position::one_king(after.position, us));
            assert(q4.spec_bb(them, PieceType::King) == p.spec_bb(them, PieceType::King));
            assert(crate::types::position::one_king(after.position, them));
            lemma_ep_sound(b, mv, after);
        },
        MoveType::Null => {},
    }
}

/// A singleton board with its one bit moved from `from` to `to` is
/// again a singleton.
proof fn lemma_king_singleton_move(old_bb: u64, new_bb: u64, from: u64, to: u64)
    requires
        from < 64,
        to < 64,
        exists|s: u64| s < 64 && old_bb == 1u64 << s,
        bit(old_bb, from),
        new_bb == (old_bb ^ (1u64 << from)) | (1u64 << to),
    ensures
        new_bb == 1u64 << to,
        exists|s: u64| s < 64 && new_bb == 1u64 << s,
{
    let sk = choose|sk: u64| sk < 64 && old_bb == 1u64 << sk;
    assert(sk == from) by {
        crate::bits::lemma_single_bit(sk, from);
    }
    crate::bits::lemma_xor_self(1u64 << from);
    crate::bits::lemma_or_zero(1u64 << to);
    assert(bit(new_bb, to)) by {
        crate::bits::lemma_single_bit(to, to);
    }
}

/// The en-passant field written by the transition is sound for the new
/// side to move.
proof fn lemma_ep_sound(b: BoardState, mv: Move, after: BoardState)
    requires
        spec_move_applies(b, mv),
        mv.kind != MoveType::Null,
        after == spec_make_move(b, mv),
        after.position.spec_type_at(mv.to) == Some(
            if is_promotion_kind(mv.kind) {
                spec_promoted_piece(mv.kind)->Some_0
            } else {
                b.position.spec_type_at(mv.from)->Some_0
            },
        ),
        after.position.spec_colour_at(mv.to) == Some(b.active_player),
    ensures
        ep_wf(after),
{
    let us = b.active_player;
    let kind = b.position.spec_type_at(mv.from)->Some_0;
    if after.en_passant is Some {
        let t = after.en_passant->0;
        assert(kind == PieceType::Pawn);
        if us == Colour::White {
            assert(mv.to == mv.from + 16 && t == mv.from + 8 && mv.from / 8 == 1);
            assert(t / 8 == 2) by (nonlinear_arith)
                requires
                    mv.from / 8 == 1 && t == mv.from + 8 && mv.from < 64,
            ;
        } else {
            assert(mv.from == mv.to + 16 && t == mv.to + 8 && mv.from / 8 == 6);
            assert(t / 8 == 5) by (nonlinear_arith)
                requires
                    mv.from / 8 == 6 && mv.from == mv.to + 16 && t == mv.to + 8 && mv.from < 64,
            ;
        }
    }
}

impl BoardState {
    /// The piece on a square with its colour; Ok(None) on an empty
    /// square, and an invariant-violation error when the kind boards and
    /// the colour boards disagree about the square.
    pub fn at(&self, square: SquareIndex) -> (r: Result<
        Option<(PieceType, Colour)>,
        EngineError,
    >)
        requires
            square < 64,
        ensures
            match (self.position.spec_type_at(square), self.position.spec_colour_at(square)) {
                (Some(p), Some(c)) => r == Ok::<_, EngineError>(Some((p, c))),
                (None, None) => r == Ok::<_, EngineError>(None::<(PieceType, Colour)>),
                _ => r is Err,
            },
    {
        let piece = self.position.type_at(square);
        let colour = self.position.colour_at(square);
        match (piece, colour) {
            (Some(p), Some(c)) => Ok(Some((p, c))),
            (None, None) => Ok(None),
            _ => Err(EngineError::new("colour and piece bitboard sets disagree")),
        }
    }

    /// An independent successor state: the board with the move applied.
    pub fn clone_with_move(&self, mv: &Move) -> (r: Result<BoardState, EngineError>)
        ensures
            mv.kind == MoveType::Null ==> r == Ok::<_, EngineError>(*self),
            mv.kind != MoveType::Null && spec_move_applies(*self, *mv) ==> r == Ok::<
                _,
                EngineError,
            >(spec_make_move(*self, *mv)),
            r is Err <==> mv.kind != MoveType::Null && !spec_move_applies(*self, *mv),
    {
        let mut new_pos: BoardState = *self;
        match new_pos.make_move(mv) {
            Ok(_) => Ok(new_pos),
            Err(e) => Err(e),
        }
    }

    /// Applies a move in place. A move that does not apply — no own
    /// piece on the source square, or a target at odds with the kind —
    /// is an error and leaves the state unchanged.
    pub fn make_move(&mut self, mv: &Move) -> (r: Result<(), EngineError>)
        ensures
            mv.kind == MoveType::Null ==> r is Ok && *final(self) == *old(self),
            mv.kind != MoveType::Null && spec_move_applies(*old(self), *mv) ==> r is Ok
                && *final(self) == spec_make_move(*old(self), *mv),
            r is Err <==> mv.kind != MoveType::Null && !spec_move_applies(*old(self), *mv),
            r is Err ==> *final(self) == *old(self),
    {
        if mv.kind == MoveType::Null {
            return Ok(());
        }
        if mv.from >= 64 || mv.to >= 64 {
            return Err(EngineError::new("move square off the board"));
        }
        let us: Colour = self.active_player;
        let them: Colour = us.opposite();
        let Some(kind) = self.position.type_at(mv.from) else {
            return Err(EngineError::new("no piece on the source square"));
        };
        if self.position.colour_at(mv.from) != Some(us) {
            return Err(EngineError::new("the source square holds no piece of the side to move"));
        }
        if kind == PieceType::Pawn && us == Colour::White && mv.to == mv.from + 16 && mv.from / 8
            != 1 {
            return Err(EngineError::new("double pawn push off the home rank"));
        }
        if kind == PieceType::Pawn && us == Colour::Black && mv.from == mv.to + 16 && mv.from / 8
            != 6 {
            return Err(EngineError::new("double pawn push off the home rank"));
        }
        if mv.is_promotion() && (if us == Colour::White {
            mv.from / 8 != 6
        } else {
            mv.from / 8 != 1
        }) {
            return Err(EngineError::new("promotion off the seventh rank"));
        }

        // Validate the target against the kind before touching the state.
        match mv.kind {
            MoveType::Quiet => {
                if self.position.colour_at(mv.to).is_some() {
                    return Err(EngineError::new("quiet move onto an occupied square"));
                }
            },
            MoveType::Capture => {
                if self.position.colour_at(mv.to) != Some(them) {
                    return Err(EngineError::new("capture without an enemy piece on the target"));
                }
                match self.position.type_at(mv.to) {
                    None => {
                        return Err(EngineError::new("no piece on the capture target"));
                    },
                    Some(PieceType::King) => {
                        return Err(EngineError::new("a king can never be captured"));
                    },
                    _ => {},
                }
            },
            MoveType::EnPassantCapture => {
                if kind != PieceType::Pawn {
                    return Err(EngineError::new("en passant by a piece that is no pawn"));
                }
                if self.en_passant != Some(mv.to) {
                    return Err(EngineError::new("en passant without the matching target square"));
                }
                if self.position.colour_at(mv.to).is_some() {
                    return Err(EngineError::new("en passant onto an occupied square"));
                }
                if us == Colour::White && mv.to < 8 || us != Colour::White && mv.to >= 56 {
                    return Err(EngineError::new("en passant target on a rim rank"));
                }
                let victim = if us == Colour::White {
                    mv.to - 8
                } else {
                    mv.to + 8
                };
                if self.position.type_at(victim) != Some(PieceType::Pawn) || self.position
                    .colour_at(victim) != Some(them) {
                    return Err(EngineError::new("no enemy pawn to take en passant"));
                }
            },
            MoveType::KnightPromotion | MoveType::BishopPromotion | MoveType::RookPromotion
                | MoveType::QueenPromotion => {
                if kind != PieceType::Pawn {
                    return Err(EngineError::new("promotion of a piece that is no pawn"));
                }
                if self.position.colour_at(mv.to).is_some() {
                    return Err(EngineError::new("promotion push onto an occupied square"));
                }
            },
            MoveType::KnightPromotionCapture | MoveType::BishopPromotionCapture
                | MoveType::RookPromotionCapture | MoveType::QueenPromotionCapture => {
                if kind != PieceType::Pawn {
                    return Err(EngineError::new("promotion of a piece that is no pawn"));
                }
                if self.position.colour_at(mv.to) != Some(them) {
                    return Err(EngineError::new("capture without an enemy piece on the target"));
                }
                match self.position.type_at(mv.to) {
                    None => {
                        return Err(EngineError::new("no piece on the capture target"));
                    },
                    Some(PieceType::King) => {
                        return Err(EngineError::new("a king can never be captured"));
                    },
                    _ => {},
                }
            },
            MoveType::CastleKing | MoveType::CastleQueen => {
                let base: u64 = if us == Colour::White {
                    0
                } else {
                    56
                };
                let (rook_from, king_to, mid) = if mv.kind == MoveType::CastleKing {
                    (base + 7, base + 6, base + 5)
                } else {
                    (base, base + 2, base + 3)
                };
                if mv.from != base + 4 || mv.to != king_to {
                    return Err(EngineError::new("castle move with unexpected squares"));
                }
                if self.position.type_at(base + 4) != Some(PieceType::King) {
                    return Err(EngineError::new("castle without the king on its square"));
                }
                if self.position.type_at(rook_from) != Some(PieceType::Rook) || self.position
                    .colour_at(rook_from) != Some(us) {
                    return Err(EngineError::new("castle without the rook on its square"));
                }
                if self.position.colour_at(mid).is_some() || self.position.colour_at(
                    king_to,
                ).is_some() {
                    return Err(EngineError::new("castle through occupied squares"));
                }
            },
            MoveType::Null => {},
        }

        // Castling-right side effects of the mover.
        if kind == PieceType::King {
            self.move_king(us);
        }
        if kind == PieceType::Rook {
            self.make_rook_move(mv);
        }

        // En-passant square: set only after a double pawn push.
        if kind == PieceType::Pawn && us == Colour::White && mv.to == mv.from + 16 {
            self.en_passant = Some(mv.from + 8);
        } else if kind == PieceType::Pawn && us == Colour::Black && mv.from == mv.to + 16 {
            self.en_passant = Some(mv.to + 8);
        } else {
            self.en_passant = None;
        }

        // The geometry of the move.
        match mv.kind {
            MoveType::Quiet => {
                self.position.remove_piece(us, kind, mv.from);
                self.position.add_piece(us, kind, mv.to);
            },
            MoveType::Capture => {
                self.capture(mv, us);
            },
            MoveType::EnPassantCapture => {
                let victim = if us == Colour::White {
                    mv.to - 8
                } else {
                    mv.to + 8
                };
                self.position.remove_piece(us, kind, mv.from);
                self.position.remove_piece(them, PieceType::Pawn, victim);
                self.position.add_piece(us, kind, mv.to);
            },
            MoveType::KnightPromotion | MoveType::BishopPromotion | MoveType::RookPromotion
                | MoveType::QueenPromotion => {
                self.position.remove_piece(us, kind, mv.from);
                let add = mv.promoted_piece().unwrap();
                self.position.add_piece(us, add, mv.to);
            },
            MoveType::KnightPromotionCapture | MoveType::BishopPromotionCapture
                | MoveType::RookPromotionCapture | MoveType::QueenPromotionCapture => {
                let captured: PieceType = self.position.type_at(mv.to).unwrap();
                if captured == PieceType::Rook {
                    self.capture_rook(mv, us);
                }
                self.position.remove_piece(us, kind, mv.from);
                self.position.remove_piece(them, captured, mv.to);
                let add = mv.promoted_piece().unwrap();
                self.position.add_piece(us, add, mv.to);
            },
            MoveType::CastleKing | MoveType::CastleQueen => {
                self.position.castle(mv.kind, us);
                self.move_king(us);
            },
            MoveType::Null => {},
        }

        // Clocks: the half-move clock resets on pawn moves and captures;
        // the full-move number grows once Black has moved.
        let capturing = match mv.kind {
            MoveType::Capture | MoveType::EnPassantCapture | MoveType::KnightPromotionCapture
                | MoveType::BishopPromotionCapture | MoveType::RookPromotionCapture
                | MoveType::QueenPromotionCapture => true,
            _ => false,
        };
        if kind == PieceType::Pawn || capturing {
            self.half_moves = 0;
        } else if self.half_moves < i32::MAX {
            self.half_moves = self.half_moves + 1;
        }
        if us == Colour::Black && self.full_moves < i32::MAX {
            self.full_moves = self.full_moves + 1;
        }

        self.switch();
        Ok(())
    }

    /// Withdraws the matching castling right when a rook leaves one of
    /// its starting corners.
    fn make_rook_move(&mut self, mv: &Move)
        ensures
            final(self).castling_rights == spec_rights_after_own(
                old(self).castling_rights,
                old(self).active_player,
                PieceType::Rook,
                *mv,
            ),
            final(self).position == old(self).position,
            final(self).active_player == old(self).active_player,
            final(self).en_passant == old(self).en_passant,
            final(self).half_moves == old(self).half_moves,
            final(self).full_moves == old(self).full_moves,
    {
        if self.active_player == Colour::White {
            if mv.from == 7 {
                self.castling_rights = CastlingRights { white_king: false, ..self.castling_rights };
            } else if mv.from == 0 {
                self.castling_rights = CastlingRights {
                    white_queen: false,
                    ..self.castling_rights
                };
            }
        } else {
            if mv.from == 63 {
                self.castling_rights = CastlingRights { black_king: false, ..self.castling_rights };
            } else if mv.from == 56 {
                self.castling_rights = CastlingRights {
                    black_queen: false,
                    ..self.castling_rights
                };
            }
        }
    }

    /// Applies a plain capture, withdrawing the matching enemy castling
    /// right when the captured piece is a rook on its starting corner.
    fn capture(&mut self, mv: &Move, active: Colour)
        requires
            mv.from < 64,
            mv.to < 64,
            old(self).position.spec_type_at(mv.to) is Some,
            old(self).position.spec_type_at(mv.from) is Some,
        ensures
            final(self).position == old(self).position.spec_capture(*mv, active),
            final(self).castling_rights == spec_rights_after_capture(
                old(self).castling_rights,
                active,
                old(self).position.spec_type_at(mv.to) == Some(PieceType::Rook),
                mv.to,
            ),
            final(self).active_player == old(self).active_player,
            final(self).en_passant == old(self).en_passant,
            final(self).half_moves == old(self).half_moves,
            final(self).full_moves == old(self).full_moves,
    {
        let captured: PieceType = self.position.type_at(mv.to).unwrap();
        if captured == PieceType::Rook {
            self.capture_rook(mv, active);
        }
        self.position.capture(mv, active);
    }

    /// Withdraws the enemy castling right matching a rook captured on
    /// its starting corner.
    fn capture_rook(&mut self, mv: &Move, active: Colour)
        ensures
            final(self).castling_rights == spec_rights_after_capture(
                old(self).castling_rights,
                active,
                true,
                mv.to,
            ),
            final(self).position == old(self).position,
            final(self).active_player == old(self).active_player,
            final(self).en_passant == old(self).en_passant,
            final(self).half_moves == old(self).half_moves,
            final(self).full_moves == old(self).full_moves,
    {
        match active {
            Colour::White => {
                if mv.to == 63 {
                    self.castling_rights = CastlingRights {
                        black_king: false,
                        ..self.castling_rights
                    };
                } else if mv.to == 56 {
                    self.castling_rights = CastlingRights {
                        black_queen: false,
                        ..self.castling_rights
                    };
                }
            },
            Colour::Black => {
                if mv.to == 7 {
                    self.castling_rights = CastlingRights {
                        white_king: false,
                        ..self.castling_rights
                    };
                } else if mv.to == 0 {
                    self.castling_rights = CastlingRights {
                        white_queen: false,
                        ..self.castling_rights
                    };
                }
            },
        }
    }

    /// Withdraws both castling rights of the side whose king moves.
    fn move_king(&mut self, active: Colour)
        ensures
            final(self).castling_rights == old(self).castling_rights.spec_clear_side(active),
            final(self).position == old(self).position,
            final(self).active_player == old(self).active_player,
            final(self).en_passant == old(self).en_passant,
            final(self).half_moves == old(self).half_moves,
            final(self).full_moves == old(self).full_moves,
    {
        match active {
            Colour::White => {
                self.castling_rights = CastlingRights {
                    white_king: false,
                    white_queen: false,
                    ..self.castling_rights
                };
            },
            Colour::Black => {
                self.castling_rights = CastlingRights {
                    black_king: false,
                    black_queen: false,
                    ..self.castling_rights
                };
            },
        }
    }

    /// Hands the move to the other side.
    fn switch(&mut self)
        ensures
            final(self).active_player == old(self).active_player.spec_opposite(),
            final(self).position == old(self).position,
            final(self).castling_rights == old(self).castling_rights,
            final(self).en_passant == old(self).en_passant,
            final(self).half_moves == old(self).half_moves,
            final(self).full_moves == old(self).full_moves,
    {
        self.active_player = self.active_player.opposite();
    }
}

impl Default for BoardState {
    /// An empty board, White to move, no rights, no en-passant square.
    fn default() -> (r: Self)
        ensures
            r.position == Position::default_spec(),
            r.active_player == Colour::White,
            r.en_passant is None,
            r.castling_rights == CastlingRights::none(),
            r.half_moves == 0,
            r.full_moves == 0,
    {
        BoardState {
            position: Default::default(),
            castling_rights: CastlingRights {
                white_king: false,
                white_queen: false,
                black_king: false,
                black_queen: false,
            },
            en_passant: None,
            active_player: Colour::White,
            half_moves: 0,
            full_moves: 0,
        }
    }
}

} // verus!
