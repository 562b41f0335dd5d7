//! Moves: a source square, a destination square, and a kind that tells the
//! board how to apply the move.

use vstd::prelude::*;

use crate::bits::{bit, low_bit, lemma_clear_lowest};
use crate::types::piece_type::PieceType;
use crate::types::square::{SquareIndex, SquareIndexMethods, algebraic_chars};
use crate::types::{EAST, NORTH, SOUTH, WEST};

verus! {

/// A move in coordinate form.
#[derive(Debug, Clone, Copy, PartialEq, Eq, Structural)]
pub struct Move {
    pub from: SquareIndex,
    pub to: SquareIndex,
    pub kind: MoveType,
}

/// What a move does, beyond moving one piece from `from` to `to`.
#[derive(Debug, Clone, Copy, PartialEq, Eq, Structural)]
pub enum MoveType {
    Capture,
    EnPassantCapture,
    KnightPromotion,
    BishopPromotion,
    RookPromotion,
    QueenPromotion,
    KnightPromotionCapture,
    BishopPromotionCapture,
    RookPromotionCapture,
    QueenPromotionCapture,
    Quiet,
    CastleKing,
    CastleQueen,
    Null,
}

/// Whether a promotion arrives by capture or by push.
#[derive(Debug, Clone, Copy, PartialEq, Eq, Structural)]
pub enum PromotionType {
    Capture,
    Push,
}

/// A kind that promotes the pawn and captures.
pub open spec fn is_promotion_capture_kind(k: MoveType) -> bool {
    k == MoveType::KnightPromotionCapture || k == MoveType::BishopPromotionCapture || k
        == MoveType::RookPromotionCapture || k == MoveType::QueenPromotionCapture
}

/// A kind that promotes the pawn, by push or by capture.
pub open spec fn is_promotion_kind(k: MoveType) -> bool {
    is_promotion_capture_kind(k) || k == MoveType::KnightPromotion || k == MoveType::BishopPromotion
        || k == MoveType::RookPromotion || k == MoveType::QueenPromotion
}

/// A castling kind.
pub open spec fn is_castle_kind(k: MoveType) -> bool {
    k == MoveType::CastleKing || k == MoveType::CastleQueen
}

/// The piece a promoting kind delivers; None for every other kind.
pub open spec fn spec_promoted_piece(k: MoveType) -> Option<PieceType> {
    match k {
        MoveType::RookPromotionCapture | MoveType::RookPromotion => Some(PieceType::Rook),
        MoveType::KnightPromotionCapture | MoveType::KnightPromotion => Some(PieceType::Knight),
        MoveType::BishopPromotionCapture | MoveType::BishopPromotion => Some(PieceType::Bishop),
        MoveType::QueenPromotionCapture | MoveType::QueenPromotion => Some(PieceType::Queen),
        _ => None,
    }
}

impl Move {
    /// A do-nothing move.
    pub fn null() -> (r: Move)
        ensures
            r.from == 0 && r.to == 0 && r.kind == MoveType::Null,
    {
        Move { from: 0, to: 0, kind: MoveType::Null }
    }

    /// Whether the move promotes by capture.
    pub fn is_promotion_capture(&self) -> (r: bool)
        ensures
            r == is_promotion_capture_kind(self.kind),
    {
        match self.kind {
            MoveType::KnightPromotionCapture
            | MoveType::BishopPromotionCapture
            | MoveType::RookPromotionCapture
            | MoveType::QueenPromotionCapture => true,
            _ => false,
        }
    }

    /// Whether the move promotes, by push or by capture.
    pub fn is_promotion(&self) -> (r: bool)
        ensures
            r == is_promotion_kind(self.kind),
    {
        match self.kind {
            MoveType::KnightPromotion
            | MoveType::BishopPromotion
            | MoveType::RookPromotion
            | MoveType::QueenPromotion
            | MoveType::KnightPromotionCapture
            | MoveType::BishopPromotionCapture
            | MoveType::RookPromotionCapture
            | MoveType::QueenPromotionCapture => true,
            _ => false,
        }
    }

    /// Whether the move castles.
    pub fn is_castle(&self) -> (r: bool)
        ensures
            r == is_castle_kind(self.kind),
    {
        self.kind == MoveType::CastleKing || self.kind == MoveType::CastleQueen
    }

    /// The piece a promotion delivers; None when the move is no promotion.
    pub fn promoted_piece(&self) -> (r: Option<PieceType>)
        ensures
            r == spec_promoted_piece(self.kind),
    {
        match self.kind {
            MoveType::RookPromotionCapture | MoveType::RookPromotion => Some(PieceType::Rook),
            MoveType::KnightPromotionCapture | MoveType::KnightPromotion => Some(PieceType::Knight),
            MoveType::BishopPromotionCapture | MoveType::BishopPromotion => Some(PieceType::Bishop),
            MoveType::QueenPromotionCapture | MoveType::QueenPromotion => Some(PieceType::Queen),
            _ => None,
        }
    }

    /// The move in long algebraic notation: source square then destination
    /// square.
    pub fn to_notation(&self) -> (r: String)
        requires
            self.from < 64,
            self.to < 64,
        ensures
            r@ == algebraic_chars(self.from) + algebraic_chars(self.to),
    {
        let mut notation = self.from.to_algebraic();
        let to_part = self.to.to_algebraic();
        notation.append(to_part.as_str());
        notation
    }
}

impl MoveType {
    /// The eight king step offsets, in the order the king table is built.
    pub fn king_iter() -> (r: Vec<i8>)
        ensures
            r@ == king_steps(),
    {
        let steps: Vec<i8> = vec![
            WEST,
            NORTH + WEST,
            NORTH,
            NORTH + EAST,
            EAST,
            SOUTH + EAST,
            SOUTH,
            SOUTH + WEST,
        ];
        proof {
            assert(steps@ =~= king_steps());
        }
        steps
    }

    /// The four promotion kinds a pawn push can deliver, knight first.
    pub fn promotion_iter() -> (r: Vec<MoveType>)
        ensures
            r@ == promotion_kinds(),
    {
        let kinds: Vec<MoveType> = vec![
            MoveType::KnightPromotion,
            MoveType::BishopPromotion,
            MoveType::RookPromotion,
            MoveType::QueenPromotion,
        ];
        proof {
            assert(kinds@ =~= promotion_kinds());
        }
        kinds
    }

    /// The four promotion kinds a pawn capture can deliver, knight first.
    pub fn promotion_capture_iter() -> (r: Vec<MoveType>)
        ensures
            r@ == promotion_capture_kinds(),
    {
        let kinds: Vec<MoveType> = vec![
            MoveType::KnightPromotionCapture,
            MoveType::BishopPromotionCapture,
            MoveType::RookPromotionCapture,
            MoveType::QueenPromotionCapture,
        ];
        proof {
            assert(kinds@ =~= promotion_capture_kinds());
        }
        kinds
    }
}

/// The eight king step offsets, in table-build order.
pub open spec fn king_steps() -> Seq<i8> {
    seq![
        WEST,
        (NORTH + WEST) as i8,
        NORTH,
        (NORTH + EAST) as i8,
        EAST,
        (SOUTH + EAST) as i8,
        SOUTH,
        (SOUTH + WEST) as i8,
    ]
}

/// The four push-promotion kinds, knight first.
pub open spec fn promotion_kinds() -> Seq<MoveType> {
    seq![
        MoveType::KnightPromotion,
        MoveType::BishopPromotion,
        MoveType::RookPromotion,
        MoveType::QueenPromotion,
    ]
}

/// The four capture-promotion kinds, knight first.
pub open spec fn promotion_capture_kinds() -> Seq<MoveType> {
    seq![
        MoveType::KnightPromotionCapture,
        MoveType::BishopPromotionCapture,
        MoveType::RookPromotionCapture,
        MoveType::QueenPromotionCapture,
    ]
}

/// The moves read off a destination board: one move per set bit, lowest
/// square first, all sharing the source square and the kind.
pub open spec fn extracted_moves(from: SquareIndex, bb: u64, kind: MoveType) -> Seq<Move>
    decreases bb,
        via extracted_moves_decreases
{
    if bb == 0 {
        Seq::empty()
    } else {
        seq![Move { from, to: low_bit(bb), kind }] + extracted_moves(
            from,
            bb & ((bb - 1) as u64),
            kind,
        )
    }
}

#[via_fn]
proof fn extracted_moves_decreases(from: SquareIndex, bb: u64, kind: MoveType) {
    if bb != 0 {
        lemma_clear_lowest(bb);
    }
}

/// Clearing the lowest set bit lowers the population count by one.
pub proof fn lemma_pcount_clear_lowest(b: u64)
    requires
        b != 0,
    ensures
        crate::bits::pcount(b & ((b - 1) as u64)) + 1 == crate::bits::pcount(b),
{
    lemma_clear_lowest(b);
    crate::bits::lemma_low_bit(b);
    lemma_pcount_drop_bit(b, low_bit(b));
}

/// Dropping one set bit lowers the population count by one.
pub proof fn lemma_pcount_drop_bit(b: u64, t: u64)
    requires
        t < 64,
        bit(b, t),
    ensures
        crate::bits::pcount(b ^ (1u64 << t)) + 1 == crate::bits::pcount(b),
    decreases t,
{
    let c = b ^ (1u64 << t);
    assert(b != 0) by {
        crate::bits::lemma_zero_has_no_bit(t);
    }
    assert(crate::bits::pcount(c) == c % 2 + crate::bits::pcount(c / 2)) by {
        if c == 0 {
            assert(crate::bits::pcount(0u64) == 0);
        }
    }
    if t == 0 {
        assert(b % 2 == 1 && c % 2 == 0 && c / 2 == b / 2) by (bit_vector)
            requires
                bit(b, 0) && c == b ^ (1u64 << 0u64),
        ;
    } else {
        let v = (t - 1) as u64;
        assert(bit(b / 2, v) && c / 2 == (b / 2) ^ (1u64 << v) && c % 2 == b % 2) by (bit_vector)
            requires
                0 < t < 64 && v + 1 == t && bit(b, t) && c == b ^ (1u64 << t),
        ;
        lemma_pcount_drop_bit(b / 2, v);
    }
}

} // verus!
