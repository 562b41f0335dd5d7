//! Piece placement: six per-kind bitboards and two per-colour bitboards.
//! A square holds piece `p` of colour `c` iff both the kind board and the
//! colour board have its bit set.

use vstd::prelude::*;

use crate::bits::{bit, lemma_bit_ops, lemma_single_bit, lemma_bit_ext, pcount};
use crate::types::bitboard::BB;
use crate::types::chess_move::{Move, MoveType};
use crate::types::colour::Colour;
use crate::types::piece_type::PieceType;
use crate::types::square::SquareIndex;

verus! {

/// Piece placement as twelve logical bitboards, stored as six kind
/// boards and two colour boards.
#[derive(Clone, Copy, PartialEq, Eq, Structural, Debug)]
pub struct Position {
    pub pawns: BB,
    pub knights: BB,
    pub bishops: BB,
    pub rooks: BB,
    pub queens: BB,
    pub kings: BB,
    pub whites: BB,
    pub blacks: BB,
}

impl Position {
    /// The board of one piece kind, either colour.
    pub open spec fn piece_bbs(self, p: PieceType) -> u64 {
        match p {
            PieceType::Pawn => self.pawns,
            PieceType::Knight => self.knights,
            PieceType::Bishop => self.bishops,
            PieceType::Rook => self.rooks,
            PieceType::Queen => self.queens,
            PieceType::King => self.kings,
        }
    }

    /// The board of one colour, any piece kind.
    pub open spec fn colour_bbs(self, c: Colour) -> u64 {
        match c {
            Colour::White => self.whites,
            Colour::Black => self.blacks,
        }
    }

    /// The board of one colour-and-kind pair.
    pub open spec fn spec_bb(self, c: Colour, p: PieceType) -> u64 {
        self.piece_bbs(p) & self.colour_bbs(c)
    }

    /// Every occupied square.
    pub open spec fn occ(self) -> u64 {
        self.whites | self.blacks
    }

    /// How many of the six kind boards hold the square.
    pub open spec fn piece_count_at(self, i: u64) -> int {
        (if bit(self.pawns, i) {
            1int
        } else {
            0int
        }) + (if bit(self.knights, i) {
            1int
        } else {
            0int
        }) + (if bit(self.bishops, i) {
            1int
        } else {
            0int
        }) + (if bit(self.rooks, i) {
            1int
        } else {
            0int
        }) + (if bit(self.queens, i) {
            1int
        } else {
            0int
        }) + (if bit(self.kings, i) {
            1int
        } else {
            0int
        })
    }

    /// How many of the two colour boards hold the square.
    pub open spec fn colour_count_at(self, i: u64) -> int {
        (if bit(self.whites, i) {
            1int
        } else {
            0int
        }) + (if bit(self.blacks, i) {
            1int
        } else {
            0int
        })
    }

    /// Well-formed placement: on every square the kind boards and the
    /// colour boards agree, and no square holds two pieces. This gives
    /// the pairwise disjointness of the six kind boards and makes their
    /// union equal the union of the two colour boards.
    pub open spec fn wf(self) -> bool {
        forall|i: u64|
            i < 64 ==> #[trigger] self.piece_count_at(i) == self.colour_count_at(i)
                && self.piece_count_at(i) <= 1
    }

    /// The kind found at a square, the pawn board probed first; None on
    /// an empty square.
    pub open spec fn spec_type_at(self, sq: u64) -> Option<PieceType> {
        if bit(self.pawns, sq) {
            Some(PieceType::Pawn)
        } else if bit(self.knights, sq) {
            Some(PieceType::Knight)
        } else if bit(self.bishops, sq) {
            Some(PieceType::Bishop)
        } else if bit(self.rooks, sq) {
            Some(PieceType::Rook)
        } else if bit(self.queens, sq) {
            Some(PieceType::Queen)
        } else if bit(self.kings, sq) {
            Some(PieceType::King)
        } else {
            None
        }
    }

    /// The colour found at a square, White probed first.
    pub open spec fn spec_colour_at(self, sq: u64) -> Option<Colour> {
        if bit(self.whites, sq) {
            Some(Colour::White)
        } else if bit(self.blacks, sq) {
            Some(Colour::Black)
        } else {
            None
        }
    }

    /// Placement after setting the square's bit in one kind board and
    /// one colour board.
    pub open spec fn spec_add(self, c: Colour, p: PieceType, sq: u64) -> Position {
        let m = 1u64 << sq;
        let with_piece = match p {
            PieceType::Pawn => Position { pawns: self.pawns | m, ..self },
            PieceType::Knight => Position { knights: self.knights | m, ..self },
            PieceType::Bishop => Position { bishops: self.bishops | m, ..self },
            PieceType::Rook => Position { rooks: self.rooks | m, ..self },
            PieceType::Queen => Position { queens: self.queens | m, ..self },
            PieceType::King => Position { kings: self.kings | m, ..self },
        };
        match c {
            Colour::White => Position { whites: self.whites | m, ..with_piece },
            Colour::Black => Position { blacks: self.blacks | m, ..with_piece },
        }
    }

    /// Placement after flipping the square's bit in one kind board and
    /// one colour board; removal when the piece stood there.
    pub open spec fn spec_remove(self, c: Colour, p: PieceType, sq: u64) -> Position {
        let m = 1u64 << sq;
        let with_piece = match p {
            PieceType::Pawn => Position { pawns: self.pawns ^ m, ..self },
            PieceType::Knight => Position { knights: self.knights ^ m, ..self },
            PieceType::Bishop => Position { bishops: self.bishops ^ m, ..self },
            PieceType::Rook => Position { rooks: self.rooks ^ m, ..self },
            PieceType::Queen => Position { queens: self.queens ^ m, ..self },
            PieceType::King => Position { kings: self.kings ^ m, ..self },
        };
        match c {
            Colour::White => Position { whites: self.whites ^ m, ..with_piece },
            Colour::Black => Position { blacks: self.blacks ^ m, ..with_piece },
        }
    }

    /// Pieces of the given colour and kind.
    pub fn bb(&self, colour: Colour, piece: PieceType) -> (r: BB)
        ensures
            r == self.spec_bb(colour, piece),
    {
        self.bb_piece(piece) & self.bb_colour(colour)
    }

    /// Pieces of the given colour.
    pub fn bb_colour(&self, colour: Colour) -> (r: BB)
        ensures
            r == self.colour_bbs(colour),
    {
        match colour {
            Colour::White => self.whites,
            Colour::Black => self.blacks,
        }
    }

    /// Pieces of the given kind, either colour.
    pub fn bb_piece(&self, piece: PieceType) -> (r: BB)
        ensures
            r == self.piece_bbs(piece),
    {
        match piece {
            PieceType::Pawn => self.pawns,
            PieceType::Knight => self.knights,
            PieceType::Bishop => self.bishops,
            PieceType::Rook => self.rooks,
            PieceType::Queen => self.queens,
            PieceType::King => self.kings,
        }
    }

    /// Every occupied square.
    pub fn bb_all(&self) -> (r: BB)
        ensures
            r == self.occ(),
    {
        self.whites | self.blacks
    }

    /// Places a piece on an empty square: sets the bit in the kind board
    /// and the colour board.
    pub fn add_piece(&mut self, colour: Colour, piece: PieceType, square: SquareIndex)
        requires
            square < 64,
        ensures
            *final(self) == old(self).spec_add(colour, piece, square),
    {
        let m: u64 = 1u64 << square;
        match piece {
            PieceType::Pawn => {
                self.pawns = self.pawns | m;
            },
            PieceType::Knight => {
                self.knights = self.knights | m;
            },
            PieceType::Bishop => {
                self.bishops = self.bishops | m;
            },
            PieceType::Rook => {
                self.rooks = self.rooks | m;
            },
            PieceType::Queen => {
                self.queens = self.queens | m;
            },
            PieceType::King => {
                self.kings = self.kings | m;
            },
        }
        match colour {
            Colour::White => {
                self.whites = self.whites | m;
            },
            Colour::Black => {
                self.blacks = self.blacks | m;
            },
        }
    }

    /// Takes a piece off its square: flips the bit in the kind board and
    /// the colour board. The caller owes that the piece stands there;
    /// a wrong call corrupts the placement rather than failing.
    pub fn remove_piece(&mut self, colour: Colour, piece: PieceType, square: SquareIndex)
        requires
            square < 64,
        ensures
            *final(self) == old(self).spec_remove(colour, piece, square),
    {
        let m: u64 = 1u64 << square;
        match piece {
            PieceType::Pawn => {
                self.pawns = self.pawns ^ m;
            },
            PieceType::Knight => {
                self.knights = self.knights ^ m;
            },
            PieceType::Bishop => {
                self.bishops = self.bishops ^ m;
            },
            PieceType::Rook => {
                self.rooks = self.rooks ^ m;
            },
            PieceType::Queen => {
                self.queens = self.queens ^ m;
            },
            PieceType::King => {
                self.kings = self.kings ^ m;
            },
        }
        match colour {
            Colour::White => {
                self.whites = self.whites ^ m;
            },
            Colour::Black => {
                self.blacks = self.blacks ^ m;
            },
        }
    }

    /// The kind of the piece on a square, if any.
    pub fn type_at(&self, square: SquareIndex) -> (r: Option<PieceType>)
        requires
            square < 64,
        ensures
            r == self.spec_type_at(square),
    {
        let sq: u64 = 1u64 << square;
        if self.pawns & sq != 0 {
            Some(PieceType::Pawn)
        } else if self.knights & sq != 0 {
            Some(PieceType::Knight)
        } else if self.bishops & sq != 0 {
            Some(PieceType::Bishop)
        } else if self.rooks & sq != 0 {
            Some(PieceType::Rook)
        } else if self.queens & sq != 0 {
            Some(PieceType::Queen)
        } else if self.kings & sq != 0 {
            Some(PieceType::King)
        } else {
            None
        }
    }

    /// The colour of the piece on a square, if any.
    pub fn colour_at(&self, square: SquareIndex) -> (r: Option<Colour>)
        requires
            square < 64,
        ensures
            r == self.spec_colour_at(square),
    {
        let sq: u64 = 1u64 << square;
        if self.whites & sq != 0 {
            Some(Colour::White)
        } else if self.blacks & sq != 0 {
            Some(Colour::Black)
        } else {
            None
        }
    }

    /// Placement after a capture: the captured piece leaves `to`, the
    /// mover leaves `from` and lands on `to`.
    pub open spec fn spec_capture(self, mv: Move, active: Colour) -> Position {
        let captured = self.spec_type_at(mv.to)->Some_0;
        let kind = self.spec_type_at(mv.from)->Some_0;
        self.spec_remove(active, kind, mv.from).spec_remove(
            active.spec_opposite(),
            captured,
            mv.to,
        ).spec_add(active, kind, mv.to)
    }

    /// Applies a capture: removes the captured piece at `to`, removes
    /// the mover at `from`, and places the mover at `to`.
    pub fn capture(&mut self, mv: &Move, active: Colour)
        requires
            mv.from < 64,
            mv.to < 64,
            old(self).spec_type_at(mv.to) is Some,
            old(self).spec_type_at(mv.from) is Some,
        ensures
            *final(self) == old(self).spec_capture(*mv, active),
    {
        let captured: PieceType = self.type_at(mv.to).unwrap();
        let kind: PieceType = self.type_at(mv.from).unwrap();
        self.remove_piece(active, kind, mv.from);
        self.remove_piece(active.opposite(), captured, mv.to);
        self.add_piece(active, kind, mv.to);
    }

    /// Placement after castling: the king and the matching rook make
    /// their four square changes; other kinds leave the placement alone.
    pub open spec fn spec_castle(self, kind: MoveType, colour: Colour) -> Position {
        let base: u64 = if colour == Colour::White {
            0
        } else {
            56
        };
        if kind == MoveType::CastleKing {
            self.spec_remove(colour, PieceType::King, (base + 4) as u64).spec_remove(
                colour,
                PieceType::Rook,
                (base + 7) as u64,
            ).spec_add(colour, PieceType::King, (base + 6) as u64).spec_add(
                colour,
                PieceType::Rook,
                (base + 5) as u64,
            )
        } else if kind == MoveType::CastleQueen {
            self.spec_remove(colour, PieceType::King, (base + 4) as u64).spec_remove(
                colour,
                PieceType::Rook,
                base,
            ).spec_add(colour, PieceType::King, (base + 2) as u64).spec_add(
                colour,
                PieceType::Rook,
                (base + 3) as u64,
            )
        } else {
            self
        }
    }

    /// Castles: performs the four square updates for the king and the
    /// matching rook, on rank 1 for White and rank 8 for Black.
    pub fn castle(&mut self, kind: MoveType, colour: Colour)
        ensures
            *final(self) == old(self).spec_castle(kind, colour),
    {
        match kind {
            MoveType::CastleKing => self.castle_king(colour),
            MoveType::CastleQueen => self.castle_queen(colour),
            _ => {},
        }
    }

    fn castle_king(&mut self, colour: Colour)
        ensures
            *final(self) == old(self).spec_castle(MoveType::CastleKing, colour),
    {
        let base: u64 = if colour == Colour::White {
            0
        } else {
            56
        };
        self.remove_piece(colour, PieceType::King, base + 4);
        self.remove_piece(colour, PieceType::Rook, base + 7);
        self.add_piece(colour, PieceType::King, base + 6);
        self.add_piece(colour, PieceType::Rook, base + 5);
    }

    fn castle_queen(&mut self, colour: Colour)
        ensures
            *final(self) == old(self).spec_castle(MoveType::CastleQueen, colour),
    {
        let base: u64 = if colour == Colour::White {
            0
        } else {
            56
        };
        self.remove_piece(colour, PieceType::King, base + 4);
        self.remove_piece(colour, PieceType::Rook, base);
        self.add_piece(colour, PieceType::King, base + 2);
        self.add_piece(colour, PieceType::Rook, base + 3);
    }
}

impl Position {
    /// The empty placement, as a spec value.
    pub open spec fn default_spec() -> Position {
        Position {
            pawns: 0,
            knights: 0,
            bishops: 0,
            rooks: 0,
            queens: 0,
            kings: 0,
            whites: 0,
            blacks: 0,
        }
    }
}

impl Default for Position {
    /// The empty placement.
    fn default() -> (r: Self)
        ensures
            r == Position::default_spec(),
    {
        Position {
            pawns: 0,
            knights: 0,
            bishops: 0,
            rooks: 0,
            queens: 0,
            kings: 0,
            whites: 0,
            blacks: 0,
        }
    }
}


/// One side holds exactly one king: the king board of that colour is a
/// one-square set.
pub open spec fn one_king(p: Position, c: Colour) -> bool {
    exists|s: u64| s < 64 && p.spec_bb(c, PieceType::King) == 1u64 << s
}

/// Adding a piece to an empty square keeps the placement well-formed
/// and changes exactly the one colour-and-kind board.
pub proof fn lemma_add_wf(p: Position, c: Colour, pt: PieceType, sq: u64)
    requires
        p.wf(),
        sq < 64,
        p.spec_colour_at(sq) is None,
    ensures
        ({
            let q = p.spec_add(c, pt, sq);
            &&& q.wf()
            &&& q.occ() == p.occ() | (1u64 << sq)
            &&& forall|c2: Colour, p2: PieceType|
                #[trigger] q.spec_bb(c2, p2) == if c2 == c && p2 == pt {
                    p.spec_bb(c2, p2) | (1u64 << sq)
                } else {
                    p.spec_bb(c2, p2)
                }
            &&& forall|i: u64|
                i < 64 && i != sq ==> #[trigger] q.spec_type_at(i) == p.spec_type_at(i)
                    && q.spec_colour_at(i) == p.spec_colour_at(i)
            &&& q.spec_type_at(sq) == Some(pt)
            &&& q.spec_colour_at(sq) == Some(c)
        }),
{
    let q = p.spec_add(c, pt, sq);
    let m = 1u64 << sq;
    assert(p.piece_count_at(sq) == 0);
    assert forall|i: u64| i < 64 implies {
        &&& (bit(q.pawns, i) <==> bit(p.pawns, i) || (i == sq && pt == PieceType::Pawn))
        &&& (bit(q.knights, i) <==> bit(p.knights, i) || (i == sq && pt == PieceType::Knight))
        &&& (bit(q.bishops, i) <==> bit(p.bishops, i) || (i == sq && pt == PieceType::Bishop))
        &&& (bit(q.rooks, i) <==> bit(p.rooks, i) || (i == sq && pt == PieceType::Rook))
        &&& (bit(q.queens, i) <==> bit(p.queens, i) || (i == sq && pt == PieceType::Queen))
        &&& (bit(q.kings, i) <==> bit(p.kings, i) || (i == sq && pt == PieceType::King))
        &&& (bit(q.whites, i) <==> bit(p.whites, i) || (i == sq && c == Colour::White))
        &&& (bit(q.blacks, i) <==> bit(p.blacks, i) || (i == sq && c == Colour::Black))
    } by {
        lemma_single_bit(sq, i);
        lemma_bit_ops(p.pawns, m, i);
        lemma_bit_ops(p.knights, m, i);
        lemma_bit_ops(p.bishops, m, i);
        lemma_bit_ops(p.rooks, m, i);
        lemma_bit_ops(p.queens, m, i);
        lemma_bit_ops(p.kings, m, i);
        lemma_bit_ops(p.whites, m, i);
        lemma_bit_ops(p.blacks, m, i);
    }
    assert forall|i: u64| i < 64 implies #[trigger] q.piece_count_at(i) == q.colour_count_at(i)
        && q.piece_count_at(i) <= 1 by {
        assert(p.piece_count_at(i) == p.colour_count_at(i) && p.piece_count_at(i) <= 1);
    }
    assert(q.occ() == p.occ() | m) by {
        assert forall|i: u64| i < 64 implies (bit(q.occ(), i) <==> bit(p.occ() | m, i)) by {
            lemma_single_bit(sq, i);
            lemma_bit_ops(p.whites, m, i);
            lemma_bit_ops(p.blacks, m, i);
            lemma_bit_ops(q.whites, q.blacks, i);
            lemma_bit_ops(p.whites, p.blacks, i);
            lemma_bit_ops(p.occ(), m, i);
        }
        lemma_bit_ext(q.occ(), p.occ() | m);
    }
    assert forall|c2: Colour, p2: PieceType| #[trigger] q.spec_bb(c2, p2) == if c2 == c && p2 == pt {
        p.spec_bb(c2, p2) | m
    } else {
        p.spec_bb(c2, p2)
    } by {
        let expect = if c2 == c && p2 == pt {
            p.spec_bb(c2, p2) | m
        } else {
            p.spec_bb(c2, p2)
        };
        assert forall|i: u64| i < 64 implies (bit(q.spec_bb(c2, p2), i) <==> bit(expect, i)) by {
            lemma_single_bit(sq, i);
            lemma_bit_ops(q.piece_bbs(p2), q.colour_bbs(c2), i);
            lemma_bit_ops(p.piece_bbs(p2), p.colour_bbs(c2), i);
            lemma_bit_ops(p.spec_bb(c2, p2), m, i);
            assert(p.piece_count_at(i) == p.colour_count_at(i) && p.piece_count_at(i) <= 1);
        }
        lemma_bit_ext(q.spec_bb(c2, p2), expect);
    }
    assert forall|i: u64| i < 64 && i != sq implies #[trigger] q.spec_type_at(i) == p.spec_type_at(
        i,
    ) && q.spec_colour_at(i) == p.spec_colour_at(i) by {}
}

/// Removing the piece that stands on a square keeps the placement
/// well-formed and changes exactly the one colour-and-kind board.
pub proof fn lemma_remove_wf(p: Position, c: Colour, pt: PieceType, sq: u64)
    requires
        p.wf(),
        sq < 64,
        bit(p.spec_bb(c, pt), sq),
    ensures
        ({
            let q = p.spec_remove(c, pt, sq);
            &&& q.wf()
            &&& forall|i: u64|
                i < 64 ==> (#[trigger] bit(q.occ(), i) <==> bit(p.occ(), i) && i != sq)
            &&& forall|c2: Colour, p2: PieceType|
                #[trigger] q.spec_bb(c2, p2) == if c2 == c && p2 == pt {
                    p.spec_bb(c2, p2) ^ (1u64 << sq)
                } else {
                    p.spec_bb(c2, p2)
                }
            &&& forall|i: u64|
                i < 64 && i != sq ==> #[trigger] q.spec_type_at(i) == p.spec_type_at(i)
                    && q.spec_colour_at(i) == p.spec_colour_at(i)
            &&& q.spec_type_at(sq) is None
            &&& q.spec_colour_at(sq) is None
        }),
{
    let q = p.spec_remove(c, pt, sq);
    let m = 1u64 << sq;
    assert(bit(p.piece_bbs(pt), sq) && bit(p.colour_bbs(c), sq)) by {
        lemma_bit_ops(p.piece_bbs(pt), p.colour_bbs(c), sq);
    }
    assert(p.piece_count_at(sq) >= 1) by {
        match pt {
            PieceType::Pawn => assert(bit(p.pawns, sq)),
            PieceType::Knight => assert(bit(p.knights, sq)),
            PieceType::Bishop => assert(bit(p.bishops, sq)),
            PieceType::Rook => assert(bit(p.rooks, sq)),
            PieceType::Queen => assert(bit(p.queens, sq)),
            PieceType::King => assert(bit(p.kings, sq)),
        }
    }
    assert(p.piece_count_at(sq) == 1 && p.colour_count_at(sq) == 1);
    assert forall|i: u64| i < 64 implies {
        &&& (bit(q.pawns, i) <==> bit(p.pawns, i) != (i == sq && pt == PieceType::Pawn))
        &&& (bit(q.knights, i) <==> bit(p.knights, i) != (i == sq && pt == PieceType::Knight))
        &&& (bit(q.bishops, i) <==> bit(p.bishops, i) != (i == sq && pt == PieceType::Bishop))
        &&& (bit(q.rooks, i) <==> bit(p.rooks, i) != (i == sq && pt == PieceType::Rook))
        &&& (bit(q.queens, i) <==> bit(p.queens, i) != (i == sq && pt == PieceType::Queen))
        &&& (bit(q.kings, i) <==> bit(p.kings, i) != (i == sq && pt == PieceType::King))
        &&& (bit(q.whites, i) <==> bit(p.whites, i) != (i == sq && c == Colour::White))
        &&& (bit(q.blacks, i) <==> bit(p.blacks, i) != (i == sq && c == Colour::Black))
    } by {
        lemma_single_bit(sq, i);
        lemma_bit_ops(p.pawns, m, i);
        lemma_bit_ops(p.knights, m, i);
        lemma_bit_ops(p.bishops, m, i);
        lemma_bit_ops(p.rooks, m, i);
        lemma_bit_ops(p.queens, m, i);
        lemma_bit_ops(p.kings, m, i);
        lemma_bit_ops(p.whites, m, i);
        lemma_bit_ops(p.blacks, m, i);
    }
    assert forall|i: u64| i < 64 implies #[trigger] q.piece_count_at(i) == q.colour_count_at(i)
        && q.piece_count_at(i) <= 1 by {
        assert(p.piece_count_at(i) == p.colour_count_at(i) && p.piece_count_at(i) <= 1);
    }
    assert forall|i: u64| i < 64 implies (#[trigger] bit(q.occ(), i) <==> bit(p.occ(), i) && i
        != sq) by {
        lemma_bit_ops(q.whites, q.blacks, i);
        lemma_bit_ops(p.whites, p.blacks, i);
        assert(p.piece_count_at(i) == p.colour_count_at(i) && p.piece_count_at(i) <= 1);
        assert(p.piece_count_at(sq) == p.colour_count_at(sq));
    }
    assert forall|c2: Colour, p2: PieceType| #[trigger] q.spec_bb(c2, p2) == if c2 == c && p2 == pt {
        p.spec_bb(c2, p2) ^ m
    } else {
        p.spec_bb(c2, p2)
    } by {
        let expect = if c2 == c && p2 == pt {
            p.spec_bb(c2, p2) ^ m
        } else {
            p.spec_bb(c2, p2)
        };
        assert forall|i: u64| i < 64 implies (bit(q.spec_bb(c2, p2), i) <==> bit(expect, i)) by {
            lemma_single_bit(sq, i);
            lemma_bit_ops(q.piece_bbs(p2), q.colour_bbs(c2), i);
            lemma_bit_ops(p.piece_bbs(p2), p.colour_bbs(c2), i);
            lemma_bit_ops(p.spec_bb(c2, p2), m, i);
            assert(p.piece_count_at(i) == p.colour_count_at(i) && p.piece_count_at(i) <= 1);
            assert(p.piece_count_at(sq) == 1 && p.colour_count_at(sq) == 1);
        }
        lemma_bit_ext(q.spec_bb(c2, p2), expect);
    }
}


/// A square that shows a piece and a colour carries the bit in the
/// matching colour-and-kind board.
pub proof fn lemma_at_to_bb(p: Position, sq: u64)
    requires
        sq < 64,
    ensures
        forall|c: Colour, pt: PieceType|
            p.spec_type_at(sq) == Some(pt) && p.spec_colour_at(sq) == Some(c) ==> #[trigger] bit(
                p.spec_bb(c, pt),
                sq,
            ),
{
    assert forall|c: Colour, pt: PieceType|
        p.spec_type_at(sq) == Some(pt) && p.spec_colour_at(sq) == Some(c) implies #[trigger] bit(
        p.spec_bb(c, pt),
        sq,
    ) by {
        lemma_bit_ops(p.piece_bbs(pt), p.colour_bbs(c), sq);
    }
}

/// In a well-formed placement the six kind boards are pairwise
/// disjoint: no square carries two kinds at once.
pub proof fn lemma_piece_bbs_disjoint(p: Position)
    requires
        p.wf(),
    ensures
        forall|p1: PieceType, p2: PieceType|
            p1 != p2 ==> #[trigger] (p.piece_bbs(p1) & p.piece_bbs(p2)) == 0,
{
    assert forall|p1: PieceType, p2: PieceType| p1 != p2 implies #[trigger] (p.piece_bbs(p1)
        & p.piece_bbs(p2)) == 0 by {
        assert forall|i: u64| i < 64 implies (bit(p.piece_bbs(p1) & p.piece_bbs(p2), i) <==> bit(
            0u64,
            i,
        )) by {
            lemma_bit_ops(p.piece_bbs(p1), p.piece_bbs(p2), i);
            crate::bits::lemma_zero_has_no_bit(i);
            assert(p.piece_count_at(i) == p.colour_count_at(i) && p.piece_count_at(i) <= 1);
        }
        lemma_bit_ext(p.piece_bbs(p1) & p.piece_bbs(p2), 0);
    }
}

/// In a well-formed placement the union of the six kind boards equals
/// the union of the two colour boards.
pub proof fn lemma_piece_union_eq_colour_union(p: Position)
    requires
        p.wf(),
    ensures
        p.pawns | p.knights | p.bishops | p.rooks | p.queens | p.kings == p.occ(),
{
    let u = p.pawns | p.knights | p.bishops | p.rooks | p.queens | p.kings;
    assert forall|i: u64| i < 64 implies (bit(u, i) <==> bit(p.occ(), i)) by {
        lemma_bit_ops(p.pawns, p.knights, i);
        lemma_bit_ops(p.pawns | p.knights, p.bishops, i);
        lemma_bit_ops(p.pawns | p.knights | p.bishops, p.rooks, i);
        lemma_bit_ops(p.pawns | p.knights | p.bishops | p.rooks, p.queens, i);
        lemma_bit_ops(p.pawns | p.knights | p.bishops | p.rooks | p.queens, p.kings, i);
        lemma_bit_ops(p.whites, p.blacks, i);
        assert(p.piece_count_at(i) == p.colour_count_at(i) && p.piece_count_at(i) <= 1);
    }
    lemma_bit_ext(u, p.occ());
}

/// A side with one king has a king board of population count one.
pub proof fn lemma_one_king_pcount(p: Position, c: Colour)
    requires
        one_king(p, c),
    ensures
        pcount(p.spec_bb(c, PieceType::King)) == 1,
{
    let s = choose|s: u64| s < 64 && p.spec_bb(c, PieceType::King) == 1u64 << s;
    let m = 1u64 << s;
    lemma_single_bit(s, s);
    crate::bits::lemma_xor_self(m);
    crate::types::chess_move::lemma_pcount_drop_bit(m, s);
}

/// A well-formed placement answers kind and colour probes
/// consistently: a square shows a kind exactly when it shows a colour.
pub proof fn lemma_wf_consistent(p: Position)
    requires
        p.wf(),
    ensures
        forall|sq: u64|
            sq < 64 ==> ((#[trigger] p.spec_type_at(sq)) is Some <==> p.spec_colour_at(sq)
                is Some),
{
    assert forall|sq: u64| sq < 64 implies ((#[trigger] p.spec_type_at(sq)) is Some
        <==> p.spec_colour_at(sq) is Some) by {
        assert(p.piece_count_at(sq) == p.colour_count_at(sq) && p.piece_count_at(sq) <= 1);
    }
}

/// Two well-formed placements that answer every kind and colour probe
/// alike are equal.
pub proof fn lemma_position_ext(p: Position, q: Position)
    requires
        p.wf(),
        q.wf(),
        forall|sq: u64| sq < 64 ==> #[trigger] p.spec_type_at(sq) == q.spec_type_at(sq),
        forall|sq: u64| sq < 64 ==> #[trigger] p.spec_colour_at(sq) == q.spec_colour_at(sq),
    ensures
        p == q,
{
    assert forall|sq: u64| sq < 64 implies {
        &&& (bit(p.pawns, sq) <==> bit(q.pawns, sq))
        &&& (bit(p.knights, sq) <==> bit(q.knights, sq))
        &&& (bit(p.bishops, sq) <==> bit(q.bishops, sq))
        &&& (bit(p.rooks, sq) <==> bit(q.rooks, sq))
        &&& (bit(p.queens, sq) <==> bit(q.queens, sq))
        &&& (bit(p.kings, sq) <==> bit(q.kings, sq))
        &&& (bit(p.whites, sq) <==> bit(q.whites, sq))
        &&& (bit(p.blacks, sq) <==> bit(q.blacks, sq))
    } by {
        assert(p.piece_count_at(sq) == p.colour_count_at(sq) && p.piece_count_at(sq) <= 1);
        assert(q.piece_count_at(sq) == q.colour_count_at(sq) && q.piece_count_at(sq) <= 1);
        assert(p.spec_type_at(sq) == q.spec_type_at(sq));
        assert(p.spec_colour_at(sq) == q.spec_colour_at(sq));
    }
    lemma_bit_ext(p.pawns, q.pawns);
    lemma_bit_ext(p.knights, q.knights);
    lemma_bit_ext(p.bishops, q.bishops);
    lemma_bit_ext(p.rooks, q.rooks);
    lemma_bit_ext(p.queens, q.queens);
    lemma_bit_ext(p.kings, q.kings);
    lemma_bit_ext(p.whites, q.whites);
    lemma_bit_ext(p.blacks, q.blacks);
}

} // verus!
