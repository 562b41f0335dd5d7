//! Legal move generation: pseudo-legal enumeration per piece kind
//! followed by the pin, check and castling legality filter.

use vstd::prelude::*;

use crate::attacks::spec_slider_attacks;
use crate::bits::{
    first_set_square, lemma_clear_lowest, lemma_or_algebra, lemma_or_zero, low_bit, pcount,
    popcount,
};
use crate::movegen::lookup::{
    spec_between, spec_piece_moves, spec_ray_between, spec_sliding_moves, Lookup,
};
use crate::types::bitboard::{spec_shift, BBIterator, PieceItr, Shift, BB};
use crate::types::board_state::BoardState;
use crate::types::chess_move::{
    extracted_moves, promotion_capture_kinds, promotion_kinds, Move, MoveType, PromotionType,
};
use crate::types::colour::Colour;
use crate::types::piece_type::PieceType;
use crate::types::square::SquareIndex;
use crate::types::{EngineError, EAST, NORTH, RANK2, RANK3, RANK6, RANK7, SOUTH, WEST};

pub mod lookup;

verus! {

/// The side-relative pawn geometry: the push direction, the rank a
/// double push crosses, and the rank a promotion starts from.
#[derive(Debug, Clone, Copy)]
pub struct PawnDir {
    pub north: i8,
    pub rank3: BB,
    pub rank7: BB,
}

/// The pawn geometry of a side.
pub open spec fn spec_pawn_dir(colour: Colour) -> PawnDir {
    if colour == Colour::White {
        PawnDir { north: NORTH, rank3: RANK3, rank7: RANK7 }
    } else {
        PawnDir { north: SOUTH, rank3: RANK6, rank7: RANK2 }
    }
}

impl PawnDir {
    /// The pawn geometry of a side.
    pub fn new(colour: Colour) -> (r: Self)
        ensures
            r == spec_pawn_dir(colour),
    {
        match colour {
            Colour::White => Self { north: NORTH, rank3: RANK3, rank7: RANK7 },
            Colour::Black => Self { north: SOUTH, rank3: RANK6, rank7: RANK2 },
        }
    }
}

/// The moves read off a destination board for pawns: one move per set
/// bit, lowest first, the source square lying `offset` steps behind
/// the destination.
pub open spec fn pawn_moves_of(bb: u64, offset: i8, kind: MoveType) -> Seq<Move>
    decreases bb,
        via pawn_moves_of_decreases
{
    if bb == 0 {
        Seq::empty()
    } else {
        let to = low_bit(bb);
        seq![Move { from: (to as int - offset as int) as u64, to, kind }] + pawn_moves_of(
            bb & ((bb - 1) as u64),
            offset,
            kind,
        )
    }
}

#[via_fn]
proof fn pawn_moves_of_decreases(bb: u64, offset: i8, kind: MoveType) {
    if bb != 0 {
        lemma_clear_lowest(bb);
    }
}

/// The promotion moves read off a destination board: four moves per
/// set bit, lowest square first, knight promotion first.
pub open spec fn promotions_of(bb: u64, offset: i8, kind: PromotionType) -> Seq<Move>
    decreases bb,
        via promotions_of_decreases
{
    if bb == 0 {
        Seq::empty()
    } else {
        let to = low_bit(bb);
        let from = (to as int - offset as int) as u64;
        let kinds = if kind == PromotionType::Capture {
            promotion_capture_kinds()
        } else {
            promotion_kinds()
        };
        seq![
            Move { from, to, kind: kinds[0] },
            Move { from, to, kind: kinds[1] },
            Move { from, to, kind: kinds[2] },
            Move { from, to, kind: kinds[3] },
        ] + promotions_of(bb & ((bb - 1) as u64), offset, kind)
    }
}

#[via_fn]
proof fn promotions_of_decreases(bb: u64, offset: i8, kind: PromotionType) {
    if bb != 0 {
        lemma_clear_lowest(bb);
    }
}

/// The quiet pawn pushes of a side: single pushes, then double pushes.
pub open spec fn spec_quiet_pushes(board: BoardState, pawns: BB, dir: PawnDir) -> Seq<Move> {
    let movers = pawns & !dir.rank7;
    let empty = !board.position.occ();
    let single = spec_shift(movers, dir.north) & empty;
    let double = spec_shift(single & dir.rank3, dir.north) & empty;
    pawn_moves_of(single, dir.north, MoveType::Quiet) + pawn_moves_of(
        double,
        (dir.north * 2) as i8,
        MoveType::Quiet,
    )
}

/// The pawn captures of a side, the enemy king never among the
/// targets: captures toward the a-file first, then toward the h-file.
pub open spec fn spec_pawn_captures(board: BoardState, pawns: BB, dir: PawnDir) -> Seq<Move> {
    let us = board.active_player;
    let them = us.spec_opposite();
    let movers = pawns & !dir.rank7;
    let their_king = board.position.spec_bb(them, PieceType::King);
    let valid = board.position.colour_bbs(them) & !their_king;
    let left = spec_shift(movers, (dir.north + WEST) as i8) & valid;
    let right = spec_shift(movers, (dir.north + EAST) as i8) & valid;
    pawn_moves_of(left, (dir.north + WEST) as i8, MoveType::Capture) + pawn_moves_of(
        right,
        (dir.north + EAST) as i8,
        MoveType::Capture,
    )
}

/// The en-passant captures of a side onto the board's target square.
pub open spec fn spec_en_passant_moves(board: BoardState, pawns: BB, dir: PawnDir) -> Seq<Move> {
    match board.en_passant {
        Some(target) => {
            let ep = 1u64 << target;
            let left = spec_shift(pawns, (dir.north + WEST) as i8) & ep;
            let right = spec_shift(pawns, (dir.north + EAST) as i8) & ep;
            pawn_moves_of(left, (dir.north + WEST) as i8, MoveType::EnPassantCapture)
                + pawn_moves_of(right, (dir.north + EAST) as i8, MoveType::EnPassantCapture)
        },
        None => Seq::empty(),
    }
}

/// The promotions of a side: pushes, captures toward the a-file, then
/// captures toward the h-file.
pub open spec fn spec_promotions(board: BoardState, pawns: BB, dir: PawnDir) -> Seq<Move> {
    let us = board.active_player;
    let them = us.spec_opposite();
    let movers = pawns & dir.rank7;
    let empty = !board.position.occ();
    let their_king = board.position.spec_bb(them, PieceType::King);
    let valid = board.position.colour_bbs(them) & !their_king;
    let pushes = spec_shift(movers, dir.north) & empty;
    let left = spec_shift(movers, (dir.north + WEST) as i8) & valid;
    let right = spec_shift(movers, (dir.north + EAST) as i8) & valid;
    promotions_of(pushes, dir.north, PromotionType::Push) + promotions_of(
        left,
        (dir.north + WEST) as i8,
        PromotionType::Capture,
    ) + promotions_of(right, (dir.north + EAST) as i8, PromotionType::Capture)
}

/// Every pseudo-legal pawn move of the side to move, in generation
/// order: quiet pushes, captures, en passant, promotions.
pub open spec fn spec_pawn_moves(board: BoardState) -> Seq<Move> {
    let pawns = board.position.spec_bb(board.active_player, PieceType::Pawn);
    let dir = spec_pawn_dir(board.active_player);
    spec_quiet_pushes(board, pawns, dir) + spec_pawn_captures(board, pawns, dir)
        + spec_en_passant_moves(board, pawns, dir) + spec_promotions(board, pawns, dir)
}

/// The pseudo-legal castling moves: only emptiness between king and
/// rook and the retained rights are checked here.
pub open spec fn spec_castle_moves(board: BoardState) -> Seq<Move> {
    let white = board.active_player == Colour::White;
    let king_mask: u64 = if white {
        96
    } else {
        6917529027641081856
    };
    let queen_mask: u64 = if white {
        14
    } else {
        1008806316530991104
    };
    let king_right = board.castling_rights.king_side(board.active_player);
    let queen_right = board.castling_rights.queen_side(board.active_player);
    let occupied = board.position.occ();
    let from: u64 = if white {
        4
    } else {
        60
    };
    let king_part: Seq<Move> = if occupied & king_mask == 0 && king_right {
        seq![
            Move {
                from,
                to: if white {
                    6
                } else {
                    62
                },
                kind: MoveType::CastleKing,
            },
        ]
    } else {
        Seq::empty()
    };
    let queen_part: Seq<Move> = if occupied & queen_mask == 0 && queen_right {
        seq![
            Move {
                from,
                to: if white {
                    2
                } else {
                    58
                },
                kind: MoveType::CastleQueen,
            },
        ]
    } else {
        Seq::empty()
    };
    king_part + queen_part
}

/// Pseudo-legal moves of one non-pawn piece kind, pieces taken in
/// ascending square order, captures before quiets for each piece.
pub open spec fn spec_piece_pseudo(board: BoardState, pieces: u64, piece: PieceType) -> Seq<Move>
    decreases pieces,
        via spec_piece_pseudo_decreases
{
    if pieces == 0 {
        Seq::empty()
    } else {
        let square = low_bit(pieces);
        let opponent = board.position.colour_bbs(board.active_player.spec_opposite());
        let empty = !board.position.occ();
        let destinations = match piece {
            PieceType::King | PieceType::Knight => spec_piece_moves(square, piece),
            _ => spec_sliding_moves(square, board.position.occ(), piece),
        };
        let captures = destinations & opponent;
        let quiets = destinations & empty;
        extracted_moves(square, captures, MoveType::Capture) + extracted_moves(
            square,
            quiets,
            MoveType::Quiet,
        ) + spec_piece_pseudo(board, pieces & ((pieces - 1) as u64), piece)
    }
}

#[via_fn]
proof fn spec_piece_pseudo_decreases(board: BoardState, pieces: u64, piece: PieceType) {
    if pieces != 0 {
        lemma_clear_lowest(pieces);
    }
}

/// Every pseudo-legal move of the side to move, in generation order:
/// pawns, castles, knights, king, rooks, bishops, queens.
pub open spec fn spec_pseudo_moves(board: BoardState) -> Seq<Move> {
    let us = board.active_player;
    spec_pawn_moves(board) + spec_castle_moves(board) + spec_piece_pseudo(
        board,
        board.position.spec_bb(us, PieceType::Knight),
        PieceType::Knight,
    ) + spec_piece_pseudo(board, board.position.spec_bb(us, PieceType::King), PieceType::King)
        + spec_piece_pseudo(board, board.position.spec_bb(us, PieceType::Rook), PieceType::Rook)
        + spec_piece_pseudo(board, board.position.spec_bb(us, PieceType::Bishop), PieceType::Bishop)
        + spec_piece_pseudo(board, board.position.spec_bb(us, PieceType::Queen), PieceType::Queen)
}

/// The pawn attack pattern of a single square, seen from the given
/// side: the two forward diagonal steps.
pub open spec fn spec_pawn_attacks(square: u64, colour: Colour) -> u64 {
    let bb = 1u64 << square;
    if colour == Colour::White {
        spec_shift(bb, (NORTH + WEST) as i8) | spec_shift(bb, (NORTH + EAST) as i8)
    } else {
        spec_shift(bb, (SOUTH + WEST) as i8) | spec_shift(bb, (SOUTH + EAST) as i8)
    }
}

/// The enemy men that attack a square, computed by reverse attacks
/// from the square; slider sight passes through the defending king.
pub open spec fn spec_attacks_to(board: BoardState, square: u64) -> u64 {
    let us = board.active_player;
    let them = us.spec_opposite();
    let occupancies = board.position.occ() & !board.position.spec_bb(us, PieceType::King);
    let pawn_attacks = spec_pawn_attacks(square, us);
    let rook_attacks = spec_slider_attacks(occupancies, square, true);
    let bishop_attacks = spec_slider_attacks(occupancies, square, false);
    let queen_attacks = rook_attacks | bishop_attacks;
    let knight_attacks = spec_piece_moves(square, PieceType::Knight);
    let king_attacks = spec_piece_moves(square, PieceType::King);
    let pawns = pawn_attacks & board.position.piece_bbs(PieceType::Pawn);
    let rooks = rook_attacks & board.position.piece_bbs(PieceType::Rook);
    let bishops = bishop_attacks & board.position.piece_bbs(PieceType::Bishop);
    let queens = queen_attacks & board.position.piece_bbs(PieceType::Queen);
    let knights = knight_attacks & board.position.piece_bbs(PieceType::Knight);
    let king = king_attacks & board.position.piece_bbs(PieceType::King);
    (pawns | rooks | bishops | queens | knights | king) & board.position.colour_bbs(them)
}

/// Whether a square is attacked by the side not to move; slider sight
/// passes through the defending king.
pub open spec fn spec_is_attacked(board: BoardState, square: u64) -> bool {
    let us = board.active_player;
    let them = us.spec_opposite();
    let occupancies = board.position.occ() & !board.position.spec_bb(us, PieceType::King);
    let opponent_queen = board.position.spec_bb(them, PieceType::Queen);
    let opponent_ortho = board.position.spec_bb(them, PieceType::Rook) | opponent_queen;
    let opponent_diag = board.position.spec_bb(them, PieceType::Bishop) | opponent_queen;
    ||| spec_pawn_attacks(square, us) & board.position.spec_bb(them, PieceType::Pawn) != 0
    ||| spec_sliding_moves(square, occupancies, PieceType::Rook) & opponent_ortho != 0
    ||| spec_sliding_moves(square, occupancies, PieceType::Bishop) & opponent_diag != 0
    ||| spec_piece_moves(square, PieceType::Knight) & board.position.spec_bb(them, PieceType::Knight)
        != 0
    ||| spec_piece_moves(square, PieceType::King) & board.position.spec_bb(them, PieceType::King)
        != 0
}

/// Accumulates the absolutely pinned men over the remaining snipers,
/// lowest sniper first: a sniper pins when exactly one man stands on
/// the span between it and the king.
pub open spec fn spec_blockers_rec(board: BoardState, king_square: u64, snipers: u64) -> u64
    decreases snipers,
        via spec_blockers_rec_decreases
{
    if snipers == 0 || king_square >= 64 {
        0
    } else {
        let i = low_bit(snipers);
        let us = board.active_player;
        let ignore = 1u64 << i;
        let potential = spec_ray_between(king_square, i) & board.position.occ() & !board.position
            .spec_bb(us, PieceType::King) & !ignore;
        (if pcount(potential) == 1 {
            potential
        } else {
            0
        }) | spec_blockers_rec(board, king_square, snipers & ((snipers - 1) as u64))
    }
}

#[via_fn]
proof fn spec_blockers_rec_decreases(board: BoardState, king_square: u64, snipers: u64) {
    if snipers != 0 {
        lemma_clear_lowest(snipers);
    }
}

/// The absolutely pinned men of the side to move: for each enemy
/// slider whose empty-board influence reaches the king, the sole man
/// on the span between them, if there is exactly one.
pub open spec fn spec_calculate_blockers(board: BoardState, king_square: u64) -> u64 {
    let us = board.active_player;
    let them = us.spec_opposite();
    let opponent_queen = board.position.spec_bb(them, PieceType::Queen);
    let opponent_ortho = board.position.spec_bb(them, PieceType::Rook) | opponent_queen;
    let opponent_diag = board.position.spec_bb(them, PieceType::Bishop) | opponent_queen;
    let attacks_rooks = spec_slider_attacks(0, king_square, true) & opponent_ortho;
    let attacks_bishops = spec_slider_attacks(0, king_square, false) & opponent_diag;
    let snipers = (attacks_rooks | attacks_bishops) & !board.position.spec_bb(us, PieceType::King);
    spec_blockers_rec(board, king_square, snipers)
}

/// Whether a move is pinned against the king: its source square lies
/// among the absolutely pinned men.
pub open spec fn spec_is_absolutely_pinned(mv: Move, blockers: u64) -> bool {
    blockers & (1u64 << mv.from) != 0
}

/// Whether a pinned man's move keeps the pin line: the whole line
/// through source and target must contain the king.
pub open spec fn spec_is_legal_pin_move(board: BoardState, mv: Move) -> bool {
    spec_between(mv.to, mv.from) & board.position.spec_bb(board.active_player, PieceType::King)
        != 0
}

/// Whether a castle is legal: never while in check, and never through
/// an attacked square.
pub open spec fn spec_is_legal_castle(board: BoardState, mv: Move, num_checkers: nat) -> bool {
    if num_checkers != 0 {
        false
    } else if mv.kind == MoveType::CastleKing {
        if board.active_player == Colour::White {
            !spec_is_attacked(board, 5) && !spec_is_attacked(board, 6)
        } else {
            !spec_is_attacked(board, 61) && !spec_is_attacked(board, 62)
        }
    } else if mv.kind == MoveType::CastleQueen {
        if board.active_player == Colour::White {
            !spec_is_attacked(board, 2) && !spec_is_attacked(board, 3)
        } else {
            !spec_is_attacked(board, 58) && !spec_is_attacked(board, 59)
        }
    } else {
        true
    }
}

/// Whether an en-passant capture is legal: both pawns leave their
/// squares at once, so the check test runs on a board with the
/// captured pawn already gone.
pub open spec fn spec_is_legal_en_passant(board: BoardState, mv: Move, king_square: u64) -> bool
    decreases 1int,
{
    if mv.to >= 64 || mv.from >= 64 {
        false
    } else {
        let us = board.active_player;
        let them = us.spec_opposite();
        let victim = if us == Colour::White {
            mv.to as int - 8
        } else {
            mv.to as int + 8
        };
        if !(0 <= victim < 64) {
            false
        } else {
            let copy = BoardState {
                position: board.position.spec_remove(them, PieceType::Pawn, victim as u64),
                ..board
            };
            let temp = Move { to: mv.to, from: mv.from, kind: MoveType::Capture };
            let bl = spec_calculate_blockers(copy, king_square);
            let ch = spec_attacks_to(copy, king_square);
            spec_is_legal_non_king_move(copy, temp, bl, ch, king_square)
        }
    }
}

/// Whether a move of anything but the king is legal, given the pinned
/// men and the checkers: nothing helps against a double check, a
/// single check must be caught or blocked, and a pinned man must stay
/// on its pin line.
pub open spec fn spec_is_legal_non_king_move(
    board: BoardState,
    mv: Move,
    blockers: u64,
    checkers: u64,
    king_square: u64,
) -> bool
    decreases (if mv.kind == MoveType::EnPassantCapture { 2int } else { 0int }),
{
    let num_checkers = pcount(checkers);
    if num_checkers > 1 {
        false
    } else if mv.kind == MoveType::EnPassantCapture {
        spec_is_legal_en_passant(board, mv, king_square)
    } else if mv.kind == MoveType::CastleKing || mv.kind == MoveType::CastleQueen {
        spec_is_legal_castle(board, mv, num_checkers)
    } else if mv.from >= 64 || mv.to >= 64 {
        false
    } else {
        let pinned = spec_is_absolutely_pinned(mv, blockers);
        if num_checkers == 1 {
            let piece_bb = 1u64 << mv.to;
            let attacker_square = low_bit(checkers);
            if mv.to == attacker_square {
                !pinned
            } else {
                !pinned && (spec_ray_between(king_square, attacker_square) & piece_bb != 0)
            }
        } else if !pinned {
            true
        } else {
            spec_is_legal_pin_move(board, mv)
        }
    }
}

/// Whether a pseudo-legal move is legal: a king step must not walk
/// into an attack, everything else answers to the pin and check rules.
pub open spec fn spec_is_legal(
    board: BoardState,
    mv: Move,
    blockers: u64,
    checkers: u64,
    king_square: u64,
) -> bool {
    if king_square == mv.from && !(mv.kind == MoveType::CastleKing || mv.kind
        == MoveType::CastleQueen) {
        mv.to < 64 && !spec_is_attacked(board, mv.to)
    } else {
        spec_is_legal_non_king_move(board, mv, blockers, checkers, king_square)
    }
}

/// The legal moves among a sequence, in order.
pub open spec fn filter_legal(
    moves: Seq<Move>,
    board: BoardState,
    blockers: u64,
    checkers: u64,
    king_square: u64,
) -> Seq<Move>
    decreases moves.len(),
{
    if moves.len() == 0 {
        Seq::empty()
    } else {
        let rest = filter_legal(moves.drop_first(), board, blockers, checkers, king_square);
        if spec_is_legal(board, moves.first(), blockers, checkers, king_square) {
            seq![moves.first()] + rest
        } else {
            rest
        }
    }
}

/// Every legal move of the side to move, in generation order.
pub open spec fn spec_all_moves(board: BoardState) -> Seq<Move> {
    let king_bb = board.position.spec_bb(board.active_player, PieceType::King);
    let king_square = low_bit(king_bb);
    filter_legal(
        spec_pseudo_moves(board),
        board,
        spec_calculate_blockers(board, king_square),
        spec_attacks_to(board, king_square),
        king_square,
    )
}

/// Move generation runs deterministically: the moves of a board are a
/// function of the board alone, so two generations agree.
pub proof fn lemma_all_moves_deterministic(board: BoardState, r1: Seq<Move>, r2: Seq<Move>)
    requires
        r1 == spec_all_moves(board),
        r2 == spec_all_moves(board),
    ensures
        r1 == r2,
{
}

/// The move generator: the lookup tables and the board it last served.
pub struct MoveGen {
    board: BoardState,
    lookup: Lookup,
}

impl Default for MoveGen {
    /// A generator with freshly built tables, over the empty board.
    fn default() -> (r: Self)
        ensures
            r.wf(),
    {
        MoveGen { board: Default::default(), lookup: Default::default() }
    }
}

impl MoveGen {
    /// The generator's tables are sound.
    pub closed spec fn wf(&self) -> bool {
        self.lookup.wf()
    }

    /// Appends one move per set square of `bb`, lowest first, from the
    /// given source square.
    fn extract_moves(from: SquareIndex, bb: BB, list: &mut Vec<Move>, kind: MoveType)
        ensures
            final(list)@ == old(list)@ + extracted_moves(from, bb, kind),
    {
        let mut iter = bb.iter();
        loop
            invariant
                old(list)@ + extracted_moves(from, bb, kind) == list@ + extracted_moves(
                    from,
                    iter.bb,
                    kind,
                ),
            ensures
                iter.bb == 0,
                old(list)@ + extracted_moves(from, bb, kind) == list@ + extracted_moves(
                    from,
                    iter.bb,
                    kind,
                ),
            decreases iter.bb,
        {
            let ghost before = iter.bb;
            let ghost list_before = list@;
            match iter.next() {
                Some((square, _)) => {
                    list.push(Move { to: square, from, kind });
                    proof {
                        lemma_clear_lowest(before);
                        assert(extracted_moves(from, before, kind) == seq![
                            Move { from, to: square, kind },
                        ] + extracted_moves(from, iter.bb, kind));
                        assert(list_before + extracted_moves(from, before, kind) =~= list@
                            + extracted_moves(from, iter.bb, kind));
                    }
                },
                None => {
                    break ;
                },
            }
        }
        proof {
            assert(extracted_moves(from, 0, kind) =~= Seq::<Move>::empty());
            assert(list@ =~= list@ + extracted_moves(from, iter.bb, kind));
        }
    }

    /// Appends one pawn move per set square of `bitboard`, lowest
    /// first, the source square `offset` steps behind the target.
    pub fn extract_pawn_moves(bitboard: BB, offset: i8, kind: MoveType, moves: &mut Vec<Move>)
        requires
            -16 <= offset <= 16,
        ensures
            final(moves)@ == old(moves)@ + pawn_moves_of(bitboard, offset, kind),
    {
        let mut iter = bitboard.iter();
        proof {
            assert(old(moves)@ + pawn_moves_of(bitboard, offset, kind) == moves@ + pawn_moves_of(
                iter.bb,
                offset,
                kind,
            ));
        }
        loop
            invariant
                -16 <= offset <= 16,
                old(moves)@ + pawn_moves_of(bitboard, offset, kind) == moves@ + pawn_moves_of(
                    iter.bb,
                    offset,
                    kind,
                ),
            ensures
                iter.bb == 0,
                old(moves)@ + pawn_moves_of(bitboard, offset, kind) == moves@ + pawn_moves_of(
                    iter.bb,
                    offset,
                    kind,
                ),
            decreases iter.bb,
        {
            let ghost before = iter.bb;
            let ghost list_before = moves@;
            match iter.next() {
                Some((square, _)) => {
                    let from: u64 = ((square as i8) - offset) as u64;
                    moves.push(Move { to: square, from, kind });
                    proof {
                        lemma_clear_lowest(before);
                        assert(pawn_moves_of(before, offset, kind) == seq![
                            Move { from: (square as int - offset as int) as u64, to: square, kind },
                        ] + pawn_moves_of(iter.bb, offset, kind));
                        assert(list_before + pawn_moves_of(before, offset, kind) =~= moves@
                            + pawn_moves_of(iter.bb, offset, kind));
                    }
                },
                None => {
                    break ;
                },
            }
        }
        proof {
            assert(pawn_moves_of(0, offset, kind) =~= Seq::<Move>::empty());
            assert(moves@ =~= moves@ + pawn_moves_of(iter.bb, offset, kind));
        }
    }

    /// Appends the four promotions per set square of `bitboard`.
    fn extract_promotions(bitboard: BB, offset: i8, moves: &mut Vec<Move>, kind: PromotionType)
        requires
            -16 <= offset <= 16,
        ensures
            final(moves)@ == old(moves)@ + promotions_of(bitboard, offset, kind),
    {
        let mut iter = bitboard.iter();
        proof {
            assert(old(moves)@ + promotions_of(bitboard, offset, kind) == moves@ + promotions_of(
                iter.bb,
                offset,
                kind,
            ));
        }
        loop
            invariant
                -16 <= offset <= 16,
                old(moves)@ + promotions_of(bitboard, offset, kind) == moves@ + promotions_of(
                    iter.bb,
                    offset,
                    kind,
                ),
            ensures
                iter.bb == 0,
                old(moves)@ + promotions_of(bitboard, offset, kind) == moves@ + promotions_of(
                    iter.bb,
                    offset,
                    kind,
                ),
            decreases iter.bb,
        {
            let ghost before = iter.bb;
            let ghost list_before = moves@;
            match iter.next() {
                Some((square, _)) => {
                    let from: u64 = ((square as i8) - offset) as u64;
                    let kinds = if matches!(kind, PromotionType::Capture) {
                        MoveType::promotion_capture_iter()
                    } else {
                        MoveType::promotion_iter()
                    };
                    moves.push(Move { to: square, from, kind: kinds[0] });
                    moves.push(Move { to: square, from, kind: kinds[1] });
                    moves.push(Move { to: square, from, kind: kinds[2] });
                    moves.push(Move { to: square, from, kind: kinds[3] });
                    proof {
                        lemma_clear_lowest(before);
                        assert(list_before + promotions_of(before, offset, kind) =~= moves@
                            + promotions_of(iter.bb, offset, kind));
                    }
                },
                None => {
                    break ;
                },
            }
        }
        proof {
            assert(promotions_of(0, offset, kind) =~= Seq::<Move>::empty());
            assert(moves@ =~= moves@ + promotions_of(iter.bb, offset, kind));
        }
    }

    /// Appends every pseudo-legal pawn move: quiet pushes, captures,
    /// en passant, promotions.
    pub fn gen_pseudo_legal_pawn_moves(board: &BoardState, list: &mut Vec<Move>)
        requires
            board.en_passant matches Some(t) ==> t < 64,
        ensures
            final(list)@ == old(list)@ + spec_pawn_moves(*board),
    {
        let pawns: BB = board.position.bb(board.active_player, PieceType::Pawn);
        let dir: PawnDir = PawnDir::new(board.active_player);
        let ghost l0 = list@;
        Self::gen_quiet_pushes(board, list, pawns, dir);
        Self::gen_pawn_captures(board, list, pawns, dir);
        Self::gen_en_passant(board, list, pawns, dir);
        Self::gen_promotions(board, list, pawns, dir);
        proof {
            assert(list@ =~= l0 + spec_pawn_moves(*board));
        }
    }

    /// Appends the single and double quiet pawn pushes.
    fn gen_quiet_pushes(board: &BoardState, list: &mut Vec<Move>, pawns: BB, dir: PawnDir)
        requires
            dir.north == 8 || dir.north == -8,
        ensures
            final(list)@ == old(list)@ + spec_quiet_pushes(*board, pawns, dir),
    {
        let movers: BB = pawns & !dir.rank7;
        let empty_squares: BB = !board.position.bb_all();
        let single: BB = movers.shift(dir.north) & empty_squares;
        let double: BB = (single & dir.rank3).shift(dir.north) & empty_squares;
        let ghost l0 = list@;
        Self::extract_pawn_moves(single, dir.north, MoveType::Quiet, list);
        Self::extract_pawn_moves(double, dir.north * 2, MoveType::Quiet, list);
        proof {
            assert(list@ =~= l0 + spec_quiet_pushes(*board, pawns, dir));
        }
    }

    /// Appends the plain pawn captures; the enemy king is never a
    /// target of generation.
    fn gen_pawn_captures(board: &BoardState, list: &mut Vec<Move>, pawns: BB, dir: PawnDir)
        requires
            dir.north == 8 || dir.north == -8,
        ensures
            final(list)@ == old(list)@ + spec_pawn_captures(*board, pawns, dir),
    {
        let movers: BB = pawns & !dir.rank7;
        let them = board.active_player.opposite();
        let their_king: BB = board.position.bb(them, PieceType::King);
        let valid_captures: BB = board.position.bb_colour(them) & !their_king;
        let left_captures: BB = movers.shift(dir.north + WEST) & valid_captures;
        let right_captures: BB = movers.shift(dir.north + EAST) & valid_captures;
        let ghost l0 = list@;
        Self::extract_pawn_moves(left_captures, dir.north + WEST, MoveType::Capture, list);
        Self::extract_pawn_moves(right_captures, dir.north + EAST, MoveType::Capture, list);
        proof {
            assert(list@ =~= l0 + spec_pawn_captures(*board, pawns, dir));
        }
    }

    /// Appends the en-passant captures onto the board's target square.
    fn gen_en_passant(board: &BoardState, list: &mut Vec<Move>, pawns: BB, dir: PawnDir)
        requires
            dir.north == 8 || dir.north == -8,
            board.en_passant matches Some(t) ==> t < 64,
        ensures
            final(list)@ == old(list)@ + spec_en_passant_moves(*board, pawns, dir),
    {
        let ghost l0 = list@;
        if let Some(target) = board.en_passant {
            let en_passant: BB = 1u64 << target;
            let left_captures: BB = pawns.shift(dir.north + WEST) & en_passant;
            let right_captures: BB = pawns.shift(dir.north + EAST) & en_passant;
            Self::extract_pawn_moves(
                left_captures,
                dir.north + WEST,
                MoveType::EnPassantCapture,
                list,
            );
            Self::extract_pawn_moves(
                right_captures,
                dir.north + EAST,
                MoveType::EnPassantCapture,
                list,
            );
            proof {
                assert(list@ =~= l0 + spec_en_passant_moves(*board, pawns, dir));
            }
        } else {
            proof {
                assert(list@ =~= l0 + spec_en_passant_moves(*board, pawns, dir));
            }
        }
    }

    /// Appends the promotions: pushes first, then the two capture
    /// directions, four promotion kinds each.
    fn gen_promotions(board: &BoardState, list: &mut Vec<Move>, pawns: BB, dir: PawnDir)
        requires
            dir.north == 8 || dir.north == -8,
        ensures
            final(list)@ == old(list)@ + spec_promotions(*board, pawns, dir),
    {
        let movers: BB = pawns & dir.rank7;
        let empty_squares: BB = !board.position.bb_all();
        let them = board.active_player.opposite();
        let their_king: BB = board.position.bb(them, PieceType::King);
        let valid_captures: BB = board.position.bb_colour(them) & !their_king;
        let pushes: BB = movers.shift(dir.north) & empty_squares;
        let left_captures: BB = movers.shift(dir.north + WEST) & valid_captures;
        let right_captures: BB = movers.shift(dir.north + EAST) & valid_captures;
        let ghost l0 = list@;
        Self::extract_promotions(pushes, dir.north, list, PromotionType::Push);
        Self::extract_promotions(left_captures, dir.north + WEST, list, PromotionType::Capture);
        Self::extract_promotions(right_captures, dir.north + EAST, list, PromotionType::Capture);
        proof {
            assert(list@ =~= l0 + spec_promotions(*board, pawns, dir));
        }
    }

    /// Appends the castling moves whose rights are retained and whose
    /// spans are empty; attacks are the legality filter's business.
    pub fn gen_pseudo_legal_castles(board: &BoardState, list: &mut Vec<Move>)
        ensures
            final(list)@ == old(list)@ + spec_castle_moves(*board),
    {
        let white = board.active_player == Colour::White;
        let king_mask: BB = if white {
            96
        } else {
            6917529027641081856
        };
        let queen_mask: BB = if white {
            14
        } else {
            1008806316530991104
        };
        let (king_rights, queen_rights) = match board.active_player {
            Colour::White => (board.castling_rights.white_king, board.castling_rights.white_queen),
            Colour::Black => (board.castling_rights.black_king, board.castling_rights.black_queen),
        };
        let occupied: BB = board.position.bb_all();
        let ghost l0 = list@;
        if (occupied & king_mask) == 0 && king_rights {
            let (to, from): (u64, u64) = if white {
                (6, 4)
            } else {
                (62, 60)
            };
            list.push(Move { from, to, kind: MoveType::CastleKing });
        }
        if (occupied & queen_mask) == 0 && queen_rights {
            let (to, from): (u64, u64) = if white {
                (2, 4)
            } else {
                (58, 60)
            };
            list.push(Move { from, to, kind: MoveType::CastleQueen });
        }
        proof {
            assert(list@ =~= l0 + spec_castle_moves(*board));
        }
    }

    /// Appends the pseudo-legal moves of one non-pawn piece kind,
    /// pieces in ascending square order, captures before quiets.
    fn gen_pseudo_legal_moves(&self, board: &BoardState, list: &mut Vec<Move>, piece: PieceType)
        requires
            self.wf(),
        ensures
            final(list)@ == old(list)@ + spec_piece_pseudo(
                *board,
                board.position.spec_bb(board.active_player, piece),
                piece,
            ),
    {
        let us: Colour = board.active_player;
        let pieces: BB = board.position.bb(us, piece);
        let opponent_pieces: BB = board.position.bb_colour(us.opposite());
        let empty_squares: BB = !board.position.bb_all();
        let mut iter = pieces.iter();
        proof {
            assert(old(list)@ + spec_piece_pseudo(*board, pieces, piece) == list@
                + spec_piece_pseudo(*board, iter.bb, piece));
        }
        loop
            invariant
                self.wf(),
                opponent_pieces == board.position.colour_bbs(
                    board.active_player.spec_opposite(),
                ),
                empty_squares == !board.position.occ(),
                old(list)@ + spec_piece_pseudo(*board, pieces, piece) == list@ + spec_piece_pseudo(
                    *board,
                    iter.bb,
                    piece,
                ),
            ensures
                iter.bb == 0,
                old(list)@ + spec_piece_pseudo(*board, pieces, piece) == list@ + spec_piece_pseudo(
                    *board,
                    iter.bb,
                    piece,
                ),
            decreases iter.bb,
        {
            let ghost before = iter.bb;
            let ghost list_before = list@;
            match iter.next() {
                Some((square, _)) => {
                    let destinations: u64 = match piece {
                        PieceType::King | PieceType::Knight => self.lookup.moves(square, piece),
                        _ => self.lookup.sliding_moves(square, board.position.bb_all(), piece),
                    };
                    let captures: u64 = destinations & opponent_pieces;
                    let quiets: u64 = destinations & empty_squares;
                    Self::extract_moves(square, captures, list, MoveType::Capture);
                    Self::extract_moves(square, quiets, list, MoveType::Quiet);
                    proof {
                        lemma_clear_lowest(before);
                        assert(spec_piece_pseudo(*board, before, piece) == extracted_moves(
                            square,
                            captures,
                            MoveType::Capture,
                        ) + extracted_moves(square, quiets, MoveType::Quiet) + spec_piece_pseudo(
                            *board,
                            iter.bb,
                            piece,
                        ));
                        assert(list_before + spec_piece_pseudo(*board, before, piece) =~= list@
                            + spec_piece_pseudo(*board, iter.bb, piece));
                    }
                },
                None => {
                    break ;
                },
            }
        }
        proof {
            assert(spec_piece_pseudo(*board, 0, piece) =~= Seq::<Move>::empty());
            assert(list@ =~= list@ + spec_piece_pseudo(*board, iter.bb, piece));
        }
    }

    /// The pawn attack pattern of a square, seen from the given side.
    fn pawn_attacks(square: SquareIndex, colour: Colour) -> (r: BB)
        requires
            square < 64,
        ensures
            r == spec_pawn_attacks(square, colour),
    {
        let bb: BB = 1u64 << square;
        match colour {
            Colour::White => bb.shift(NORTH + WEST) | bb.shift(NORTH + EAST),
            Colour::Black => bb.shift(SOUTH + WEST) | bb.shift(SOUTH + EAST),
        }
    }

    /// The enemy men attacking a square, found by reverse attacks from
    /// the square; slider sight passes through the defending king.
    pub fn attacks_to(&self, board: &BoardState, square: SquareIndex) -> (r: BB)
        requires
            self.wf(),
            square < 64,
        ensures
            r == spec_attacks_to(*board, square),
    {
        let us: Colour = board.active_player;
        let them = us.opposite();
        let occupancies: BB = board.position.bb_all() & !board.position.bb(us, PieceType::King);
        let pawn_attacks: BB = Self::pawn_attacks(square, us);
        let rook_attacks: BB = crate::attacks::get_slider_moves(square, occupancies, true);
        let bishop_attacks: BB = crate::attacks::get_slider_moves(square, occupancies, false);
        let queen_attacks: BB = rook_attacks | bishop_attacks;
        let knight_attacks: BB = self.lookup.moves(square, PieceType::Knight);
        let king_attacks: BB = self.lookup.moves(square, PieceType::King);
        let pawns: BB = pawn_attacks & board.position.bb_piece(PieceType::Pawn);
        let rooks: BB = rook_attacks & board.position.bb_piece(PieceType::Rook);
        let bishops: BB = bishop_attacks & board.position.bb_piece(PieceType::Bishop);
        let queens: BB = queen_attacks & board.position.bb_piece(PieceType::Queen);
        let knights: BB = knight_attacks & board.position.bb_piece(PieceType::Knight);
        let king: BB = king_attacks & board.position.bb_piece(PieceType::King);
        (pawns | rooks | bishops | queens | knights | king) & board.position.bb_colour(them)
    }

    /// Whether the side not to move attacks a square; slider sight
    /// passes through the defending king.
    pub fn is_attacked(&self, board: &BoardState, square: SquareIndex) -> (r: bool)
        requires
            self.wf(),
            square < 64,
        ensures
            r == spec_is_attacked(*board, square),
    {
        let us: Colour = board.active_player;
        let them = us.opposite();
        if Self::pawn_attacks(square, us) & board.position.bb(them, PieceType::Pawn) != 0 {
            return true;
        }
        let occupancies: BB = board.position.bb_all() & !board.position.bb(us, PieceType::King);
        let opponent_queen: BB = board.position.bb(them, PieceType::Queen);
        let opponent_ortho: BB = board.position.bb(them, PieceType::Rook) | opponent_queen;
        let opponent_diag: BB = board.position.bb(them, PieceType::Bishop) | opponent_queen;
        if self.lookup.sliding_moves(square, occupancies, PieceType::Rook) & opponent_ortho != 0 {
            return true;
        }
        if self.lookup.sliding_moves(square, occupancies, PieceType::Bishop) & opponent_diag != 0 {
            return true;
        }
        if self.lookup.moves(square, PieceType::Knight) & board.position.bb(
            them,
            PieceType::Knight,
        ) != 0 {
            return true;
        }
        self.lookup.moves(square, PieceType::King) & board.position.bb(them, PieceType::King) != 0
    }

    /// The absolutely pinned men of the side to move against the given
    /// king square.
    pub fn calculate_blockers(&self, board: &BoardState, king_square: SquareIndex) -> (r: BB)
        requires
            self.wf(),
        ensures
            r == spec_calculate_blockers(*board, king_square),
    {
        if king_square > 63 {
            return 0;
        }
        let us: Colour = board.active_player;
        let them = us.opposite();
        let opponent_queen: BB = board.position.bb(them, PieceType::Queen);
        let opponent_ortho: BB = board.position.bb(them, PieceType::Rook) | opponent_queen;
        let opponent_diag: BB = board.position.bb(them, PieceType::Bishop) | opponent_queen;
        let attacks_rooks: BB = self.lookup.piece_influence(true, king_square) & opponent_ortho;
        let attacks_bishops: BB = self.lookup.piece_influence(false, king_square) & opponent_diag;
        let snipers: BB = (attacks_rooks | attacks_bishops) & !board.position.bb(
            us,
            PieceType::King,
        );
        let occupancy: BB = board.position.bb_all();
        let king_bb: BB = board.position.bb(us, PieceType::King);
        let mut blockers: BB = 0;
        let mut iter = snipers.iter();
        proof {
            lemma_or_zero(spec_blockers_rec(*board, king_square, snipers));
        }
        loop
            invariant
                self.wf(),
                king_square < 64,
                occupancy == board.position.occ(),
                king_bb == board.position.spec_bb(board.active_player, PieceType::King),
                blockers | spec_blockers_rec(*board, king_square, iter.bb) == spec_blockers_rec(
                    *board,
                    king_square,
                    snipers,
                ),
            ensures
                iter.bb == 0,
                blockers | spec_blockers_rec(*board, king_square, iter.bb) == spec_blockers_rec(
                    *board,
                    king_square,
                    snipers,
                ),
            decreases iter.bb,
        {
            let ghost before = iter.bb;
            match iter.next() {
                Some((i, _)) => {
                    let ignore: BB = 1u64 << i;
                    let potential_blockers: BB = self.lookup.ray_between(king_square, i)
                        & occupancy & !king_bb & !ignore;
                    let ghost contribution: u64 = if pcount(potential_blockers) == 1 {
                        potential_blockers
                    } else {
                        0u64
                    };
                    proof {
                        lemma_clear_lowest(before);
                        assert(spec_blockers_rec(*board, king_square, before) == contribution
                            | spec_blockers_rec(*board, king_square, iter.bb));
                        lemma_or_algebra(
                            blockers,
                            contribution,
                            spec_blockers_rec(*board, king_square, iter.bb),
                        );
                    }
                    if popcount(potential_blockers) == 1 {
                        blockers = blockers | potential_blockers;
                    } else {
                        proof {
                            assert(blockers | 0u64 == blockers) by (bit_vector);
                        }
                    }
                },
                None => {
                    break ;
                },
            }
        }
        proof {
            assert(spec_blockers_rec(*board, king_square, 0) == 0);
            assert(blockers | 0u64 == blockers) by (bit_vector);
        }
        blockers
    }
    /// Whether a pseudo-legal move is legal: a king step must not walk
    /// into an attack; everything else answers to the pin and check
    /// rules.
    pub fn is_legal(
        &self,
        board: &BoardState,
        mv: &Move,
        blockers: BB,
        checkers: BB,
        king_square: SquareIndex,
    ) -> (r: bool)
        requires
            self.wf(),
            king_square < 64,
        ensures
            r == spec_is_legal(*board, *mv, blockers, checkers, king_square),
    {
        let is_castle: bool = mv.kind == MoveType::CastleKing || mv.kind == MoveType::CastleQueen;
        if king_square == mv.from && !is_castle {
            mv.to < 64 && !self.is_attacked(board, mv.to)
        } else {
            self.is_legal_non_king_move(board, mv, blockers, checkers, king_square)
        }
    }

    /// Legality of a move of anything but the king: nothing helps
    /// against a double check, a single check must be caught or
    /// blocked, and a pinned man must stay on its pin line.
    pub fn is_legal_non_king_move(
        &self,
        board: &BoardState,
        mv: &Move,
        blockers: BB,
        checkers: BB,
        king_square: SquareIndex,
    ) -> (r: bool)
        requires
            self.wf(),
            king_square < 64,
        ensures
            r == spec_is_legal_non_king_move(*board, *mv, blockers, checkers, king_square),
        decreases (if mv.kind == MoveType::EnPassantCapture {
            2int
        } else {
            0int
        }),
    {
        let num_checkers: u32 = popcount(checkers);
        if num_checkers > 1 {
            return false;
        }
        if mv.kind == MoveType::EnPassantCapture {
            return self.is_legal_en_passant(board, mv, king_square);
        } else if mv.kind == MoveType::CastleKing || mv.kind == MoveType::CastleQueen {
            return self.is_legal_castle(board, mv, num_checkers);
        }
        if mv.from >= 64 || mv.to >= 64 {
            return false;
        }
        let pinned: bool = Self::is_absolutely_pinned(mv, blockers);
        if num_checkers == 1 {
            let piece_bb: BB = 1u64 << mv.to;
            proof {
                if checkers == 0 {
                    assert(pcount(0u64) == 0);
                }
            }
            let attacker_square: u64 = first_set_square(checkers);
            if mv.to == attacker_square {
                !pinned
            } else {
                let attacking_ray: BB = self.lookup.ray_between(king_square, attacker_square);
                !pinned && ((attacking_ray & piece_bb) != 0)
            }
        } else if !pinned {
            true
        } else {
            self.is_legal_pin_move(board, mv)
        }
    }

    /// Legality of an en-passant capture: both pawns leave their
    /// squares at once, so the check test runs on a board with the
    /// captured pawn already gone.
    pub fn is_legal_en_passant(
        &self,
        board: &BoardState,
        mv: &Move,
        king_square: SquareIndex,
    ) -> (r: bool)
        requires
            self.wf(),
            king_square < 64,
        ensures
            r == spec_is_legal_en_passant(*board, *mv, king_square),
        decreases 1int,
    {
        if mv.to >= 64 || mv.from >= 64 {
            return false;
        }
        let us: Colour = board.active_player;
        let them = us.opposite();
        let victim: i64 = if us == Colour::White {
            mv.to as i64 - 8
        } else {
            mv.to as i64 + 8
        };
        if victim < 0 || victim > 63 {
            return false;
        }
        let mut copy: BoardState = *board;
        // Remove the captured pawn so that pins across its square are
        // seen by the blocker and checker computation.
        copy.position.remove_piece(them, PieceType::Pawn, victim as u64);
        let temp_mv: Move = Move { to: mv.to, from: mv.from, kind: MoveType::Capture };
        let blockers: BB = self.calculate_blockers(&copy, king_square);
        let checkers: BB = self.attacks_to(&copy, king_square);
        self.is_legal_non_king_move(&copy, &temp_mv, blockers, checkers, king_square)
    }

    /// Legality of a castle: never while in check, and never through
    /// an attacked square.
    pub fn is_legal_castle(&self, board: &BoardState, mv: &Move, num_checkers: u32) -> (r: bool)
        requires
            self.wf(),
        ensures
            r == spec_is_legal_castle(*board, *mv, num_checkers as nat),
    {
        if num_checkers != 0 {
            return false;
        }
        if mv.kind == MoveType::CastleKing {
            if board.active_player == Colour::White {
                !self.is_attacked(board, 5) && !self.is_attacked(board, 6)
            } else {
                !self.is_attacked(board, 61) && !self.is_attacked(board, 62)
            }
        } else if mv.kind == MoveType::CastleQueen {
            if board.active_player == Colour::White {
                !self.is_attacked(board, 2) && !self.is_attacked(board, 3)
            } else {
                !self.is_attacked(board, 58) && !self.is_attacked(board, 59)
            }
        } else {
            true
        }
    }

    /// Whether a pinned man's move keeps its pin line through the
    /// king.
    fn is_legal_pin_move(&self, board: &BoardState, mv: &Move) -> (r: bool)
        requires
            self.wf(),
            mv.from < 64,
            mv.to < 64,
        ensures
            r == spec_is_legal_pin_move(*board, *mv),
    {
        let ray: BB = self.lookup.between(mv.to, mv.from);
        let overlap: BB = ray & board.position.bb(board.active_player, PieceType::King);
        overlap != 0
    }

    /// Whether the move's source square lies among the pinned men.
    fn is_absolutely_pinned(mv: &Move, blockers: BB) -> (r: bool)
        requires
            mv.from < 64,
        ensures
            r == spec_is_absolutely_pinned(*mv, blockers),
    {
        let piece_bb: BB = 1u64 << mv.from;
        (blockers & piece_bb) != 0
    }

    /// Every legal move of the board's side to move, in generation
    /// order: pawns, castles, knights, king, rooks, bishops, queens,
    /// each split and filtered as the legality rules demand. A board
    /// without a king for the side to move is an invariant-violation
    /// error.
    pub fn all_moves(&mut self, board: &BoardState) -> (r: Result<Vec<Move>, EngineError>)
        requires
            old(self).wf(),
            board.en_passant matches Some(t) ==> t < 64,
        ensures
            final(self).wf(),
            r matches Ok(list) ==> list@ == spec_all_moves(*board),
            r is Err <==> board.position.spec_bb(board.active_player, PieceType::King) == 0,
    {
        let mut list: Vec<Move> = Vec::new();
        self.board = *board;
        Self::gen_pseudo_legal_pawn_moves(board, &mut list);
        Self::gen_pseudo_legal_castles(board, &mut list);
        self.gen_pseudo_legal_moves(board, &mut list, PieceType::Knight);
        self.gen_pseudo_legal_moves(board, &mut list, PieceType::King);
        self.gen_pseudo_legal_moves(board, &mut list, PieceType::Rook);
        self.gen_pseudo_legal_moves(board, &mut list, PieceType::Bishop);
        self.gen_pseudo_legal_moves(board, &mut list, PieceType::Queen);
        proof {
            assert(list@ =~= spec_pseudo_moves(*board));
        }
        let king_bb: BB = board.position.bb(board.active_player, PieceType::King);
        if king_bb == 0 {
            return Err(EngineError::new("no king piece found for the side to move"));
        }
        let king_square: SquareIndex = first_set_square(king_bb);
        let blockers: BB = self.calculate_blockers(board, king_square);
        let checkers: BB = self.attacks_to(board, king_square);
        let mut out: Vec<Move> = Vec::new();
        let mut i: usize = 0;
        proof {
            assert(list@.skip(0) =~= list@);
        }
        while i < list.len()
            invariant
                self.wf(),
                i <= list.len(),
                king_square < 64,
                king_square == low_bit(
                    board.position.spec_bb(board.active_player, PieceType::King),
                ),
                blockers == spec_calculate_blockers(*board, king_square),
                checkers == spec_attacks_to(*board, king_square),
                list@ == spec_pseudo_moves(*board),
                filter_legal(list@, *board, blockers, checkers, king_square) == out@
                    + filter_legal(
                    list@.skip(i as int),
                    *board,
                    blockers,
                    checkers,
                    king_square,
                ),
            decreases list@.len() - i,
        {
            let mv: Move = list[i];
            let ghost out_before = out@;
            proof {
                assert(list@.skip(i as int).first() == mv);
                assert(list@.skip(i as int).drop_first() =~= list@.skip(i as int + 1));
            }
            if self.is_legal(board, &mv, blockers, checkers, king_square) {
                out.push(mv);
            }
            proof {
                assert(out_before + filter_legal(
                    list@.skip(i as int),
                    *board,
                    blockers,
                    checkers,
                    king_square,
                ) =~= out@ + filter_legal(
                    list@.skip(i as int + 1),
                    *board,
                    blockers,
                    checkers,
                    king_square,
                ));
            }
            i = i + 1;
        }
        proof {
            assert(list@.skip(list@.len() as int) =~= Seq::<Move>::empty());
            assert(out@ =~= out@ + filter_legal(
                list@.skip(list@.len() as int),
                *board,
                blockers,
                checkers,
                king_square,
            ));
        }
        Ok(out)
    }

}

} // verus!
