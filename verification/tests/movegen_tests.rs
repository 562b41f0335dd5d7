//! The move generation suite: pins, checks, castling, en passant and
//! pawn generation over concrete positions.

use rusty_chess::fen;
use rusty_chess::movegen::MoveGen;
use rusty_chess::types::board_state::BoardState;
use rusty_chess::types::chess_move::{Move, MoveType};
use rusty_chess::types::square::{Square, SquareIndex};
use rusty_chess::types::{NORTH, RANK2};

fn make_move(to: Square, from: Square) -> Move {
    Move { to: to as SquareIndex, from: from as SquareIndex, kind: MoveType::Quiet }
}

fn king_square(board: &BoardState) -> SquareIndex {
    let us = board.active_player;
    board
        .position
        .bb(us, rusty_chess::types::piece_type::PieceType::King)
        .trailing_zeros() as SquareIndex
}

#[test]
fn cannot_capture_checking_piece_while_pinned() {
    let gen: MoveGen = MoveGen::default();
    let pos: BoardState = fen::parse("2r5/8/8/2B5/8/8/8/2K3r1 w - - 0 1").ok().unwrap();
    let mv: Move = make_move(Square::G1, Square::C5);
    let king_square = king_square(&pos);
    let blockers = gen.calculate_blockers(&pos, king_square);
    let checkers = gen.attacks_to(&pos, king_square);
    assert_eq!(gen.is_legal(&pos, &mv, blockers, checkers, king_square), false);
}

#[test]
fn cannot_block_checking_piece_while_pinned() {
    let gen: MoveGen = MoveGen::default();
    let pos: BoardState = fen::parse("2r5/8/8/2B5/8/8/8/2K4r w - - 0 1").ok().unwrap();
    let king_square = king_square(&pos);
    let blockers = gen.calculate_blockers(&pos, king_square);
    let checkers = gen.attacks_to(&pos, king_square);
    let mv = make_move(Square::G1, Square::C5);
    assert_eq!(gen.is_legal(&pos, &mv, blockers, checkers, king_square), false);
}

#[test]
fn cannot_move_pinned_piece() {
    let gen: MoveGen = MoveGen::default();
    let pos: BoardState = fen::parse("8/8/8/8/1K1N3r/8/8/8 w - - 0 1").ok().unwrap();
    let king_square = king_square(&pos);
    let blockers = gen.calculate_blockers(&pos, king_square);
    let checkers = gen.attacks_to(&pos, king_square);
    let mv = make_move(Square::C6, Square::D4);
    assert_eq!(gen.is_legal_non_king_move(&pos, &mv, blockers, checkers, king_square), false);
    let blockers = gen.calculate_blockers(&pos, king_square);
    let checkers = gen.attacks_to(&pos, king_square);
    let mv = make_move(Square::C2, Square::D4);
    assert_eq!(gen.is_legal_non_king_move(&pos, &mv, blockers, checkers, king_square), false);
}

#[test]
fn can_move_piece_along_pinned_ray() {
    let gen: MoveGen = MoveGen::default();
    let pos = fen::parse("8/8/8/8/8/8/1K3R1r/8 w - - 0 1").ok().unwrap();
    let king_square = king_square(&pos);
    let blockers = gen.calculate_blockers(&pos, king_square);
    let checkers = gen.attacks_to(&pos, king_square);
    // Move towards pinner without capture
    let mv = make_move(Square::G2, Square::F2);
    assert_eq!(gen.is_legal_non_king_move(&pos, &mv, blockers, checkers, king_square), true);
    let blockers = gen.calculate_blockers(&pos, king_square);
    let checkers = gen.attacks_to(&pos, king_square);
    // Move towards pinner with capture
    let mv = make_move(Square::H2, Square::F2);
    assert_eq!(gen.is_legal_non_king_move(&pos, &mv, blockers, checkers, king_square), true);
    let blockers = gen.calculate_blockers(&pos, king_square);
    let checkers = gen.attacks_to(&pos, king_square);
    // Move away from pinner
    let mv = make_move(Square::E2, Square::F2);
    assert_eq!(gen.is_legal_non_king_move(&pos, &mv, blockers, checkers, king_square), true);
    let blockers = gen.calculate_blockers(&pos, king_square);
    let checkers = gen.attacks_to(&pos, king_square);
    // Moving off pin is illegal
    let mv = make_move(Square::F1, Square::F2);
    assert_eq!(gen.is_legal_non_king_move(&pos, &mv, blockers, checkers, king_square), false);
}

#[test]
fn cannot_move_non_king_with_multiple_checkers() {
    let gen: MoveGen = MoveGen::default();
    let pos = fen::parse("8/1r6/8/8/3N4/8/1K5r/8 w - - 0 1").ok().unwrap();
    let king_square = king_square(&pos);
    let blockers = gen.calculate_blockers(&pos, king_square);
    let checkers = gen.attacks_to(&pos, king_square);
    let mv = make_move(Square::D4, Square::C6);
    assert_eq!(gen.is_legal_non_king_move(&pos, &mv, blockers, checkers, king_square), false);
}

#[test]
fn can_move_king() {
    let gen: MoveGen = MoveGen::default();
    let pos = fen::parse("8/8/8/8/8/8/1K5r/8 w - - 0 1").ok().unwrap();
    let mv = make_move(Square::A2, Square::B2);
    assert_eq!(gen.is_attacked(&pos, mv.to), true);
    let mv = make_move(Square::B1, Square::B2);
    assert_eq!(gen.is_attacked(&pos, mv.to), false);
}

#[test]
fn cannot_block_using_xray() {
    let gen: MoveGen = MoveGen::default();
    let pos: BoardState = fen::parse("8/8/8/8/8/3B4/3K3r/8 w - - 0 1").ok().unwrap();
    let king_square = king_square(&pos);
    let blockers = gen.calculate_blockers(&pos, king_square);
    let checkers = gen.attacks_to(&pos, king_square);
    let mv = make_move(Square::C2, Square::D3);
    assert_eq!(gen.is_legal_non_king_move(&pos, &mv, blockers, checkers, king_square), false);
    let mv = make_move(Square::E2, Square::D3);
    assert_eq!(gen.is_legal_non_king_move(&pos, &mv, blockers, checkers, king_square), true);
}

#[test]
fn king_cannot_castle_through_check() {
    let gen: MoveGen = MoveGen::default();
    let pos: BoardState = fen::parse("8/8/8/8/8/3b4/8/R3K2R w KQ - 0 1").ok().unwrap();
    let _mv: Move = make_move(Square::C2, Square::D3);
    let mv: Move = Move { to: 0, from: 0, kind: MoveType::CastleKing };
    assert_eq!(gen.is_legal_castle(&pos, &mv, 0), false);
}

#[test]
fn king_cannot_castle_in_check() {
    let gen: MoveGen = MoveGen::default();
    let pos: BoardState = fen::parse("8/8/8/8/8/2b5/8/R3K2R w KQ - 0 1").ok().unwrap();
    let mv: Move = Move { to: 0, from: 0, kind: MoveType::CastleKing };
    assert_eq!(gen.is_legal_castle(&pos, &mv, 1), false);
}

#[test]
fn en_passant_discovered_check() {
    let gen: MoveGen = MoveGen::default();
    let pos: BoardState = fen::parse("8/8/8/K2Pp2q/8/8/8/8 w - e6 0 1").ok().unwrap();
    let mv: Move = Move {
        to: Square::E6 as SquareIndex,
        from: Square::D5 as SquareIndex,
        kind: MoveType::EnPassantCapture,
    };
    let king_square = king_square(&pos);
    assert_eq!(gen.is_legal_en_passant(&pos, &mv, king_square), false);
}

#[test]
fn en_passant_out_of_check() {
    let gen: MoveGen = MoveGen::default();
    let pos: BoardState = fen::parse("8/8/8/3Pp2q/3K4/8/8/8 w - e6 0 1").ok().unwrap();
    let mv: Move = Move {
        to: Square::E6 as SquareIndex,
        from: Square::D5 as SquareIndex,
        kind: MoveType::EnPassantCapture,
    };
    let king_square = king_square(&pos);
    assert_eq!(gen.is_legal_en_passant(&pos, &mv, king_square), true);
}

#[test]
fn random_fen_1() {
    let gen: MoveGen = MoveGen::default();
    let pos: BoardState = fen::parse("8/2p5/3p4/KP5r/5R1k/8/4P1P1/8 b - - 0 1").ok().unwrap();
    let mv: Move = Move {
        to: Square::G5 as SquareIndex,
        from: Square::H4 as SquareIndex,
        kind: MoveType::Quiet,
    };
    let king_square = king_square(&pos);
    let blockers = gen.calculate_blockers(&pos, king_square);
    let checkers = gen.attacks_to(&pos, king_square);
    assert_eq!(gen.is_legal(&pos, &mv, blockers, checkers, king_square), true);
}

#[test]
fn random_fen_2() {
    let gen: MoveGen = MoveGen::default();
    let pos: BoardState =
        fen::parse("rnbqk1nr/pppp1ppp/8/4p3/1b1P4/P7/1PP1PPPP/RNBQKBNR w KQkq - 0 1")
            .ok()
            .unwrap();
    let mv: Move = Move {
        to: Square::B4 as SquareIndex,
        from: Square::A3 as SquareIndex,
        kind: MoveType::Capture,
    };
    let king_square = king_square(&pos);
    let blockers = gen.calculate_blockers(&pos, king_square);
    let checkers = gen.attacks_to(&pos, king_square);
    assert_eq!(gen.is_legal(&pos, &mv, blockers, checkers, king_square), true);
}

#[test]
fn random_fen_3() {
    let gen: MoveGen = MoveGen::default();
    let pos: BoardState =
        fen::parse("r3k2r/p1ppqpb1/bn2pnp1/3PN3/1p2P3/P1N2Q1p/1PPBBPPP/R3K2R w KQkq - 0 1")
            .ok()
            .unwrap();
    let mv = Move {
        to: Square::A3 as SquareIndex,
        from: Square::B4 as SquareIndex,
        kind: MoveType::Capture,
    };
    let king_square = king_square(&pos);
    let blockers = gen.calculate_blockers(&pos, king_square);
    let checkers = gen.attacks_to(&pos, king_square);
    assert_eq!(gen.is_legal(&pos, &mv, blockers, checkers, king_square), true);
}

#[test]
fn random_fen_4() {
    let gen: MoveGen = MoveGen::default();
    let pos: BoardState =
        fen::parse("r3k2r/p1ppqpb1/bn2pnp1/3PN3/Pp2P3/2N2Q1p/1PPBBPPP/R3K2R w KQkq a3 0 1")
            .ok()
            .unwrap();
    let mv = Move {
        to: Square::A3 as SquareIndex,
        from: Square::B4 as SquareIndex,
        kind: MoveType::EnPassantCapture,
    };
    let king_square = king_square(&pos);
    let blockers = gen.calculate_blockers(&pos, king_square);
    let checkers = gen.attacks_to(&pos, king_square);
    assert_eq!(gen.is_legal(&pos, &mv, blockers, checkers, king_square), true);
}

#[test]
fn castle_through_knight_attacks() {
    let gen: MoveGen = MoveGen::default();
    let pos: BoardState =
        fen::parse("r3k2r/p1ppqpb1/bnN1pnp1/3P4/1p2P3/2N2Q1p/PPPBBPPP/R3K2R b KQkq - 0 1")
            .ok()
            .unwrap();
    let mv: Move = Move {
        to: Square::C8 as SquareIndex,
        from: Square::E8 as SquareIndex,
        kind: MoveType::CastleQueen,
    };
    let king_square = king_square(&pos);
    let blockers = gen.calculate_blockers(&pos, king_square);
    let checkers = gen.attacks_to(&pos, king_square);
    assert_eq!(gen.is_legal(&pos, &mv, blockers, checkers, king_square), false);
}

#[test]
fn castle_through_more_knight_attacks() {
    let gen: MoveGen = MoveGen::default();
    let pos: BoardState =
        fen::parse("r3k2r/p1ppqpb1/bn2pnN1/3P4/1p2P3/2N2Q1p/PPPBBPPP/R3K2R b KQkq - 0 1")
            .ok()
            .unwrap();
    let mv: Move = Move {
        to: Square::G8 as SquareIndex,
        from: Square::E8 as SquareIndex,
        kind: MoveType::CastleKing,
    };
    let king_square = king_square(&pos);
    let blockers = gen.calculate_blockers(&pos, king_square);
    let checkers = gen.attacks_to(&pos, king_square);
    assert_eq!(gen.is_legal(&pos, &mv, blockers, checkers, king_square), false);
}

#[test]
fn castle_through_even_more_knight_attacks() {
    let gen: MoveGen = MoveGen::default();
    let pos: BoardState =
        fen::parse("r3k2r/p1ppqNb1/bn2pn2/3P4/1p2P3/2N2Q1p/PPPBBPPP/R3K2R b KQkq - 0 1")
            .ok()
            .unwrap();
    let mv: Move = Move {
        to: Square::C8 as SquareIndex,
        from: Square::E8 as SquareIndex,
        kind: MoveType::CastleQueen,
    };
    let king_square = king_square(&pos);
    let blockers = gen.calculate_blockers(&pos, king_square);
    let checkers = gen.attacks_to(&pos, king_square);
    assert_eq!(gen.is_legal(&pos, &mv, blockers, checkers, king_square), false);
}

#[test]
fn queen_captures() {
    let gen: MoveGen = MoveGen::default();
    let pos: BoardState =
        fen::parse("r3k2r/p1ppqpb1/1n2pnp1/3PN3/1p2P3/2N2Q1p/PPPBbPPP/R2K3R w KQkq - 0 1")
            .ok()
            .unwrap();
    let mv: Move = Move {
        to: Square::E2 as SquareIndex,
        from: Square::F3 as SquareIndex,
        kind: MoveType::Capture,
    };
    let king_square = king_square(&pos);
    let blockers = gen.calculate_blockers(&pos, king_square);
    let checkers = gen.attacks_to(&pos, king_square);
    assert_eq!(gen.is_legal(&pos, &mv, blockers, checkers, king_square), true);
}

#[test]
fn capture_checker_behind_ray() {
    let gen: MoveGen = MoveGen::default();
    let pos: BoardState =
        fen::parse("r3k2r/p1pp1pb1/bn2pnp1/1B1PN3/1pq1P3/2N2Q1p/PPPB1PPP/R4K1R w kq - 4 3")
            .ok()
            .unwrap();
    let mv: Move = Move {
        to: Square::C4 as SquareIndex,
        from: Square::B5 as SquareIndex,
        kind: MoveType::Capture,
    };
    let king_square = king_square(&pos);
    let blockers = gen.calculate_blockers(&pos, king_square);
    let checkers = gen.attacks_to(&pos, king_square);
    assert_eq!(gen.is_legal(&pos, &mv, blockers, checkers, king_square), true);
}

#[test]
fn challenge() {
    let gen: MoveGen = MoveGen::default();
    let pos: BoardState =
        fen::parse("r6r/1bp2pP1/R2qkn2/1P6/1pPQ4/1B3N2/1B1P2p1/4K2R b K c3 0 1").ok().unwrap();
    let mv: Move = Move {
        to: Square::C3 as SquareIndex,
        from: Square::B4 as SquareIndex,
        kind: MoveType::EnPassantCapture,
    };
    let king_square = king_square(&pos);
    let blockers = gen.calculate_blockers(&pos, king_square);
    let checkers = gen.attacks_to(&pos, king_square);
    assert_eq!(gen.is_legal(&pos, &mv, blockers, checkers, king_square), false);
}

#[test]
fn castle_pawn_attacks() {
    let gen: MoveGen = MoveGen::default();
    let pos: BoardState = fen::parse("8/8/8/8/8/8/6p1/4K2R w K - 0 1").ok().unwrap();
    let mv: Move = Move {
        to: Square::E1 as SquareIndex,
        from: Square::G1 as SquareIndex,
        kind: MoveType::CastleKing,
    };
    let king_square = king_square(&pos);
    let blockers = gen.calculate_blockers(&pos, king_square);
    let checkers = gen.attacks_to(&pos, king_square);
    assert_eq!(gen.is_legal(&pos, &mv, blockers, checkers, king_square), false);
}

#[test]
fn captures_attacker_on_ray() {
    let gen: MoveGen = MoveGen::default();
    let pos: BoardState = fen::parse("8/8/8/8/8/8/1K1R2r1/8 w - - 0 1").ok().unwrap();
    let mv: Move = Move {
        to: Square::G2 as SquareIndex,
        from: Square::D2 as SquareIndex,
        kind: MoveType::Capture,
    };
    let king_square = king_square(&pos);
    let blockers = gen.calculate_blockers(&pos, king_square);
    let checkers = gen.attacks_to(&pos, king_square);
    assert_eq!(gen.is_legal(&pos, &mv, blockers, checkers, king_square), true);
}

#[test]
fn castles_no_obstruction() {
    let pos: BoardState = fen::parse("8/8/8/8/8/8/8/R3K2R w KQ - 0 1").ok().unwrap();
    let mut list: Vec<Move> = Vec::with_capacity(256);
    MoveGen::gen_pseudo_legal_castles(&pos, &mut list);
    assert_eq!(list.len(), 2);
}

#[test]
fn no_castles_with_obstruction() {
    let pos: BoardState = fen::parse("8/8/8/8/8/8/8/R3KB1R w KQ - 0 1").ok().unwrap();
    let mut list: Vec<Move> = Vec::with_capacity(256);
    MoveGen::gen_pseudo_legal_castles(&pos, &mut list);
    assert_eq!(list.len(), 1);
    let pos: BoardState = fen::parse("8/8/8/8/8/8/8/R1B1K2R w KQ - 0 1").ok().unwrap();
    let mut list: Vec<Move> = Vec::with_capacity(256);
    MoveGen::gen_pseudo_legal_castles(&pos, &mut list);
    assert_eq!(list.len(), 1);
}

#[test]
fn no_castles_without_rights() {
    let pos: BoardState = fen::parse("8/8/8/8/8/8/8/R3K2R w K - 0 1").ok().unwrap();
    let mut list: Vec<Move> = Vec::with_capacity(256);
    MoveGen::gen_pseudo_legal_castles(&pos, &mut list);
    assert_eq!(list.len(), 1);
}

#[test]
fn black_queenside_castle() {
    let pos: BoardState =
        fen::parse("r3k2r/p1ppq1b1/bn2pn2/3P2N1/1p2P3/2N2Q1p/PPPBBPPP/R3K2R b KQkq - 0 1")
            .ok()
            .unwrap();
    let mut list: Vec<Move> = Vec::with_capacity(256);
    MoveGen::gen_pseudo_legal_castles(&pos, &mut list);
    let _m1 = list.get(0).unwrap();
    let _m2 = list.get(1).unwrap();
    assert_eq!(list.len(), 2);
}

#[test]
fn gen_random_pawn_moves1() {
    let pos: BoardState = fen::parse("3N4/1p1N2R1/kp3PQp/8/p2P4/B7/6p1/b2b2K1 w - - 0 1")
        .ok()
        .unwrap();
    let mut list: Vec<Move> = Vec::with_capacity(256);
    MoveGen::gen_pseudo_legal_pawn_moves(&pos, &mut list);
    assert_eq!(list.len(), 2);
}

#[test]
fn gen_random_pawn_moves2() {
    let pos: BoardState = fen::parse("8/1P5n/1NB5/2KbQ1P1/2n5/p4R2/Pp2p3/1k2b3 w - - 0 1")
        .ok()
        .unwrap();
    let mut list: Vec<Move> = Vec::with_capacity(256);
    MoveGen::gen_pseudo_legal_pawn_moves(&pos, &mut list);
    assert_eq!(list.len(), 5);
}

#[test]
fn gen_random_pawn_moves3() {
    let pos: BoardState = fen::parse("3r2r1/P6b/q2pKPk1/4P3/1p1P1R2/5n2/1B2N3/8 w - - 0 1")
        .ok()
        .unwrap();
    let mut list: Vec<Move> = Vec::with_capacity(256);
    MoveGen::gen_pseudo_legal_pawn_moves(&pos, &mut list);
    assert_eq!(list.len(), 7);
}

#[test]
fn gen_random_pawn_moves4() {
    let pos: BoardState = fen::parse("8/4PP2/2n3p1/6P1/2p1p2q/K1P3k1/b1p1P1B1/2R5 w - - 0 1")
        .ok()
        .unwrap();
    let mut list: Vec<Move> = Vec::with_capacity(256);
    MoveGen::gen_pseudo_legal_pawn_moves(&pos, &mut list);
    assert_eq!(list.len(), 9);
}

#[test]
fn gen_random_pawn_moves5() {
    let pos: BoardState = fen::parse("3bBr2/8/P7/2PPp3/1N6/3bK2R/2Pp4/1k1qN3 w - d6 0 1")
        .ok()
        .unwrap();
    let mut list: Vec<Move> = Vec::with_capacity(256);
    MoveGen::gen_pseudo_legal_pawn_moves(&pos, &mut list);
    assert_eq!(list.len(), 7);
}

#[test]
fn extract_basic_pawn_moves() {
    let b = RANK2;
    let mut moves: Vec<Move> = Vec::new();
    MoveGen::extract_pawn_moves(b, NORTH, MoveType::Quiet, &mut moves);
    assert_eq!(moves.len(), 8);
    assert_eq!(moves.get(0).unwrap().to, 8);
    assert_eq!(moves.get(1).unwrap().to, 9);
}

/// Pawn moves for the board with white pawns on d3 and f5.
#[test]
fn extract_random_pawns() {
    let b: u64 = 0x200008000000;
    let mut moves: Vec<Move> = Vec::new();
    MoveGen::extract_pawn_moves(b, NORTH, MoveType::Quiet, &mut moves);
    assert_eq!(moves.len(), 2);
    assert_eq!(moves.get(0).unwrap().to, Square::D4 as SquareIndex);
    assert_eq!(moves.get(0).unwrap().from, Square::D3 as SquareIndex);
    assert_eq!(moves.get(1).unwrap().to, Square::F6 as SquareIndex);
    assert_eq!(moves.get(1).unwrap().from, Square::F5 as SquareIndex);
}

#[test]
fn gen_en_passant() {
    let pos: BoardState = fen::parse("8/8/3p4/KPp4r/5R1k/8/8/8 w - c6 0 1").ok().unwrap();
    let mut list: Vec<Move> = Vec::with_capacity(256);
    MoveGen::gen_pseudo_legal_pawn_moves(&pos, &mut list);
    assert_eq!(list.len(), 2);
}

#[test]
fn gen_a3_to_b4() {
    let pos: BoardState = fen::parse("8/8/8/8/1p6/P7/8/8 w - - 0 1").ok().unwrap();
    let mut list: Vec<Move> = Vec::with_capacity(256);
    MoveGen::gen_pseudo_legal_pawn_moves(&pos, &mut list);
    assert_eq!(list.len(), 2);
}

#[test]
fn king_move_removed() {
    let board = fen::parse("rnbqkb1r/1ppppppp/p6n/8/8/3P4/PPP1PPPP/RN1QKBNR w KQkq - 1 2")
        .ok()
        .unwrap();
    let gen = MoveGen::default();
    assert_eq!(
        true,
        gen.is_legal(&board, &Move { from: 4, to: 11, kind: MoveType::Quiet }, 0, 0, 4)
    );
}
