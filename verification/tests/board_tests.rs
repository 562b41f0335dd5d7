//! Board transitions: make-move geometry, castling rights, en passant,
//! the move counters, and the structural invariants after moves.

use rusty_chess::fen;
use rusty_chess::movegen::MoveGen;
use rusty_chess::types::board_state::BoardState;
use rusty_chess::types::chess_move::{Move, MoveType};
use rusty_chess::types::colour::Colour;
use rusty_chess::types::piece_type::PieceType;
use rusty_chess::types::square::{Square, SquareIndex};

fn mv(from: Square, to: Square, kind: MoveType) -> Move {
    Move { from: from as SquareIndex, to: to as SquareIndex, kind }
}

/// Every piece-kind pair of boards is disjoint, the union of the kind
/// boards equals the union of the colour boards, and each side has one
/// king.
fn assert_structurally_sound(b: &BoardState) {
    let kinds = [
        PieceType::Pawn,
        PieceType::Knight,
        PieceType::Bishop,
        PieceType::Rook,
        PieceType::Queen,
        PieceType::King,
    ];
    let mut union: u64 = 0;
    for i in 0..6 {
        for j in 0..6 {
            if i != j {
                assert_eq!(b.position.bb_piece(kinds[i]) & b.position.bb_piece(kinds[j]), 0);
            }
        }
        union |= b.position.bb_piece(kinds[i]);
    }
    assert_eq!(union, b.position.bb_all());
    assert_eq!(b.position.bb(Colour::White, PieceType::King).count_ones(), 1);
    assert_eq!(b.position.bb(Colour::Black, PieceType::King).count_ones(), 1);
    if let Some(t) = b.en_passant {
        // The target sits on the third rank of the side that just
        // moved, its pawn directly behind.
        if b.active_player == Colour::Black {
            assert_eq!(t / 8, 2);
            assert_eq!(b.position.type_at(t + 8), Some(PieceType::Pawn));
            assert_eq!(b.position.colour_at(t + 8), Some(Colour::White));
        } else {
            assert_eq!(t / 8, 5);
            assert_eq!(b.position.type_at(t - 8), Some(PieceType::Pawn));
            assert_eq!(b.position.colour_at(t - 8), Some(Colour::Black));
        }
    }
}

#[test]
fn double_push_sets_en_passant() {
    let board = fen::parse(fen::START).ok().unwrap();
    let after = board.clone_with_move(&mv(Square::E2, Square::E4, MoveType::Quiet)).ok().unwrap();
    assert_eq!(after.en_passant, Some(Square::E3 as SquareIndex));
    assert_eq!(after.active_player, Colour::Black);
    assert_eq!(after.half_moves, 0);
    assert_eq!(after.full_moves, 1);
    assert_structurally_sound(&after);
}

#[test]
fn quiet_knight_move_counts_half_moves() {
    let board = fen::parse(fen::START).ok().unwrap();
    let after = board.clone_with_move(&mv(Square::G1, Square::F3, MoveType::Quiet)).ok().unwrap();
    assert_eq!(after.en_passant, None);
    assert_eq!(after.half_moves, 1);
    assert_eq!(after.full_moves, 1);
    assert_eq!(after.position.type_at(Square::F3 as SquareIndex), Some(PieceType::Knight));
    assert_eq!(after.position.type_at(Square::G1 as SquareIndex), None);
    assert_structurally_sound(&after);
}

#[test]
fn full_moves_grow_after_black() {
    let board = fen::parse(fen::START).ok().unwrap();
    let b1 = board.clone_with_move(&mv(Square::E2, Square::E4, MoveType::Quiet)).ok().unwrap();
    let b2 = b1.clone_with_move(&mv(Square::E7, Square::E5, MoveType::Quiet)).ok().unwrap();
    assert_eq!(b2.full_moves, 2);
    assert_eq!(b2.active_player, Colour::White);
    assert_structurally_sound(&b2);
}

#[test]
fn king_move_clears_both_rights() {
    let board = fen::parse("r3k2r/8/8/8/8/8/8/R3K2R w KQkq - 0 1").ok().unwrap();
    let after = board.clone_with_move(&mv(Square::E1, Square::E2, MoveType::Quiet)).ok().unwrap();
    assert!(!after.castling_rights.white_king);
    assert!(!after.castling_rights.white_queen);
    assert!(after.castling_rights.black_king);
    assert!(after.castling_rights.black_queen);
    assert_structurally_sound(&after);
}

#[test]
fn rook_move_clears_matching_right() {
    let board = fen::parse("r3k2r/8/8/8/8/8/8/R3K2R w KQkq - 0 1").ok().unwrap();
    let after = board.clone_with_move(&mv(Square::A1, Square::A2, MoveType::Quiet)).ok().unwrap();
    assert!(after.castling_rights.white_king);
    assert!(!after.castling_rights.white_queen);
    assert_structurally_sound(&after);
}

#[test]
fn capturing_a_corner_rook_clears_enemy_right() {
    let board = fen::parse("r3k2r/8/8/8/8/8/8/R3K2R w KQkq - 0 1").ok().unwrap();
    let after = board.clone_with_move(&mv(Square::A1, Square::A8, MoveType::Capture)).ok().unwrap();
    assert!(!after.castling_rights.black_queen);
    assert!(after.castling_rights.black_king);
    assert!(!after.castling_rights.white_queen);
    assert_structurally_sound(&after);
}

#[test]
fn castle_moves_king_and_rook() {
    let board = fen::parse("r3k2r/8/8/8/8/8/8/R3K2R w KQkq - 0 1").ok().unwrap();
    let after = board
        .clone_with_move(&mv(Square::E1, Square::G1, MoveType::CastleKing))
        .ok()
        .unwrap();
    assert_eq!(after.position.type_at(Square::G1 as SquareIndex), Some(PieceType::King));
    assert_eq!(after.position.type_at(Square::F1 as SquareIndex), Some(PieceType::Rook));
    assert_eq!(after.position.type_at(Square::E1 as SquareIndex), None);
    assert_eq!(after.position.type_at(Square::H1 as SquareIndex), None);
    assert!(!after.castling_rights.white_king);
    assert!(!after.castling_rights.white_queen);
    assert_structurally_sound(&after);
}

#[test]
fn en_passant_capture_removes_the_passed_pawn() {
    let board = fen::parse("8/8/8/3Pp2q/3K4/8/8/7k w - e6 0 1").ok().unwrap();
    let after = board
        .clone_with_move(&mv(Square::D5, Square::E6, MoveType::EnPassantCapture))
        .ok()
        .unwrap();
    assert_eq!(after.position.type_at(Square::E6 as SquareIndex), Some(PieceType::Pawn));
    assert_eq!(after.position.type_at(Square::E5 as SquareIndex), None);
    assert_eq!(after.position.type_at(Square::D5 as SquareIndex), None);
    assert_structurally_sound(&after);
}

#[test]
fn promotion_replaces_the_pawn() {
    let board = fen::parse("k7/4P3/8/8/8/8/8/4K3 w - - 0 5").ok().unwrap();
    let after = board
        .clone_with_move(&mv(Square::E7, Square::E8, MoveType::QueenPromotion))
        .ok()
        .unwrap();
    assert_eq!(after.position.type_at(Square::E8 as SquareIndex), Some(PieceType::Queen));
    assert_eq!(after.position.type_at(Square::E7 as SquareIndex), None);
    assert_eq!(after.half_moves, 0);
    assert_structurally_sound(&after);
}

#[test]
fn null_move_changes_nothing() {
    let board = fen::parse(fen::START).ok().unwrap();
    let after = board.clone_with_move(&Move::null()).ok().unwrap();
    assert_eq!(fen::board_to_fen(&after).ok().unwrap(), fen::board_to_fen(&board).ok().unwrap());
}

#[test]
fn make_move_rejects_empty_source() {
    let mut board = fen::parse(fen::START).ok().unwrap();
    assert!(board.make_move(&mv(Square::E4, Square::E5, MoveType::Quiet)).is_err());
    // The failed call leaves the board unchanged.
    assert_eq!(fen::board_to_fen(&board).ok().unwrap().as_str(), fen::START);
}

#[test]
fn make_move_rejects_quiet_onto_occupied() {
    let mut board = fen::parse(fen::START).ok().unwrap();
    assert!(board.make_move(&mv(Square::D1, Square::D2, MoveType::Quiet)).is_err());
}

#[test]
fn make_move_rejects_off_board_squares() {
    let mut board = fen::parse(fen::START).ok().unwrap();
    assert!(board.make_move(&Move { from: 64, to: 0, kind: MoveType::Quiet }).is_err());
}

#[test]
fn structural_invariants_along_a_game() {
    // Walk a legal move at every step for a while and check the
    // structural invariants after each transition, and that the side
    // that just moved never leaves its king attacked.
    let mut gen = MoveGen::default();
    let mut board = fen::parse(fen::START).ok().unwrap();
    for _ in 0..30 {
        let moves = gen.all_moves(&board).ok().unwrap();
        if moves.is_empty() {
            break;
        }
        let mover = board.active_player;
        board = board.clone_with_move(&moves[moves.len() / 2]).ok().unwrap();
        assert_structurally_sound(&board);
        // The side not to move is not in check: ask from the mover's
        // point of view.
        let mut movers_view = board;
        movers_view.active_player = mover;
        let king = movers_view.position.bb(mover, PieceType::King).trailing_zeros() as u64;
        assert_eq!(gen.attacks_to(&movers_view, king), 0);
    }
}

#[test]
fn textual_and_structural_paths_agree() {
    // Applying a move to a parsed board and re-serializing matches
    // serializing first, re-parsing, finding the move by notation and
    // then applying it.
    let mut gen = MoveGen::default();
    let board = fen::parse(
        "r3k2r/p1ppqpb1/bn2pnp1/3PN3/1p2P3/2N2Q1p/PPPBBPPP/R3K2R w KQkq - 0 1",
    )
    .ok()
    .unwrap();
    let moves = gen.all_moves(&board).ok().unwrap();
    for m in &moves {
        let structural = fen::board_to_fen(&board.clone_with_move(m).ok().unwrap())
            .ok()
            .unwrap();
        let text = fen::board_to_fen(&board).ok().unwrap();
        let reparsed = fen::parse(text.as_str()).ok().unwrap();
        let notation = m.to_notation();
        let again = gen.all_moves(&reparsed).ok().unwrap();
        let found = again
            .iter()
            .find(|x| x.to_notation() == notation && x.kind == m.kind)
            .unwrap();
        let textual = fen::board_to_fen(&reparsed.clone_with_move(found).ok().unwrap())
            .ok()
            .unwrap();
        assert_eq!(structural, textual);
    }
}

#[test]
fn all_moves_is_deterministic() {
    let mut gen = MoveGen::default();
    let board = fen::parse(
        "r3k2r/p1ppqpb1/bn2pnp1/3PN3/1p2P3/2N2Q1p/PPPBBPPP/R3K2R w KQkq - 0 1",
    )
    .ok()
    .unwrap();
    let first = gen.all_moves(&board).ok().unwrap();
    let second = gen.all_moves(&board).ok().unwrap();
    assert_eq!(first, second);
}

#[test]
fn all_moves_requires_a_king() {
    let mut gen = MoveGen::default();
    let board = fen::parse("8/8/8/8/8/8/8/8 w - - 0 1").ok().unwrap();
    assert!(gen.all_moves(&board).is_err());
}

#[test]
fn startpos_moves_in_documented_order() {
    let mut gen = MoveGen::default();
    let board = fen::parse(fen::START).ok().unwrap();
    let moves = gen.all_moves(&board).ok().unwrap();
    assert_eq!(moves.len(), 20);
    // Pawns come first, by square then destination; single pushes
    // before double pushes.
    assert_eq!(moves[0], mv(Square::A2, Square::A3, MoveType::Quiet));
    assert_eq!(moves[7], mv(Square::H2, Square::H3, MoveType::Quiet));
    assert_eq!(moves[8], mv(Square::A2, Square::A4, MoveType::Quiet));
    // Knights close the list.
    assert_eq!(moves[16], mv(Square::B1, Square::A3, MoveType::Quiet));
    assert_eq!(moves[19], mv(Square::G1, Square::H3, MoveType::Quiet));
}
