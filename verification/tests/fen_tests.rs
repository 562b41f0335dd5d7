//! FEN codec behaviour: round trips, normalization, and the rejection
//! of malformed fields.

use rusty_chess::fen;
use rusty_chess::types::colour::Colour;

#[test]
fn start_position_round_trip() {
    let board = fen::parse(fen::START).ok().unwrap();
    let text = fen::board_to_fen(&board).ok().unwrap();
    assert_eq!(text.as_str(), fen::START);
}

#[test]
fn kiwipete_round_trip() {
    let f = "r3k2r/p1ppqpb1/bn2pnp1/3PN3/1p2P3/2N2Q1p/PPPBBPPP/R3K2R w KQkq - 0 1";
    let board = fen::parse(f).ok().unwrap();
    assert_eq!(fen::board_to_fen(&board).ok().unwrap().as_str(), f);
}

#[test]
fn en_passant_round_trip() {
    let f = "rnbqkbnr/pppppppp/8/8/4P3/8/PPPP1PPP/RNBQKBNR b KQkq e3 0 1";
    let board = fen::parse(f).ok().unwrap();
    assert_eq!(board.en_passant, Some(20));
    assert_eq!(fen::board_to_fen(&board).ok().unwrap().as_str(), f);
}

#[test]
fn castling_rights_are_normalized() {
    // The rights field is an unordered subset on the way in and comes
    // back out in the canonical KQkq order.
    let board = fen::parse("rnbqkbnr/pppppppp/8/8/8/8/PPPPPPPP/RNBQKBNR w qkQK - 0 1")
        .ok()
        .unwrap();
    let text = fen::board_to_fen(&board).ok().unwrap();
    assert_eq!(
        text.as_str(),
        "rnbqkbnr/pppppppp/8/8/8/8/PPPPPPPP/RNBQKBNR w KQkq - 0 1"
    );
}

#[test]
fn no_rights_round_trip_as_dash() {
    let f = "8/8/8/8/8/8/8/KQk5 w - - 12 34";
    let board = fen::parse(f).ok().unwrap();
    assert!(!board.castling_rights.white_king);
    assert_eq!(fen::board_to_fen(&board).ok().unwrap().as_str(), f);
}

#[test]
fn parse_reads_side_and_counters() {
    let board = fen::parse("8/2p5/3p4/KP5r/1R3p1k/8/4P1P1/8 w - - 7 42").ok().unwrap();
    assert_eq!(board.active_player, Colour::White);
    assert_eq!(board.half_moves, 7);
    assert_eq!(board.full_moves, 42);
    assert_eq!(board.en_passant, None);
}

#[test]
fn parse_rejects_wrong_field_count() {
    assert!(fen::parse("8/8/8/8/8/8/8/8 w - -").is_err());
    assert!(fen::parse("").is_err());
    assert!(fen::parse("8/8/8/8/8/8/8/8 w - - 0 1 extra").is_err());
}

#[test]
fn parse_rejects_bad_side() {
    assert!(fen::parse("8/8/8/8/8/8/8/8 x - - 0 1").is_err());
    assert!(fen::parse("8/8/8/8/8/8/8/8 ww - - 0 1").is_err());
}

#[test]
fn parse_rejects_bad_placement() {
    // A short rank.
    assert!(fen::parse("7/8/8/8/8/8/8/8 w - - 0 1").is_err());
    // An overlong rank.
    assert!(fen::parse("9/8/8/8/8/8/8/8 w - - 0 1").is_err());
    // Too few ranks.
    assert!(fen::parse("8/8/8/8/8/8/8 w - - 0 1").is_err());
    // A letter that stands for no piece.
    assert!(fen::parse("7x/8/8/8/8/8/8/8 w - - 0 1").is_err());
}

#[test]
fn parse_rejects_bad_en_passant() {
    assert!(fen::parse("8/8/8/8/8/8/8/8 w - e9 0 1").is_err());
    assert!(fen::parse("8/8/8/8/8/8/8/8 w - i3 0 1").is_err());
    assert!(fen::parse("8/8/8/8/8/8/8/8 w - e33 0 1").is_err());
}

#[test]
fn parse_rejects_bad_counters() {
    assert!(fen::parse("8/8/8/8/8/8/8/8 w - - x 1").is_err());
    assert!(fen::parse("8/8/8/8/8/8/8/8 w - - 0 99999999999999").is_err());
    assert!(fen::parse("8/8/8/8/8/8/8/8 w - - -1 1").is_err());
}

#[test]
fn parse_accepts_stray_whitespace() {
    let board = fen::parse("  8/8/8/8/8/8/8/KQk5   w  -  - 0 1  ").ok().unwrap();
    assert_eq!(board.active_player, Colour::White);
}
