//! Perft oracles: exact node counts from the three reference
//! positions.

use rusty_chess::fen;
use rusty_chess::search::perft::Perft;

fn perft_of(f: &str, depth: i32) -> usize {
    let board = fen::parse(f).ok().unwrap();
    let mut perft = Perft::default();
    perft.perft_inner(&board, depth).ok().unwrap()
}

const KIWIPETE: &str = "r3k2r/p1ppqpb1/bn2pnp1/3PN3/1p2P3/2N2Q1p/PPPBBPPP/R3K2R w KQkq - 0 1";

const POSITION3: &str = "8/2p5/3p4/KP5r/1R3p1k/8/4P1P1/8 w - - 0 1";

#[test]
fn perft_start_shallow() {
    assert_eq!(perft_of(fen::START, 1), 20);
    assert_eq!(perft_of(fen::START, 2), 400);
    assert_eq!(perft_of(fen::START, 3), 8902);
}

#[test]
fn perft_start_depth_4() {
    assert_eq!(perft_of(fen::START, 4), 197281);
}

#[test]
fn perft_start_depth_5() {
    assert_eq!(perft_of(fen::START, 5), 4865609);
}

#[test]
fn perft_kiwipete_shallow() {
    assert_eq!(perft_of(KIWIPETE, 1), 48);
    assert_eq!(perft_of(KIWIPETE, 2), 2039);
    assert_eq!(perft_of(KIWIPETE, 3), 97862);
}

#[test]
fn perft_kiwipete_depth_4() {
    assert_eq!(perft_of(KIWIPETE, 4), 4085603);
}

#[test]
fn perft_position3_shallow() {
    assert_eq!(perft_of(POSITION3, 1), 14);
    assert_eq!(perft_of(POSITION3, 4), 43238);
}

#[test]
fn perft_position3_depth_5() {
    assert_eq!(perft_of(POSITION3, 5), 674624);
}
