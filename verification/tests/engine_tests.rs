//! Evaluation, search, and the small square and bitboard helpers.

use rusty_chess::bits::{first_set_square, popcount};
use rusty_chess::fen;
use rusty_chess::search::eval::eval;
use rusty_chess::search::{NegaMax, Searcher, MATE};
use rusty_chess::types::bitboard::{BBMethods, PieceItr, Shift};
use rusty_chess::types::chess_move::{Move, MoveType};
use rusty_chess::types::colour::Colour;
use rusty_chess::types::piece_type::PieceType;
use rusty_chess::types::square::{Rank, Square, SquareIndex, SquareIndexMethods};
use rusty_chess::types::{NORTH, EAST, RANK2};

#[test]
fn bare_kings_eval_exactly() {
    // Material cancels; the king table gives e1 a -50 and e8 a 0, and
    // the tables are applied without mirroring for Black.
    let board = fen::parse("4k3/8/8/8/8/8/8/4K3 w - - 0 1").ok().unwrap();
    assert_eq!(eval(&board), -50);
    let board = fen::parse("4k3/8/8/8/8/8/8/4K3 b - - 0 1").ok().unwrap();
    assert_eq!(eval(&board), 50);
}

#[test]
fn queen_material_dominates() {
    let board = fen::parse("4k3/8/8/8/8/8/8/Q3K3 w - - 0 1").ok().unwrap();
    // A queen is 9000; the a1 queen-table entry is -20.
    assert_eq!(eval(&board), 9000 - 20 - 50 - 0);
}

#[test]
fn search_rejects_non_positive_depth() {
    let mut searcher = NegaMax::default();
    let board = fen::parse(fen::START).ok().unwrap();
    assert!(searcher.search(board, 0).is_err());
}

#[test]
fn search_finds_mate_in_one() {
    // White mates on the back rank with the rook to e8.
    let mut searcher = NegaMax::default();
    let board = fen::parse("6k1/5ppp/8/8/8/8/8/4R2K w - - 0 1").ok().unwrap();
    let (best, score) = searcher.search(board, 2).ok().unwrap();
    let best = best.unwrap();
    assert_eq!(best.to_notation(), "e1e8");
    assert_eq!(score, MATE);
}

#[test]
fn stalemate_scores_zero() {
    let mut searcher = NegaMax::default();
    // Black to move has no moves and is not in check.
    let board = fen::parse("k7/8/1Q6/8/8/8/8/7K b - - 0 1").ok().unwrap();
    let (best, score) = searcher.search(board, 3).ok().unwrap();
    assert!(best.is_none());
    assert_eq!(score, 0);
}

#[test]
fn checkmate_scores_minus_mate() {
    let mut searcher = NegaMax::default();
    // Black to move stands checkmated in the corner.
    let board = fen::parse("k7/8/8/8/8/8/R7/1R5K b - - 0 1").ok().unwrap();
    let (best, score) = searcher.search(board, 3).ok().unwrap();
    assert!(best.is_none());
    assert_eq!(score, -MATE);
}

#[test]
fn popcount_and_first_square() {
    assert_eq!(popcount(0), 0);
    assert_eq!(popcount(u64::MAX), 64);
    assert_eq!(popcount(RANK2), 8);
    assert_eq!(first_set_square(RANK2), 8);
    assert_eq!(first_set_square(1u64 << 63), 63);
}

#[test]
fn shifts_stay_on_the_board() {
    let a1: u64 = 1;
    assert_eq!(a1.shift(NORTH), 1 << 8);
    assert_eq!(a1.shift(EAST), 2);
    // A west shift off the a-file drops the square.
    assert_eq!(a1.shift(-1), 0);
    let h1: u64 = 1 << 7;
    // An east shift off the h-file drops the square.
    assert_eq!(h1.shift(EAST), 0);
    assert_eq!(h1.shift(NORTH + EAST), 0);
}

#[test]
fn bitboard_methods_work() {
    let mut bb: u64 = 0;
    bb.add_at(12);
    assert!(bb.has(12));
    assert!(!bb.is_empty());
    bb.clear_at(12);
    assert!(bb.is_empty());
    bb.merge(0xF0);
    assert_eq!(bb, 0xF0);
    let mut iter = bb.iter();
    assert_eq!(iter.next(), Some((4, 1 << 4)));
    assert_eq!(iter.next(), Some((5, 1 << 5)));
    let mut moves = bb.extract_moves(0, MoveType::Quiet);
    assert_eq!(moves.len(), 4);
    assert_eq!(moves.remove(0), Move { from: 0, to: 4, kind: MoveType::Quiet });
}

#[test]
fn algebraic_notation_round_trips() {
    let e4: SquareIndex = SquareIndex::parse("e4");
    assert_eq!(e4, 28);
    assert_eq!(e4.to_algebraic().as_str(), "e4");
    assert_eq!(Square::from_algebraic("h8"), Square::H8);
    assert_eq!(Square::H8.to_square_index(), 63);
    assert_eq!(Square::new(rusty_chess::types::square::File::C, Rank::Second), Square::C2);
    assert_eq!(Square::C2.file().idx(), 2);
    assert_eq!(Square::C2.rank().idx(), 1);
}

#[test]
fn rank_helpers() {
    assert_eq!(Rank::First.flip(), Rank::Eighth);
    assert_eq!(Rank::Second.bitboard(), RANK2);
    assert_eq!(Rank::Third.relative_to(Colour::White), Rank::Third);
    assert_eq!(Rank::Third.relative_to(Colour::Black), Rank::Sixth);
}

#[test]
fn move_kind_queries() {
    let m = Move { from: 8, to: 16, kind: MoveType::QueenPromotionCapture };
    assert!(m.is_promotion());
    assert!(m.is_promotion_capture());
    assert!(!m.is_castle());
    assert_eq!(m.promoted_piece(), Some(PieceType::Queen));
    let c = Move { from: 4, to: 6, kind: MoveType::CastleKing };
    assert!(c.is_castle());
    assert_eq!(c.promoted_piece(), None);
    assert_eq!(c.to_notation().as_str(), "e1g1");
}

#[test]
fn piece_letters_round_trip() {
    assert_eq!(PieceType::from_char('q').ok().unwrap(), PieceType::Queen);
    assert_eq!(PieceType::from_char('K').ok().unwrap(), PieceType::King);
    assert!(PieceType::from_char('x').is_err());
    assert_eq!(PieceType::Knight.to_char(), 'N');
    assert_eq!(PieceType::Rook.to_piece(), 3);
    let piece = rusty_chess::types::piece::Piece::from_tuple(PieceType::Bishop, Colour::Black);
    assert_eq!(piece.piece_type().ok().unwrap(), PieceType::Bishop);
}
