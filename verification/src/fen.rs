//! The FEN codec: reading a position from Forsyth-Edwards Notation and
//! writing it back.

use vstd::prelude::*;

use crate::bits::bit;
use crate::types::board_state::{BoardState, CastlingRights};
use crate::types::colour::Colour;
use crate::types::piece::spec_piece_fen_char;
use crate::types::piece_type::{spec_piece_of_char, PieceType};
use crate::types::position::Position;
use crate::types::square::{
    algebraic_chars, algebraic_square, char_of_rank, file_of_char, is_algebraic, rank_of_char,
    SquareIndex, SquareIndexMethods,
};
use crate::types::EngineError;

verus! {

/// The starting position.
pub const START: &'static str = "rnbqkbnr/pppppppp/8/8/8/8/PPPPPPPP/RNBQKBNR w KQkq - 0 1";

/// The value of a FEN empty-run digit; 9 for any other character.
pub open spec fn digit_run_val(c: char) -> int {
    if rank_of_char(c) < 8 {
        rank_of_char(c) + 1
    } else {
        9
    }
}

/// The colour a FEN piece letter stands for: upper case is White.
pub open spec fn colour_of_fen_char(c: char) -> Colour {
    if c == 'P' || c == 'N' || c == 'B' || c == 'R' || c == 'Q' || c == 'K' {
        Colour::White
    } else {
        Colour::Black
    }
}

/// The first position at or after `i` that is no space.
pub open spec fn skip_spaces(s: Seq<char>, i: int) -> int
    decreases s.len() - i,
        when 0 <= i <= s.len()
{
    if i < s.len() && s[i] == ' ' {
        skip_spaces(s, i + 1)
    } else {
        i
    }
}

/// The first position at or after `i` that ends the current token.
pub open spec fn token_end(s: Seq<char>, i: int) -> int
    decreases s.len() - i,
        when 0 <= i <= s.len()
{
    if i < s.len() && s[i] != ' ' {
        token_end(s, i + 1)
    } else {
        i
    }
}

/// Reads the piece-placement field between `i` and `end`: ranks 8 down
/// to 1 separated by `/`, each rank's letters and empty runs covering
/// its eight files exactly.
pub open spec fn spec_parse_placement(
    s: Seq<char>,
    i: int,
    end: int,
    rank: int,
    file: int,
    pos: Position,
) -> Option<Position>
    decreases end - i,
        when 0 <= i <= end <= s.len()
{
    if i == end {
        if rank == 0 && file == 8 {
            Some(pos)
        } else {
            None
        }
    } else {
        let c = s[i];
        if c == '/' {
            if file == 8 && rank > 0 {
                spec_parse_placement(s, i + 1, end, rank - 1, 0, pos)
            } else {
                None
            }
        } else if digit_run_val(c) < 9 {
            if file + digit_run_val(c) > 8 {
                None
            } else {
                spec_parse_placement(s, i + 1, end, rank, file + digit_run_val(c), pos)
            }
        } else {
            match spec_piece_of_char(c) {
                Some(pt) => {
                    if file >= 8 || rank < 0 || rank > 7 {
                        None
                    } else {
                        spec_parse_placement(
                            s,
                            i + 1,
                            end,
                            rank,
                            file + 1,
                            pos.spec_add(colour_of_fen_char(c), pt, (rank * 8 + file) as u64),
                        )
                    }
                },
                None => None,
            }
        }
    }
}

/// Whether a character occurs in a range of the text.
pub open spec fn occurs(s: Seq<char>, i: int, end: int, c: char) -> bool {
    exists|k: int| i <= k < end && s[k] == c
}

/// Reads a decimal number between `i` and `end`: at least one digit,
/// digits only, value capped to fit the move counters.
pub open spec fn spec_parse_number(s: Seq<char>, i: int, end: int, acc: int) -> Option<int>
    decreases end - i,
        when 0 <= i <= end <= s.len()
{
    if acc > 0x7FFF_FFFF {
        None
    } else if i == end {
        Some(acc)
    } else {
        let c = s[i];
        let d = if c == '0' {
            0int
        } else if rank_of_char(c) < 8 {
            rank_of_char(c) + 1
        } else if c == '9' {
            9int
        } else {
            10int
        };
        if d == 10 {
            None
        } else {
            spec_parse_number(s, i + 1, end, acc * 10 + d)
        }
    }
}

/// Reads a whole FEN text: exactly six space-separated fields — the
/// placement, the side to move, the castling rights, the en-passant
/// target, and the two move counters. None for any malformed text.
pub open spec fn spec_parse(s: Seq<char>) -> Option<BoardState> {
    let i1 = skip_spaces(s, 0);
    let e1 = token_end(s, i1);
    let i2 = skip_spaces(s, e1);
    let e2 = token_end(s, i2);
    let i3 = skip_spaces(s, e2);
    let e3 = token_end(s, i3);
    let i4 = skip_spaces(s, e3);
    let e4 = token_end(s, i4);
    let i5 = skip_spaces(s, e4);
    let e5 = token_end(s, i5);
    let i6 = skip_spaces(s, e5);
    let e6 = token_end(s, i6);
    let i7 = skip_spaces(s, e6);
    if i1 == e1 || i2 == e2 || i3 == e3 || i4 == e4 || i5 == e5 || i6 == e6 || i7 != s.len() {
        None
    } else {
        let placement = spec_parse_placement(s, i1, e1, 7, 0, Position::default_spec());
        let side = if e2 - i2 == 1 && s[i2] == 'w' {
            Some(Colour::White)
        } else if e2 - i2 == 1 && s[i2] == 'b' {
            Some(Colour::Black)
        } else {
            None
        };
        let rights = CastlingRights {
            white_king: occurs(s, i3, e3, 'K'),
            white_queen: occurs(s, i3, e3, 'Q'),
            black_king: occurs(s, i3, e3, 'k'),
            black_queen: occurs(s, i3, e3, 'q'),
        };
        let ep: Option<Option<SquareIndex>> = if e4 - i4 == 1 && s[i4] == '-' {
            Some(None)
        } else if is_algebraic(s.subrange(i4, e4)) {
            Some(Some(algebraic_square(s.subrange(i4, e4))))
        } else {
            None
        };
        let half = spec_parse_number(s, i5, e5, 0);
        let full = spec_parse_number(s, i6, e6, 0);
        if placement is Some && side is Some && ep is Some && half is Some && full is Some {
            Some(
                BoardState {
                    position: placement->Some_0,
                    active_player: side->Some_0,
                    en_passant: ep->Some_0,
                    castling_rights: rights,
                    half_moves: half->Some_0 as i32,
                    full_moves: full->Some_0 as i32,
                },
            )
        } else {
            None
        }
    }
}

/// Moves the cursor past any spaces.
fn exec_skip_spaces(s: &str, i: usize) -> (r: usize)
    requires
        i <= s@.len(),
    ensures
        r == skip_spaces(s@, i as int),
        i <= r <= s@.len(),
    decreases s@.len() - i,
{
    if i < s.unicode_len() && s.get_char(i) == ' ' {
        exec_skip_spaces(s, i + 1)
    } else {
        i
    }
}

/// Moves the cursor to the end of the current token.
fn exec_token_end(s: &str, i: usize) -> (r: usize)
    requires
        i <= s@.len(),
    ensures
        r == token_end(s@, i as int),
        i <= r <= s@.len(),
    decreases s@.len() - i,
{
    if i < s.unicode_len() && s.get_char(i) != ' ' {
        exec_token_end(s, i + 1)
    } else {
        i
    }
}

/// Reads the piece-placement field of a FEN text.
pub fn parse_pieces(s: &str, start: usize, end: usize) -> (r: Result<Position, EngineError>)
    requires
        start <= end <= s@.len(),
    ensures
        r matches Ok(p) ==> spec_parse_placement(s@, start as int, end as int, 7, 0, Position::default_spec())
            == Some(p),
        r is Err <==> spec_parse_placement(
            s@,
            start as int,
            end as int,
            7,
            0,
            Position::default_spec(),
        ) is None,
{
    let mut pos: Position = Default::default();
    let mut rank: u64 = 7;
    let mut file: u64 = 0;
    let mut i: usize = start;
    let ghost target = spec_parse_placement(
        s@,
        start as int,
        end as int,
        7,
        0,
        Position::default_spec(),
    );
    while i < end
        invariant
            start <= i <= end <= s@.len(),
            rank <= 7,
            file <= 8,
            spec_parse_placement(s@, i as int, end as int, rank as int, file as int, pos)
                == target,
            target == spec_parse_placement(
                s@,
                start as int,
                end as int,
                7,
                0,
                Position::default_spec(),
            ),
        decreases end - i,
    {
        let c = s.get_char(i);
        if c == '/' {
            if file == 8 && rank > 0 {
                rank = rank - 1;
                file = 0;
            } else {
                return Err(EngineError::new("short rank in the placement field"));
            }
        } else {
            let rv = crate::types::square::exec_rank_of_char(c);
            if rv < 8 {
                let d = rv + 1;
                if file + d > 8 {
                    return Err(EngineError::new("overlong rank in the placement field"));
                }
                file = file + d;
                i = i + 1;
                continue ;
            }
            match PieceType::from_char(c) {
                Ok(pt) => {
                    if file >= 8 {
                        return Err(EngineError::new("overlong rank in the placement field"));
                    }
                    let colour = if c == 'P' || c == 'N' || c == 'B' || c == 'R' || c == 'Q' || c
                        == 'K' {
                        Colour::White
                    } else {
                        Colour::Black
                    };
                    pos.add_piece(colour, pt, rank * 8 + file);
                    file = file + 1;
                },
                Err(_) => {
                    return Err(EngineError::new("invalid character in the placement field"));
                },
            }
        }
        i = i + 1;
    }
    if rank == 0 && file == 8 {
        Ok(pos)
    } else {
        Err(EngineError::new("wrong number of ranks in the placement field"))
    }
}

/// Whether a character occurs in a range of the text.
fn exec_occurs(s: &str, start: usize, end: usize, c: char) -> (r: bool)
    requires
        start <= end <= s@.len(),
    ensures
        r == occurs(s@, start as int, end as int, c),
{
    let mut i: usize = start;
    while i < end
        invariant
            start <= i <= end <= s@.len(),
            forall|k: int| start <= k < i ==> s@[k] != c,
        decreases end - i,
    {
        if s.get_char(i) == c {
            return true;
        }
        i = i + 1;
    }
    false
}

/// Reads a decimal move counter.
fn exec_parse_number(s: &str, start: usize, end: usize) -> (r: Result<u32, EngineError>)
    requires
        start <= end <= s@.len(),
    ensures
        r matches Ok(n) ==> spec_parse_number(s@, start as int, end as int, 0) == Some(n as int)
            && n <= 0x7FFF_FFFF,
        r is Err <==> spec_parse_number(s@, start as int, end as int, 0) is None,
{
    let mut acc: u32 = 0;
    let mut i: usize = start;
    while i < end
        invariant
            start <= i <= end <= s@.len(),
            acc <= 0x7FFF_FFFF,
            spec_parse_number(s@, i as int, end as int, acc as int) == spec_parse_number(
                s@,
                start as int,
                end as int,
                0,
            ),
        decreases end - i,
    {
        let c = s.get_char(i);
        let rv = crate::types::square::exec_rank_of_char(c);
        let d: u32 = if c == '0' {
            0
        } else if rv < 8 {
            (rv + 1) as u32
        } else if c == '9' {
            9
        } else {
            10
        };
        if d == 10 {
            return Err(EngineError::new("a move counter holds a non-digit"));
        }
        if acc > (0x7FFF_FFFFu32 - d) / 10 {
            // The next accumulation would pass the counter cap; the
            // remaining digits can only grow it further.
            proof {
                assert(acc * 10 + d > 0x7FFF_FFFF);
                lemma_parse_number_overflow(s@, i as int + 1, end as int, acc as int * 10 + d);
            }
            return Err(EngineError::new("a move counter is too large"));
        }
        acc = acc * 10 + d;
        i = i + 1;
    }
    Ok(acc)
}

/// A decimal accumulator beyond the counter cap never recovers.
proof fn lemma_parse_number_overflow(s: Seq<char>, i: int, end: int, acc: int)
    requires
        0 <= i <= end <= s.len(),
        acc > 0x7FFF_FFFF,
    ensures
        spec_parse_number(s, i, end, acc) is None,
    decreases end - i,
{
}

/// Reads a FEN text into a board. The text must hold exactly six
/// space-separated fields; a malformed field is an input error and no
/// board is produced.
pub fn parse(notation: &str) -> (r: Result<BoardState, EngineError>)
    ensures
        r matches Ok(b) ==> spec_parse(notation@) == Some(b),
        r is Err <==> spec_parse(notation@) is None,
        r matches Ok(b) ==> {
            &&& (b.en_passant matches Some(t) ==> t < 64)
            &&& b.half_moves >= 0
            &&& b.full_moves >= 0
        },
{
    let i1 = exec_skip_spaces(notation, 0);
    let e1 = exec_token_end(notation, i1);
    let i2 = exec_skip_spaces(notation, e1);
    let e2 = exec_token_end(notation, i2);
    let i3 = exec_skip_spaces(notation, e2);
    let e3 = exec_token_end(notation, i3);
    let i4 = exec_skip_spaces(notation, e3);
    let e4 = exec_token_end(notation, i4);
    let i5 = exec_skip_spaces(notation, e4);
    let e5 = exec_token_end(notation, i5);
    let i6 = exec_skip_spaces(notation, e5);
    let e6 = exec_token_end(notation, i6);
    let i7 = exec_skip_spaces(notation, e6);
    if i1 == e1 || i2 == e2 || i3 == e3 || i4 == e4 || i5 == e5 || i6 == e6 || i7
        != notation.unicode_len() {
        return Err(EngineError::new("a FEN text holds exactly six fields"));
    }
    let position = match parse_pieces(notation, i1, e1) {
        Ok(p) => p,
        Err(e) => {
            return Err(e);
        },
    };
    let side_char = notation.get_char(i2);
    let to_move: Colour = if e2 - i2 == 1 && side_char == 'w' {
        Colour::White
    } else if e2 - i2 == 1 && side_char == 'b' {
        Colour::Black
    } else {
        return Err(EngineError::new("unknown player identifier in the FEN text"));
    };
    let castling_rights = CastlingRights {
        white_king: exec_occurs(notation, i3, e3, 'K'),
        white_queen: exec_occurs(notation, i3, e3, 'Q'),
        black_king: exec_occurs(notation, i3, e3, 'k'),
        black_queen: exec_occurs(notation, i3, e3, 'q'),
    };
    let en_passant: Option<SquareIndex> = if e4 - i4 == 1 && notation.get_char(i4) == '-' {
        None
    } else if e4 - i4 == 2 {
        let fc = notation.get_char(i4);
        let rc = notation.get_char(i4 + 1);
        let f = crate::types::square::exec_file_of_char(fc);
        let rk = crate::types::square::exec_rank_of_char(rc);
        if f < 8 && rk < 8 {
            proof {
                assert(notation@.subrange(i4 as int, e4 as int) =~= seq![fc, rc]);
            }
            Some(rk * 8 + f)
        } else {
            return Err(EngineError::new("malformed en-passant field"));
        }
    } else {
        proof {
            let t = notation@.subrange(i4 as int, e4 as int);
            assert(t.len() == e4 - i4);
        }
        return Err(EngineError::new("malformed en-passant field"));
    };
    let half_moves = match exec_parse_number(notation, i5, e5) {
        Ok(n) => n,
        Err(e) => {
            return Err(e);
        },
    };
    let full_moves = match exec_parse_number(notation, i6, e6) {
        Ok(n) => n,
        Err(e) => {
            return Err(e);
        },
    };
    Ok(
        BoardState {
            position,
            active_player: to_move,
            en_passant,
            castling_rights,
            half_moves: half_moves as i32,
            full_moves: full_moves as i32,
        },
    )
}


/// A digit character for a value below ten.
pub open spec fn digit_char(d: int) -> char {
    if d == 0 {
        '0'
    } else if d <= 8 {
        char_of_rank((d - 1) as u64)
    } else {
        '9'
    }
}

/// The decimal writing of a non-negative number.
pub open spec fn dec_chars(n: int) -> Seq<char>
    decreases n,
        when n >= 0
{
    if n < 10 {
        seq![digit_char(n)]
    } else {
        dec_chars(n / 10) + seq![digit_char(n % 10)]
    }
}

/// The text of one rank of the placement, from `file` on, with
/// `empties` empty files pending before the next piece or the rank's
/// end.
pub open spec fn rank_chars(p: Position, rank: int, file: int, empties: int) -> Seq<char>
    decreases 8 - file,
        when 0 <= file <= 8 && 0 <= empties <= 8
{
    if file >= 8 {
        if empties > 0 {
            seq![char_of_rank((empties - 1) as u64)]
        } else {
            Seq::empty()
        }
    } else {
        let sq = (rank * 8 + file) as u64;
        if p.spec_type_at(sq) is Some && p.spec_colour_at(sq) is Some {
            let pre: Seq<char> = if empties > 0 {
                seq![char_of_rank((empties - 1) as u64)]
            } else {
                Seq::empty()
            };
            pre + seq![
                spec_piece_fen_char(p.spec_type_at(sq)->Some_0, p.spec_colour_at(sq)->Some_0),
            ] + rank_chars(p, rank, file + 1, 0)
        } else {
            rank_chars(p, rank, file + 1, empties + 1)
        }
    }
}

/// The text of the placement from `rank` down to rank 1, ranks
/// separated by a slash.
pub open spec fn placement_chars(p: Position, rank: int) -> Seq<char>
    decreases rank,
        when 0 <= rank <= 7
{
    if rank > 0 {
        rank_chars(p, rank, 0, 0) + seq!['/'] + placement_chars(p, rank - 1)
    } else {
        rank_chars(p, rank, 0, 0)
    }
}

/// The castling-rights field: the retained rights in the order KQkq,
/// or a dash when none is retained.
pub open spec fn rights_chars(r: CastlingRights) -> Seq<char> {
    if !r.white_king && !r.white_queen && !r.black_king && !r.black_queen {
        seq!['-']
    } else {
        (if r.white_king {
            seq!['K']
        } else {
            Seq::empty()
        }) + (if r.white_queen {
            seq!['Q']
        } else {
            Seq::empty()
        }) + (if r.black_king {
            seq!['k']
        } else {
            Seq::empty()
        }) + (if r.black_queen {
            seq!['q']
        } else {
            Seq::empty()
        })
    }
}

/// The en-passant field: the target square's name or a dash.
pub open spec fn ep_chars(ep: Option<SquareIndex>) -> Seq<char> {
    match ep {
        Some(t) => algebraic_chars(t),
        None => seq!['-'],
    }
}

/// On every square the kind boards and the colour boards agree about
/// occupancy.
pub open spec fn placement_consistent(p: Position) -> bool {
    forall|sq: u64|
        sq < 64 ==> (#[trigger] p.spec_type_at(sq) is Some <==> p.spec_colour_at(sq) is Some)
}

/// The FEN text of a board: placement, side to move, castling rights,
/// en-passant target, half-move clock and full-move number, separated
/// by single spaces.
pub open spec fn spec_fen(b: BoardState) -> Seq<char> {
    placement_chars(b.position, 7) + seq![' '] + seq![
        if b.active_player == Colour::White {
            'w'
        } else {
            'b'
        },
    ] + seq![' '] + rights_chars(b.castling_rights) + seq![' '] + ep_chars(b.en_passant) + seq![
        ' ',
    ] + dec_chars(b.half_moves as int) + seq![' '] + dec_chars(b.full_moves as int)
}

/// The digit of a value below ten, as text.
fn digit_str(d: u64) -> (r: &'static str)
    requires
        d < 10,
    ensures
        r@ == seq![digit_char(d as int)],
{
    proof {
        reveal_strlit("0");
        reveal_strlit("1");
        reveal_strlit("2");
        reveal_strlit("3");
        reveal_strlit("4");
        reveal_strlit("5");
        reveal_strlit("6");
        reveal_strlit("7");
        reveal_strlit("8");
        reveal_strlit("9");
    }
    let r: &'static str = if d == 0 {
        "0"
    } else if d == 1 {
        "1"
    } else if d == 2 {
        "2"
    } else if d == 3 {
        "3"
    } else if d == 4 {
        "4"
    } else if d == 5 {
        "5"
    } else if d == 6 {
        "6"
    } else if d == 7 {
        "7"
    } else if d == 8 {
        "8"
    } else {
        "9"
    };
    proof {
        assert(r@ =~= seq![digit_char(d as int)]);
    }
    r
}

/// Appends the decimal writing of a number.
fn push_decimal(out: &mut String, n: u32)
    ensures
        final(out)@ == old(out)@ + dec_chars(n as int),
    decreases n,
{
    if n < 10 {
        out.append(digit_str(n as u64));
        proof {
            assert(out@ =~= old(out)@ + dec_chars(n as int));
        }
    } else {
        push_decimal(out, n / 10);
        out.append(digit_str((n % 10) as u64));
        proof {
            assert(out@ =~= old(out)@ + dec_chars(n as int));
        }
    }
}

/// The FEN letter of a piece, as text.
fn piece_fen_str(pt: PieceType, c: Colour) -> (r: &'static str)
    ensures
        r@ == seq![spec_piece_fen_char(pt, c)],
{
    proof {
        reveal_strlit("P");
        reveal_strlit("N");
        reveal_strlit("B");
        reveal_strlit("R");
        reveal_strlit("Q");
        reveal_strlit("K");
        reveal_strlit("p");
        reveal_strlit("n");
        reveal_strlit("b");
        reveal_strlit("r");
        reveal_strlit("q");
        reveal_strlit("k");
    }
    let r: &'static str = match (c, pt) {
        (Colour::White, PieceType::Pawn) => "P",
        (Colour::White, PieceType::Knight) => "N",
        (Colour::White, PieceType::Bishop) => "B",
        (Colour::White, PieceType::Rook) => "R",
        (Colour::White, PieceType::Queen) => "Q",
        (Colour::White, PieceType::King) => "K",
        (Colour::Black, PieceType::Pawn) => "p",
        (Colour::Black, PieceType::Knight) => "n",
        (Colour::Black, PieceType::Bishop) => "b",
        (Colour::Black, PieceType::Rook) => "r",
        (Colour::Black, PieceType::Queen) => "q",
        (Colour::Black, PieceType::King) => "k",
    };
    proof {
        assert(r@ =~= seq![spec_piece_fen_char(pt, c)]);
    }
    r
}

/// Writes a board as its FEN text: the six fields separated by single
/// spaces, empty-file runs coalesced, absent rights written as a dash.
/// A placement whose kind boards and colour boards disagree about some
/// square is an invariant-violation error.
pub fn board_to_fen(board: &BoardState) -> (r: Result<String, EngineError>)
    requires
        board.en_passant matches Some(t) ==> t < 64,
        board.half_moves >= 0,
        board.full_moves >= 0,
    ensures
        r matches Ok(t) ==> placement_consistent(board.position) && t@ == spec_fen(*board),
        r is Err <==> !placement_consistent(board.position),
{
    let mut fen = String::new();
    let p = &board.position;
    let mut rank: u64 = 7;
    loop
        invariant_except_break
            rank <= 7,
            board.en_passant matches Some(t) ==> t < 64,
            fen@ + placement_chars(board.position, rank as int) == placement_chars(
                board.position,
                7,
            ),
            forall|sq: u64|
                sq < 64 && sq >= 8 * (rank + 1) ==> (#[trigger] board.position.spec_type_at(sq)
                    is Some <==> board.position.spec_colour_at(sq) is Some),
        ensures
            fen@ == placement_chars(board.position, 7),
            placement_consistent(board.position),
        decreases rank,
    {
        let mut empty_files: u64 = 0;
        let mut file: u64 = 0;
        let ghost fen0 = fen@;
        while file < 8
            invariant
                rank <= 7,
                file <= 8,
                empty_files <= file,
                fen0 + rank_chars(board.position, rank as int, 0, 0) == fen@ + rank_chars(
                    board.position,
                    rank as int,
                    file as int,
                    empty_files as int,
                ),
                forall|sq: u64|
                    sq < 64 && (sq >= 8 * (rank + 1) || (sq >= 8 * rank && sq < 8 * rank
                        + file)) ==> (#[trigger] board.position.spec_type_at(sq) is Some
                        <==> board.position.spec_colour_at(sq) is Some),
            decreases 8 - file,
        {
            let sq: u64 = rank * 8 + file;
            let ghost fen_before = fen@;
            match board.at(sq) {
                Ok(Some((pt, colour))) => {
                    if empty_files != 0 {
                        fen.append(digit_str(empty_files));
                    }
                    fen.append(piece_fen_str(pt, colour));
                    proof {
                        assert(empty_files != 0 ==> fen@ =~= fen_before + seq![
                            digit_char(empty_files as int),
                        ] + seq![spec_piece_fen_char(pt, colour)]);
                        assert(empty_files == 0 ==> fen@ =~= fen_before + seq![
                            spec_piece_fen_char(pt, colour),
                        ]);
                        assert(empty_files != 0 ==> digit_char(empty_files as int) == char_of_rank((empty_files - 1) as u64));
                        assert(fen0 + rank_chars(board.position, rank as int, 0, 0) =~= fen@
                            + rank_chars(board.position, rank as int, file as int + 1, 0));
                    }
                    empty_files = 0;
                },
                Ok(None) => {
                    empty_files = empty_files + 1;
                },
                Err(e) => {
                    proof {
                        assert(!(board.position.spec_type_at(sq) is Some
                            <==> board.position.spec_colour_at(sq) is Some));
                    }
                    return Err(e);
                },
            }
            file = file + 1;
        }
        if empty_files != 0 {
            fen.append(digit_str(empty_files));
        }
        proof {
            assert(empty_files != 0 ==> rank_chars(
                board.position,
                rank as int,
                8,
                empty_files as int,
            ) =~= seq![char_of_rank((empty_files - 1) as u64)]);
            assert(empty_files == 0 ==> rank_chars(
                board.position,
                rank as int,
                8,
                empty_files as int,
            ) =~= Seq::<char>::empty());
        }
        if rank != 0 {
            proof {
                reveal_strlit("/");
            }
            fen.append("/");
            proof {
                assert(fen@ + placement_chars(board.position, rank as int - 1)
                    =~= placement_chars(board.position, 7));
            }
            rank = rank - 1;
        } else {
            proof {
                assert(fen@ =~= placement_chars(board.position, 7));
                assert forall|sq: u64| sq < 64 implies (#[trigger] board.position.spec_type_at(sq)
                    is Some <==> board.position.spec_colour_at(sq) is Some) by {
                    assert(sq >= 8 * (0 + 1) || (sq >= 0 && sq < 8));
                }
            }
            break ;
        }
    }
    proof {
        reveal_strlit(" ");
        reveal_strlit("w");
        reveal_strlit("b");
        reveal_strlit("K");
        reveal_strlit("Q");
        reveal_strlit("k");
        reveal_strlit("q");
        reveal_strlit("-");
    }
    fen.append(" ");
    if board.active_player == Colour::White {
        fen.append("w");
    } else {
        fen.append("b");
    }
    fen.append(" ");
    let rights = board.castling_rights;
    if !rights.white_king && !rights.white_queen && !rights.black_king && !rights.black_queen {
        fen.append("-");
    } else {
        if rights.white_king {
            fen.append("K");
        }
        if rights.white_queen {
            fen.append("Q");
        }
        if rights.black_king {
            fen.append("k");
        }
        if rights.black_queen {
            fen.append("q");
        }
    }
    proof {
        assert(fen@ =~= placement_chars(board.position, 7) + seq![' '] + seq![
            if board.active_player == Colour::White {
                'w'
            } else {
                'b'
            },
        ] + seq![' '] + rights_chars(board.castling_rights));
    }
    fen.append(" ");
    match board.en_passant {
        Some(square) => {
            let alg = square.to_algebraic();
            fen.append(alg.as_str());
        },
        None => {
            fen.append("-");
        },
    }
    fen.append(" ");
    push_decimal(&mut fen, board.half_moves as u32);
    fen.append(" ");
    push_decimal(&mut fen, board.full_moves as u32);
    proof {
        assert(fen@ =~= spec_fen(*board));
    }
    Ok(fen)
}


/// Powers of ten.
pub open spec fn pow10(k: nat) -> int
    decreases k,
{
    if k == 0 {
        1int
    } else {
        10 * pow10((k - 1) as nat)
    }
}

/// Reading a decimal writing continues the accumulator by the written
/// value, scaled by the number of digits.
proof fn lemma_parse_number_digits(s: Seq<char>, i: int, mid: int, end: int, m: int, acc: int)
    requires
        0 <= i <= mid <= end <= s.len(),
        0 <= m,
        0 <= acc,
        s.subrange(i, mid) =~= dec_chars(m),
        acc * pow10(dec_chars(m).len()) + m <= 0x7FFF_FFFF,
    ensures
        spec_parse_number(s, i, end, acc) == spec_parse_number(
            s,
            mid,
            end,
            acc * pow10(dec_chars(m).len()) + m,
        ),
    decreases m,
{
    if m < 10 {
        assert(dec_chars(m) =~= seq![digit_char(m)]);
        assert(mid == i + 1);
        assert(s[i] == digit_char(m)) by {
            assert(s.subrange(i, mid)[0] == s[i]);
        }
        assert(pow10(0) == 1);
        assert(pow10(1) == 10);
        assert(acc <= 0x7FFF_FFFF) by (nonlinear_arith)
            requires
                0 <= acc && 0 <= m && acc * 10 + m <= 0x7FFF_FFFF,
        ;
        assert(spec_parse_number(s, i, end, acc) == spec_parse_number(s, mid, end, acc * 10 + m));
    } else {
        let hi = m / 10;
        let lo = m % 10;
        let mid1 = mid - 1;
        assert(dec_chars(m) =~= dec_chars(hi) + seq![digit_char(lo)]);
        let nd_hi = dec_chars(hi).len();
        assert(dec_chars(m).len() == nd_hi + 1);
        assert(s.subrange(i, mid1) =~= dec_chars(hi)) by {
            assert forall|k: int| 0 <= k < mid1 - i implies s.subrange(i, mid1)[k] == dec_chars(
                hi,
            )[k] by {
                assert(s.subrange(i, mid)[k] == dec_chars(hi)[k]);
            }
        }
        assert(s[mid1] == digit_char(lo)) by {
            assert(s.subrange(i, mid)[mid1 - i] == digit_char(lo));
        }
        let acc2 = acc * pow10(nd_hi) + hi;
        assert(pow10((nd_hi + 1) as nat) == 10 * pow10(nd_hi));
        lemma_pow10_pos(nd_hi);
        assert(acc2 * 10 + lo == acc * pow10(dec_chars(m).len()) + m) by (nonlinear_arith)
            requires
                acc2 == acc * pow10(nd_hi) + hi && m == 10 * hi + lo && pow10(
                    (nd_hi + 1) as nat,
                ) == 10 * pow10(nd_hi) && dec_chars(m).len() == nd_hi + 1 && pow10(
                    dec_chars(m).len(),
                ) == pow10((nd_hi + 1) as nat),
        ;
        assert(0 <= acc2 && acc2 * 10 + lo <= 0x7FFF_FFFF) by (nonlinear_arith)
            requires
                acc2 == acc * pow10(nd_hi) + hi && 0 <= acc && 0 <= hi && pow10(nd_hi) >= 1 && acc2
                    * 10 + lo == acc * pow10(dec_chars(m).len()) + m && acc * pow10(
                    dec_chars(m).len(),
                ) + m <= 0x7FFF_FFFF,
        ;
        lemma_parse_number_digits(s, i, mid1, end, hi, acc);
        assert(acc2 <= 0x7FFF_FFFF) by (nonlinear_arith)
            requires
                0 <= acc2 && 0 <= lo && acc2 * 10 + lo <= 0x7FFF_FFFF,
        ;
        assert(spec_parse_number(s, mid1, end, acc2) == spec_parse_number(
            s,
            mid,
            end,
            acc2 * 10 + lo,
        ));
    }
}

proof fn lemma_pow10_pos(k: nat)
    ensures
        pow10(k) >= 1,
    decreases k,
{
    if k > 0 {
        lemma_pow10_pos((k - 1) as nat);
    }
}

/// The move counters round-trip through the codec: reading back the
/// decimal writing of a counter yields the counter. This is the
/// counter-field piece of the FEN round-trip law.
pub proof fn lemma_decimal_round_trip(s: Seq<char>, i: int, end: int, n: int)
    requires
        0 <= i <= end <= s.len(),
        0 <= n <= 0x7FFF_FFFF,
        s.subrange(i, end) =~= dec_chars(n),
    ensures
        spec_parse_number(s, i, end, 0) == Some(n),
{
    lemma_pow10_pos(dec_chars(n).len());
    assert(0 * pow10(dec_chars(n).len()) + n == n) by (nonlinear_arith);
    lemma_parse_number_digits(s, i, end, end, n, 0);
}


/// The castling-rights field round-trips: each letter occurs in the
/// written field exactly when the right is retained. This is the
/// rights-field piece of the FEN round-trip law.
pub proof fn lemma_rights_round_trip(r: CastlingRights)
    ensures
        occurs(rights_chars(r), 0, rights_chars(r).len() as int, 'K') == r.white_king,
        occurs(rights_chars(r), 0, rights_chars(r).len() as int, 'Q') == r.white_queen,
        occurs(rights_chars(r), 0, rights_chars(r).len() as int, 'k') == r.black_king,
        occurs(rights_chars(r), 0, rights_chars(r).len() as int, 'q') == r.black_queen,
{
    let t = rights_chars(r);
    let n = t.len() as int;
    if !r.white_king && !r.white_queen && !r.black_king && !r.black_queen {
        assert(t =~= seq!['-']);
        assert(forall|k: int| 0 <= k < n ==> t[k] == '-');
    } else {
        lemma_rights_members(r);
        if r.white_king {
            assert(t[0] == 'K');
            assert(occurs(t, 0, n, 'K'));
        }
        if r.white_queen {
            let at = if r.white_king {
                1int
            } else {
                0int
            };
            assert(t[at] == 'Q');
            assert(occurs(t, 0, n, 'Q'));
        }
        if r.black_king {
            let at = (if r.white_king {
                1int
            } else {
                0int
            }) + (if r.white_queen {
                1int
            } else {
                0int
            });
            assert(t[at] == 'k');
            assert(occurs(t, 0, n, 'k'));
        }
        if r.black_queen {
            let at = (if r.white_king {
                1int
            } else {
                0int
            }) + (if r.white_queen {
                1int
            } else {
                0int
            }) + (if r.black_king {
                1int
            } else {
                0int
            });
            assert(t[at] == 'q');
            assert(occurs(t, 0, n, 'q'));
        }
    }
}

/// Every character of a written rights field names a retained right.
proof fn lemma_rights_members(r: CastlingRights)
    requires
        r.white_king || r.white_queen || r.black_king || r.black_queen,
    ensures
        forall|k: int|
            0 <= k < rights_chars(r).len() ==> {
                let c = #[trigger] rights_chars(r)[k];
                (c == 'K' ==> r.white_king) && (c == 'Q' ==> r.white_queen) && (c == 'k'
                    ==> r.black_king) && (c == 'q' ==> r.black_queen) && (c == 'K' || c == 'Q' || c
                    == 'k' || c == 'q')
            },
{
}


/// The placement accumulated by the reader over one rank from file
/// `f0` on: each of `p`'s men on those squares added in file order.
pub open spec fn add_rank_range(pos: Position, p: Position, rank: int, f0: int) -> Position
    decreases 8 - f0,
        when 0 <= rank <= 7 && 0 <= f0 <= 8
{
    if f0 >= 8 {
        pos
    } else {
        let sq = (rank * 8 + f0) as u64;
        if p.spec_type_at(sq) is Some && p.spec_colour_at(sq) is Some {
            add_rank_range(
                pos.spec_add(p.spec_colour_at(sq)->Some_0, p.spec_type_at(sq)->Some_0, sq),
                p,
                rank,
                f0 + 1,
            )
        } else {
            add_rank_range(pos, p, rank, f0 + 1)
        }
    }
}

/// The placement accumulated by the reader from rank `rank` down to
/// rank 1.
pub open spec fn add_ranks(pos: Position, p: Position, rank: int) -> Position
    decreases rank,
        when 0 <= rank <= 7
{
    let after = add_rank_range(pos, p, rank, 0);
    if rank > 0 {
        add_ranks(after, p, rank - 1)
    } else {
        after
    }
}

/// A FEN piece letter reads back as its piece and colour.
proof fn lemma_piece_char_round_trip(pt: PieceType, c: Colour)
    ensures
        spec_piece_of_char(spec_piece_fen_char(pt, c)) == Some(pt),
        colour_of_fen_char(spec_piece_fen_char(pt, c)) == c,
        digit_run_val(spec_piece_fen_char(pt, c)) == 9,
        spec_piece_fen_char(pt, c) != '/',
{
}

/// Reading one written rank advances the reader to the rank's end,
/// with exactly that rank's men added.
proof fn lemma_rank_chars_parse(
    s: Seq<char>,
    i: int,
    mid: int,
    end: int,
    p: Position,
    pos: Position,
    rank: int,
    file: int,
    empties: int,
)
    requires
        0 <= i <= mid <= end <= s.len(),
        0 <= rank <= 7,
        0 <= empties <= file <= 8,
        s.subrange(i, mid) =~= rank_chars(p, rank, file, empties),
        forall|f: int|
            file - empties <= f < file ==> !((#[trigger] p.spec_type_at(
                ((rank * 8 + f) as u64),
            )) is Some && p.spec_colour_at(((rank * 8 + f) as u64)) is Some),
    ensures
        spec_parse_placement(s, i, end, rank, file - empties, pos) == spec_parse_placement(
            s,
            mid,
            end,
            rank,
            8,
            add_rank_range(pos, p, rank, file - empties),
        ),
    decreases 8 - file,
{
    let sq = (rank * 8 + file) as u64;
    if file >= 8 {
        if empties > 0 {
            assert(rank_chars(p, rank, file, empties) =~= seq![char_of_rank((empties - 1) as u64)]);
            assert(mid == i + 1);
            assert(s[i] == char_of_rank((empties - 1) as u64)) by {
                assert(s.subrange(i, mid)[0] == s[i]);
            }
            assert(digit_run_val(s[i]) == empties);
            assert(add_rank_range(pos, p, rank, file - empties) == pos) by {
                lemma_add_rank_range_empty(pos, p, rank, file - empties, file);
            }
            assert(spec_parse_placement(s, i, end, rank, file - empties, pos)
                == spec_parse_placement(s, mid, end, rank, 8, pos));
        } else {
            assert(rank_chars(p, rank, file, empties) =~= Seq::<char>::empty());
            assert(mid == i);
            assert(add_rank_range(pos, p, rank, 8) == pos);
        }
    } else {
        if p.spec_type_at(sq) is Some && p.spec_colour_at(sq) is Some {
            let pt = p.spec_type_at(sq)->Some_0;
            let pc = p.spec_colour_at(sq)->Some_0;
            let fc = spec_piece_fen_char(pt, pc);
            lemma_piece_char_round_trip(pt, pc);
            let pre_len: int = if empties > 0 {
                1
            } else {
                0
            };
            let rest = rank_chars(p, rank, file + 1, 0);
            assert(rank_chars(p, rank, file, empties).len() == pre_len + 1 + rest.len());
            let mid1 = i + pre_len + 1;
            assert(s.subrange(mid1, mid) =~= rest) by {
                assert forall|k: int| 0 <= k < rest.len() implies #[trigger] (s.subrange(
                    mid1,
                    mid,
                )[k]) == rest[k] by {
                    assert(s.subrange(i, mid)[pre_len + 1 + k] == rest[k]);
                }
            }
            assert(s[i + pre_len] == fc) by {
                assert(s.subrange(i, mid)[pre_len] == fc);
            }
            if empties > 0 {
                assert(s[i] == char_of_rank((empties - 1) as u64)) by {
                    assert(s.subrange(i, mid)[0] == s[i]);
                }
                assert(digit_run_val(s[i]) == empties);
            }
            let pos1 = pos.spec_add(pc, pt, sq);
            lemma_rank_chars_parse(s, mid1, mid, end, p, pos1, rank, file + 1, 0);
            assert(add_rank_range(pos, p, rank, file - empties) == add_rank_range(
                pos1,
                p,
                rank,
                file + 1,
            )) by {
                lemma_add_rank_range_skip(pos, p, rank, file - empties, file);
            }
            if empties > 0 {
                assert(spec_parse_placement(s, i, end, rank, file - empties, pos)
                    == spec_parse_placement(s, i + 1, end, rank, file as int, pos));
            }
            assert(spec_parse_placement(s, i + pre_len, end, rank, file as int, pos)
                == spec_parse_placement(s, mid1, end, rank, file + 1, pos1));
            assert(spec_parse_placement(s, mid1, end, rank, file + 1, pos1)
                == spec_parse_placement(
                s,
                mid,
                end,
                rank,
                8,
                add_rank_range(pos1, p, rank, file + 1),
            ));
        } else {
            assert(rank_chars(p, rank, file, empties) =~= rank_chars(p, rank, file + 1, empties + 1));
            assert forall|f: int|
                file + 1 - (empties + 1) <= f < file + 1 implies !((#[trigger] p.spec_type_at(
                ((rank * 8 + f) as u64),
            )) is Some && p.spec_colour_at(((rank * 8 + f) as u64)) is Some) by {}
            lemma_rank_chars_parse(s, i, mid, end, p, pos, rank, file + 1, empties + 1);
            assert(add_rank_range(pos, p, rank, file - empties) == add_rank_range(
                pos,
                p,
                rank,
                (file + 1) - (empties + 1),
            ));
        }
    }
}

/// Accumulating over empty squares changes nothing.
proof fn lemma_add_rank_range_empty(pos: Position, p: Position, rank: int, f0: int, f1: int)
    requires
        0 <= rank <= 7,
        0 <= f0 <= f1 <= 8,
        forall|f: int|
            f0 <= f < f1 ==> !((#[trigger] p.spec_type_at(((rank * 8 + f) as u64))) is Some
                && p.spec_colour_at(((rank * 8 + f) as u64)) is Some),
    ensures
        f1 >= 8 ==> add_rank_range(pos, p, rank, f0) == pos,
    decreases 8 - f0,
{
    if f0 < 8 && f1 >= 8 {
        lemma_add_rank_range_empty(pos, p, rank, f0 + 1, f1);
    }
}

/// Accumulating from `f0` with empties up to an occupied `file` equals
/// adding that man and accumulating beyond it.
proof fn lemma_add_rank_range_skip(pos: Position, p: Position, rank: int, f0: int, file: int)
    requires
        0 <= rank <= 7,
        0 <= f0 <= file < 8,
        p.spec_type_at(((rank * 8 + file) as u64)) is Some,
        p.spec_colour_at(((rank * 8 + file) as u64)) is Some,
        forall|f: int|
            f0 <= f < file ==> !((#[trigger] p.spec_type_at(((rank * 8 + f) as u64))) is Some
                && p.spec_colour_at(((rank * 8 + f) as u64)) is Some),
    ensures
        ({
            let sq = (rank * 8 + file) as u64;
            add_rank_range(pos, p, rank, f0) == add_rank_range(
                pos.spec_add(p.spec_colour_at(sq)->Some_0, p.spec_type_at(sq)->Some_0, sq),
                p,
                rank,
                file + 1,
            )
        }),
    decreases 8 - f0,
{
    if f0 < file {
        lemma_add_rank_range_skip(pos, p, rank, f0 + 1, file);
    }
}

/// Reading a whole written placement from rank `rank` down rebuilds
/// the accumulated position.
proof fn lemma_placement_chars_parse(
    s: Seq<char>,
    i: int,
    end: int,
    p: Position,
    pos: Position,
    rank: int,
)
    requires
        0 <= i <= end <= s.len(),
        0 <= rank <= 7,
        s.subrange(i, end) =~= placement_chars(p, rank),
    ensures
        spec_parse_placement(s, i, end, rank, 0, pos) == Some(add_ranks(pos, p, rank)),
    decreases rank,
{
    let first = rank_chars(p, rank, 0, 0);
    if rank > 0 {
        assert(placement_chars(p, rank) =~= first + seq!['/'] + placement_chars(p, rank - 1));
        let mid = i + first.len();
        assert(s.subrange(i, mid) =~= first) by {
            assert forall|k: int| 0 <= k < first.len() implies #[trigger] (s.subrange(i, mid)[k])
                == first[k] by {
                assert(s.subrange(i, end)[k] == first[k]);
            }
        }
        lemma_rank_chars_parse(s, i, mid, end, p, pos, rank, 0, 0);
        assert(s[mid] == '/') by {
            assert(s.subrange(i, end)[mid - i] == '/');
        }
        let pos1 = add_rank_range(pos, p, rank, 0);
        assert(s.subrange(mid + 1, end) =~= placement_chars(p, rank - 1)) by {
            assert forall|k: int| 0 <= k < placement_chars(p, rank - 1).len() implies #[trigger] (
            s.subrange(mid + 1, end)[k]) == placement_chars(p, rank - 1)[k] by {
                assert(s.subrange(i, end)[first.len() + 1 + k] == placement_chars(p, rank - 1)[k]);
            }
        }
        lemma_placement_chars_parse(s, mid + 1, end, p, pos1, rank - 1);
    } else {
        assert(placement_chars(p, rank) =~= first);
        lemma_rank_chars_parse(s, i, end, end, p, pos, rank, 0, 0);
    }
}


/// Which squares the reader has rebuilt by the time it stands at rank
/// `rank`, file `f0`: every higher rank whole, and the lower files of
/// the current rank.
pub open spec fn rebuilt(sq: u64, rank: int, f0: int) -> bool {
    sq / 8 > rank || (sq / 8 == rank && sq % 8 < f0)
}

/// Accumulating one rank of a well-formed placement extends the
/// rebuilt region by that rank, keeping the accumulator well-formed,
/// agreeing with the source on rebuilt squares and empty elsewhere.
proof fn lemma_add_rank_range_builds(acc: Position, p: Position, rank: int, f0: int)
    requires
        p.wf(),
        acc.wf(),
        0 <= rank <= 7,
        0 <= f0 <= 8,
        forall|sq: u64|
            sq < 64 && rebuilt(sq, rank, f0) ==> #[trigger] acc.spec_type_at(sq)
                == p.spec_type_at(sq) && acc.spec_colour_at(sq) == p.spec_colour_at(sq),
        forall|sq: u64|
            sq < 64 && !rebuilt(sq, rank, f0) ==> #[trigger] acc.spec_type_at(sq) is None
                && acc.spec_colour_at(sq) is None,
    ensures
        ({
            let out = add_rank_range(acc, p, rank, f0);
            &&& out.wf()
            &&& forall|sq: u64|
                sq < 64 && rebuilt(sq, rank, 8) ==> #[trigger] out.spec_type_at(sq)
                    == p.spec_type_at(sq) && out.spec_colour_at(sq) == p.spec_colour_at(sq)
            &&& forall|sq: u64|
                sq < 64 && !rebuilt(sq, rank, 8) ==> #[trigger] out.spec_type_at(sq) is None
                    && out.spec_colour_at(sq) is None
        }),
    decreases 8 - f0,
{
    crate::types::position::lemma_wf_consistent(p);
    if f0 < 8 {
        let sq = (rank * 8 + f0) as u64;
        assert(sq < 64 && sq / 8 == rank && sq % 8 == f0) by (nonlinear_arith)
            requires
                0 <= rank <= 7 && 0 <= f0 < 8 && sq == (rank * 8 + f0) as u64,
        ;
        if p.spec_type_at(sq) is Some && p.spec_colour_at(sq) is Some {
            let pt = p.spec_type_at(sq)->Some_0;
            let pc = p.spec_colour_at(sq)->Some_0;
            assert(!rebuilt(sq, rank, f0));
            assert(acc.spec_type_at(sq) is None && acc.spec_colour_at(sq) is None);
            crate::types::position::lemma_add_wf(acc, pc, pt, sq);
            let acc1 = acc.spec_add(pc, pt, sq);
            assert forall|t: u64| t < 64 && rebuilt(t, rank, f0 + 1) implies #[trigger] acc1
                .spec_type_at(t) == p.spec_type_at(t) && acc1.spec_colour_at(t)
                == p.spec_colour_at(t) by {
                if t != sq {
                    assert(rebuilt(t, rank, f0));
                }
            }
            assert forall|t: u64| t < 64 && !rebuilt(t, rank, f0 + 1) implies #[trigger] acc1
                .spec_type_at(t) is None && acc1.spec_colour_at(t) is None by {
                assert(t != sq);
                assert(!rebuilt(t, rank, f0));
            }
            lemma_add_rank_range_builds(acc1, p, rank, f0 + 1);
        } else {
            assert(p.spec_type_at(sq) is None && p.spec_colour_at(sq) is None);
            assert forall|t: u64| t < 64 && rebuilt(t, rank, f0 + 1) implies #[trigger] acc
                .spec_type_at(t) == p.spec_type_at(t) && acc.spec_colour_at(t)
                == p.spec_colour_at(t) by {
                if t != sq {
                    assert(rebuilt(t, rank, f0));
                } else {
                    assert(!rebuilt(t, rank, f0));
                }
            }
            assert forall|t: u64| t < 64 && !rebuilt(t, rank, f0 + 1) implies #[trigger] acc
                .spec_type_at(t) is None && acc.spec_colour_at(t) is None by {
                assert(t != sq);
                assert(!rebuilt(t, rank, f0));
            }
            lemma_add_rank_range_builds(acc, p, rank, f0 + 1);
        }
    }
}

/// Accumulating the ranks from `rank` down rebuilds every square from
/// that rank down, and an accumulation that started at rank 7 on the
/// empty placement rebuilds the source exactly.
proof fn lemma_add_ranks_builds(acc: Position, p: Position, rank: int)
    requires
        p.wf(),
        acc.wf(),
        0 <= rank <= 7,
        forall|sq: u64|
            sq < 64 && rebuilt(sq, rank, 0) ==> #[trigger] acc.spec_type_at(sq) == p.spec_type_at(
                sq,
            ) && acc.spec_colour_at(sq) == p.spec_colour_at(sq),
        forall|sq: u64|
            sq < 64 && !rebuilt(sq, rank, 0) ==> #[trigger] acc.spec_type_at(sq) is None
                && acc.spec_colour_at(sq) is None,
    ensures
        add_ranks(acc, p, rank) == p,
    decreases rank,
{
    lemma_add_rank_range_builds(acc, p, rank, 0);
    let after = add_rank_range(acc, p, rank, 0);
    if rank > 0 {
        assert forall|sq: u64| sq < 64 && rebuilt(sq, rank - 1, 0) implies #[trigger] after
            .spec_type_at(sq) == p.spec_type_at(sq) && after.spec_colour_at(sq)
            == p.spec_colour_at(sq) by {
            assert(rebuilt(sq, rank, 8));
        }
        assert forall|sq: u64| sq < 64 && !rebuilt(sq, rank - 1, 0) implies #[trigger] after
            .spec_type_at(sq) is None && after.spec_colour_at(sq) is None by {
            assert(!rebuilt(sq, rank, 8));
        }
        lemma_add_ranks_builds(after, p, rank - 1);
    } else {
        assert forall|sq: u64| sq < 64 implies #[trigger] after.spec_type_at(sq)
            == p.spec_type_at(sq) && after.spec_colour_at(sq) == p.spec_colour_at(sq) by {
            assert(rebuilt(sq, 0, 8));
        }
        assert forall|sq: u64| sq < 64 implies #[trigger] p.spec_type_at(sq) == after.spec_type_at(
            sq,
        ) by {
            assert(after.spec_type_at(sq) == p.spec_type_at(sq));
        }
        assert forall|sq: u64| sq < 64 implies #[trigger] p.spec_colour_at(sq)
            == after.spec_colour_at(sq) by {
            assert(after.spec_type_at(sq) == p.spec_type_at(sq));
        }
        crate::types::position::lemma_position_ext(p, after);
    }
}

/// The placement field round-trips: reading back the written
/// placement of a well-formed position rebuilds the position. This is
/// the placement piece of the FEN round-trip law.
pub proof fn lemma_placement_round_trip(p: Position, s: Seq<char>, i: int, end: int)
    requires
        p.wf(),
        0 <= i <= end <= s.len(),
        s.subrange(i, end) =~= placement_chars(p, 7),
    ensures
        spec_parse_placement(s, i, end, 7, 0, Position::default_spec()) == Some(p),
{
    lemma_placement_chars_parse(s, i, end, p, Position::default_spec(), 7);
    assert(Position::default_spec().wf()) by {
        assert forall|i: u64| i < 64 implies #[trigger] Position::default_spec().piece_count_at(i)
            == Position::default_spec().colour_count_at(i) && Position::default_spec()
            .piece_count_at(i) <= 1 by {
            crate::bits::lemma_zero_has_no_bit(i);
        }
    }
    assert forall|sq: u64| sq < 64 && !rebuilt(sq, 7, 0) implies #[trigger] Position::default_spec()
        .spec_type_at(sq) is None && Position::default_spec().spec_colour_at(sq) is None by {
        crate::bits::lemma_zero_has_no_bit(sq);
    }
    lemma_add_ranks_builds(Position::default_spec(), p, 7);
}


/// No character of a written rank is a space.
proof fn lemma_rank_chars_no_space(p: Position, rank: int, file: int, empties: int)
    requires
        0 <= rank <= 7,
        0 <= empties <= file <= 8,
    ensures
        forall|k: int|
            0 <= k < rank_chars(p, rank, file, empties).len() ==> #[trigger] rank_chars(
                p,
                rank,
                file,
                empties,
            )[k] != ' ',
    decreases 8 - file,
{
    if file >= 8 {
        if empties > 0 {
            assert(rank_chars(p, rank, file, empties) =~= seq![
                char_of_rank((empties - 1) as u64),
            ]);
            assert(char_of_rank((empties - 1) as u64) != ' ');
        } else {
            assert(rank_chars(p, rank, file, empties).len() == 0);
        }
    } else {
        let sq = (rank * 8 + file) as u64;
        if p.spec_type_at(sq) is Some && p.spec_colour_at(sq) is Some {
            lemma_rank_chars_no_space(p, rank, file + 1, 0);
            let pt = p.spec_type_at(sq)->Some_0;
            let pc = p.spec_colour_at(sq)->Some_0;
            assert(spec_piece_fen_char(pt, pc) != ' ');
            let pre_len: int = if empties > 0 {
                1
            } else {
                0
            };
            let prefix: Seq<char> = if empties > 0 {
                seq![char_of_rank((empties - 1) as u64)]
            } else {
                Seq::empty()
            };
            let rest = rank_chars(p, rank, file + 1, 0);
            assert(rank_chars(p, rank, file, empties) =~= prefix + seq![
                spec_piece_fen_char(pt, pc),
            ] + rest);
            assert(prefix.len() == pre_len);
            if empties > 0 {
                assert(prefix[0] == char_of_rank((empties - 1) as u64));
                assert(char_of_rank((empties - 1) as u64) != ' ');
            }
            assert forall|k: int| 0 <= k < rank_chars(p, rank, file, empties).len() implies #[trigger] rank_chars(
                p,
                rank,
                file,
                empties,
            )[k] != ' ' by {
                if k < pre_len {
                    assert(rank_chars(p, rank, file, empties)[k] == prefix[k]);
                } else if k == pre_len {
                    assert(rank_chars(p, rank, file, empties)[k] == spec_piece_fen_char(pt, pc));
                } else {
                    assert(rank_chars(p, rank, file, empties)[k] == rest[k - pre_len - 1]);
                }
            }
        } else {
            lemma_rank_chars_no_space(p, rank, file + 1, empties + 1);
            assert forall|k: int|
                0 <= k < rank_chars(p, rank, file, empties).len() implies #[trigger] rank_chars(
                p,
                rank,
                file,
                empties,
            )[k] != ' ' by {
                assert(rank_chars(p, rank, file, empties)[k] == rank_chars(
                    p,
                    rank,
                    file + 1,
                    empties + 1,
                )[k]);
            }
        }
    }
}

/// A written rank holds at least one character when started fresh.
proof fn lemma_rank_chars_nonempty(p: Position, rank: int, file: int, empties: int)
    requires
        0 <= rank <= 7,
        0 <= empties <= file <= 8,
        file < 8 || empties > 0,
    ensures
        rank_chars(p, rank, file, empties).len() >= 1,
    decreases 8 - file,
{
    if file < 8 {
        let sq = (rank * 8 + file) as u64;
        if p.spec_type_at(sq) is Some && p.spec_colour_at(sq) is Some {
        } else {
            lemma_rank_chars_nonempty(p, rank, file + 1, empties + 1);
        }
    }
}

/// No character of a written placement is a space, and the writing is
/// never empty.
proof fn lemma_placement_chars_no_space(p: Position, rank: int)
    requires
        0 <= rank <= 7,
    ensures
        forall|k: int|
            0 <= k < placement_chars(p, rank).len() ==> #[trigger] placement_chars(p, rank)[k]
                != ' ',
        placement_chars(p, rank).len() >= 1,
    decreases rank,
{
    lemma_rank_chars_no_space(p, rank, 0, 0);
    lemma_rank_chars_nonempty(p, rank, 0, 0);
    if rank > 0 {
        lemma_placement_chars_no_space(p, rank - 1);
    }
}

/// No character of a decimal writing is a space, and there is at
/// least one digit.
proof fn lemma_dec_chars_no_space(n: int)
    requires
        n >= 0,
    ensures
        forall|k: int| 0 <= k < dec_chars(n).len() ==> #[trigger] dec_chars(n)[k] != ' ',
        dec_chars(n).len() >= 1,
    decreases n,
{
    if n >= 10 {
        lemma_dec_chars_no_space(n / 10);
    }
}

/// No character of a written rights field is a space, and the field
/// is never empty.
proof fn lemma_rights_chars_no_space(r: CastlingRights)
    ensures
        forall|k: int| 0 <= k < rights_chars(r).len() ==> #[trigger] rights_chars(r)[k] != ' ',
        rights_chars(r).len() >= 1,
{
    if r.white_king || r.white_queen || r.black_king || r.black_queen {
        lemma_rights_members(r);
    }
}

/// The token that starts at a space-free stretch ends exactly where
/// the stretch does.
proof fn lemma_token_end_at(s: Seq<char>, i: int, j: int)
    requires
        0 <= i <= j <= s.len(),
        forall|k: int| i <= k < j ==> s[k] != ' ',
        j == s.len() || s[j] == ' ',
    ensures
        token_end(s, i) == j,
    decreases j - i,
{
    if i < j {
        lemma_token_end_at(s, i + 1, j);
    }
}

/// A character occurs in a stretch of the text exactly when it occurs
/// in the sequence the stretch spells.
proof fn lemma_occurs_shift(s: Seq<char>, i: int, end: int, t: Seq<char>, c: char)
    requires
        0 <= i <= end <= s.len(),
        s.subrange(i, end) =~= t,
    ensures
        occurs(s, i, end, c) == occurs(t, 0, t.len() as int, c),
{
    if occurs(s, i, end, c) {
        let k = choose|k: int| i <= k < end && s[k] == c;
        assert(t[k - i] == c) by {
            assert(s.subrange(i, end)[k - i] == s[k]);
        }
        assert(occurs(t, 0, t.len() as int, c));
    }
    if occurs(t, 0, t.len() as int, c) {
        let k = choose|k: int| 0 <= k < t.len() && t[k] == c;
        assert(s[i + k] == c) by {
            assert(s.subrange(i, end)[k] == t[k]);
        }
        assert(occurs(s, i, end, c));
    }
}

/// The FEN round-trip law: reading back the written FEN text of a
/// board with a well-formed placement yields that board. Castling
/// rights come back from their canonical writing, the en-passant
/// square from its algebraic name, and the counters from their
/// decimal writings.
#[verifier::rlimit(100)]
pub proof fn lemma_fen_round_trip(b: BoardState)
    requires
        b.position.wf(),
        b.en_passant matches Some(t) ==> t < 64,
        b.half_moves >= 0,
        b.full_moves >= 0,
    ensures
        spec_parse(spec_fen(b)) == Some(b),
{
    let s = spec_fen(b);
    let pl = placement_chars(b.position, 7);
    let side: Seq<char> = seq![
        if b.active_player == Colour::White {
            'w'
        } else {
            'b'
        },
    ];
    let rights = rights_chars(b.castling_rights);
    let ep = ep_chars(b.en_passant);
    let half = dec_chars(b.half_moves as int);
    let full = dec_chars(b.full_moves as int);
    lemma_placement_chars_no_space(b.position, 7);
    lemma_rights_chars_no_space(b.castling_rights);
    lemma_dec_chars_no_space(b.half_moves as int);
    lemma_dec_chars_no_space(b.full_moves as int);
    assert(forall|k: int| 0 <= k < ep.len() ==> #[trigger] ep[k] != ' ' && ep.len() >= 1);
    let i1: int = 0;
    let e1 = pl.len() as int;
    let i2 = e1 + 1;
    let e2 = i2 + 1;
    let i3 = e2 + 1;
    let e3 = i3 + rights.len();
    let i4 = e3 + 1;
    let e4 = i4 + ep.len();
    let i5 = e4 + 1;
    let e5 = i5 + half.len();
    let i6 = e5 + 1;
    let e6 = i6 + full.len();
    assert(s.len() == e6);
    assert(forall|k: int| 0 <= k < e1 ==> #[trigger] s[k] == pl[k]);
    assert(s[e1] == ' ');
    assert(s[i2] == side[0]);
    assert(s[e2] == ' ');
    assert(forall|k: int| i3 <= k < e3 ==> #[trigger] s[k] == rights[k - i3]);
    assert(s[e3] == ' ');
    assert(forall|k: int| i4 <= k < e4 ==> #[trigger] s[k] == ep[k - i4]);
    assert(s[e4] == ' ');
    assert(forall|k: int| i5 <= k < e5 ==> #[trigger] s[k] == half[k - i5]);
    assert(s[e5] == ' ');
    assert(forall|k: int| i6 <= k < e6 ==> #[trigger] s[k] == full[k - i6]);
    // Token boundaries.
    assert(skip_spaces(s, 0) == i1) by {
        assert(s[0] == pl[0]);
        assert(pl[0] != ' ');
    }
    lemma_token_end_at(s, i1, e1);
    assert(skip_spaces(s, e1) == i2) by {
        assert(s[i2] != ' ');
        assert(skip_spaces(s, i2) == i2);
    }
    lemma_token_end_at(s, i2, e2);
    assert(skip_spaces(s, e2) == i3) by {
        assert(s[i3] != ' ');
        assert(skip_spaces(s, i3) == i3);
    }
    lemma_token_end_at(s, i3, e3);
    assert(skip_spaces(s, e3) == i4) by {
        assert(s[i4] == ep[0]);
        assert(ep[0] != ' ');
        assert(skip_spaces(s, i4) == i4);
    }
    lemma_token_end_at(s, i4, e4);
    assert(skip_spaces(s, e4) == i5) by {
        assert(s[i5] == half[0]);
        assert(half[0] != ' ');
        assert(skip_spaces(s, i5) == i5);
    }
    lemma_token_end_at(s, i5, e5);
    assert(skip_spaces(s, e5) == i6) by {
        assert(s[i6] == full[0]);
        assert(full[0] != ' ');
        assert(skip_spaces(s, i6) == i6);
    }
    lemma_token_end_at(s, i6, e6);
    assert(skip_spaces(s, e6) == e6);
    // The placement field.
    assert(s.subrange(i1, e1) =~= pl);
    lemma_placement_round_trip(b.position, s, i1, e1);
    // The side to move.
    assert(e2 - i2 == 1);
    // The castling rights.
    assert(s.subrange(i3, e3) =~= rights);
    lemma_occurs_shift(s, i3, e3, rights, 'K');
    lemma_occurs_shift(s, i3, e3, rights, 'Q');
    lemma_occurs_shift(s, i3, e3, rights, 'k');
    lemma_occurs_shift(s, i3, e3, rights, 'q');
    lemma_rights_round_trip(b.castling_rights);
    assert(CastlingRights {
        white_king: occurs(s, i3, e3, 'K'),
        white_queen: occurs(s, i3, e3, 'Q'),
        black_king: occurs(s, i3, e3, 'k'),
        black_queen: occurs(s, i3, e3, 'q'),
    } == b.castling_rights);
    // The en-passant field.
    match b.en_passant {
        Some(t) => {
            crate::types::square::lemma_algebraic_round_trip(t);
            assert(s.subrange(i4, e4) =~= algebraic_chars(t));
            assert(e4 - i4 == 2);
            assert(is_algebraic(s.subrange(i4, e4)));
            assert(algebraic_square(s.subrange(i4, e4)) == t);
        },
        None => {
            assert(ep =~= seq!['-']);
            assert(e4 - i4 == 1 && s[i4] == '-');
        },
    }
    // The counters.
    assert(s.subrange(i5, e5) =~= half);
    lemma_decimal_round_trip(s, i5, e5, b.half_moves as int);
    assert(s.subrange(i6, e6) =~= full);
    lemma_decimal_round_trip(s, i6, e6, b.full_moves as int);
}


/// The textual and structural paths agree: a board reconstructed from
/// its FEN text makes every move to the same successor as the board
/// itself, so applying a move and then writing FEN equals writing
/// FEN, reading it back, and applying the move.
pub proof fn lemma_textual_structural_agree(b: BoardState, mv: crate::types::chess_move::Move)
    requires
        b.position.wf(),
        b.en_passant matches Some(t) ==> t < 64,
        b.half_moves >= 0,
        b.full_moves >= 0,
    ensures
        spec_parse(spec_fen(b)) matches Some(rb) && crate::types::board_state::spec_make_move(
            rb,
            mv,
        ) == crate::types::board_state::spec_make_move(b, mv),
{
    lemma_fen_round_trip(b);
}

} // verus!
