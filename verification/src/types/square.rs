//! Squares, files and ranks, with algebraic notation.
//!
//! Square index 0 is a1 and 63 is h8; index = rank * 8 + file.

use vstd::prelude::*;

use crate::types::bitboard::{ToBitboard, BB};
use crate::types::colour::Colour;

verus! {

/// A square as a plain number, 0 (a1) to 63 (h8).
pub type SquareIndex = u64;

/// A file, a to h.
#[derive(Clone, Copy, Debug, PartialEq, Eq, Structural)]
pub enum File {
    A,
    B,
    C,
    D,
    E,
    F,
    G,
    H,
}

/// A rank, 1 to 8.
#[derive(Clone, Copy, Debug, PartialEq, Eq, Structural)]
pub enum Rank {
    First,
    Second,
    Third,
    Fourth,
    Fifth,
    Sixth,
    Seventh,
    Eighth,
}

/// A named square.
#[derive(Clone, Copy, Debug, PartialEq, Eq, Structural)]
pub enum Square {
    A1,
    B1,
    C1,
    D1,
    E1,
    F1,
    G1,
    H1,
    A2,
    B2,
    C2,
    D2,
    E2,
    F2,
    G2,
    H2,
    A3,
    B3,
    C3,
    D3,
    E3,
    F3,
    G3,
    H3,
    A4,
    B4,
    C4,
    D4,
    E4,
    F4,
    G4,
    H4,
    A5,
    B5,
    C5,
    D5,
    E5,
    F5,
    G5,
    H5,
    A6,
    B6,
    C6,
    D6,
    E6,
    F6,
    G6,
    H6,
    A7,
    B7,
    C7,
    D7,
    E7,
    F7,
    G7,
    H7,
    A8,
    B8,
    C8,
    D8,
    E8,
    F8,
    G8,
    H8,
}

/// File ordinal a letter stands for; 8 for any character that is no file
/// letter.
pub open spec fn file_of_char(c: char) -> u64 {
    if c == 'a' {
        0
    } else if c == 'b' {
        1
    } else if c == 'c' {
        2
    } else if c == 'd' {
        3
    } else if c == 'e' {
        4
    } else if c == 'f' {
        5
    } else if c == 'g' {
        6
    } else if c == 'h' {
        7
    } else {
        8
    }
}

/// Rank ordinal a digit stands for; 8 for any character that is no rank
/// digit.
pub open spec fn rank_of_char(c: char) -> u64 {
    if c == '1' {
        0
    } else if c == '2' {
        1
    } else if c == '3' {
        2
    } else if c == '4' {
        3
    } else if c == '5' {
        4
    } else if c == '6' {
        5
    } else if c == '7' {
        6
    } else if c == '8' {
        7
    } else {
        8
    }
}

/// The letter of a file ordinal below 8.
pub open spec fn char_of_file(f: u64) -> char {
    if f == 0 {
        'a'
    } else if f == 1 {
        'b'
    } else if f == 2 {
        'c'
    } else if f == 3 {
        'd'
    } else if f == 4 {
        'e'
    } else if f == 5 {
        'f'
    } else if f == 6 {
        'g'
    } else {
        'h'
    }
}

/// The digit of a rank ordinal below 8.
pub open spec fn char_of_rank(r: u64) -> char {
    if r == 0 {
        '1'
    } else if r == 1 {
        '2'
    } else if r == 2 {
        '3'
    } else if r == 3 {
        '4'
    } else if r == 4 {
        '5'
    } else if r == 5 {
        '6'
    } else if r == 6 {
        '7'
    } else {
        '8'
    }
}

/// Two characters that name a square, file letter then rank digit.
pub open spec fn is_algebraic(s: Seq<char>) -> bool {
    s.len() == 2 && file_of_char(s[0]) < 8 && rank_of_char(s[1]) < 8
}

/// The square an algebraic name denotes.
pub open spec fn algebraic_square(s: Seq<char>) -> u64 {
    (rank_of_char(s[1]) * 8 + file_of_char(s[0])) as u64
}

/// The algebraic name of a square below 64.
pub open spec fn algebraic_chars(sq: u64) -> Seq<char> {
    seq![char_of_file(sq % 8), char_of_rank(sq / 8)]
}

/// Square-number helpers: reading and writing algebraic notation.
pub trait SquareIndexMethods: Sized {
    /// The number the implementing value stands for.
    spec fn sq_val(&self) -> u64;

    /// Reads an algebraic name.
    fn parse(notation: &str) -> (r: Self)
        requires
            is_algebraic(notation@),
        ensures
            r.sq_val() == algebraic_square(notation@),
    ;

    /// Writes the algebraic name.
    fn to_algebraic(&self) -> (r: String)
        requires
            self.sq_val() < 64,
        ensures
            r@ == algebraic_chars(self.sq_val()),
    ;
}

/// Reads one file letter; 8 is returned for other characters.
pub fn exec_file_of_char(c: char) -> (r: u64)
    ensures
        r == file_of_char(c),
{
    if c == 'a' {
        0
    } else if c == 'b' {
        1
    } else if c == 'c' {
        2
    } else if c == 'd' {
        3
    } else if c == 'e' {
        4
    } else if c == 'f' {
        5
    } else if c == 'g' {
        6
    } else if c == 'h' {
        7
    } else {
        8
    }
}

/// Reads one rank digit; 8 is returned for other characters.
pub fn exec_rank_of_char(c: char) -> (r: u64)
    ensures
        r == rank_of_char(c),
{
    if c == '1' {
        0
    } else if c == '2' {
        1
    } else if c == '3' {
        2
    } else if c == '4' {
        3
    } else if c == '5' {
        4
    } else if c == '6' {
        5
    } else if c == '7' {
        6
    } else if c == '8' {
        7
    } else {
        8
    }
}

/// The file letter of a file ordinal, as text.
fn file_str(f: u64) -> (r: &'static str)
    requires
        f < 8,
    ensures
        r@ == seq![char_of_file(f)],
{
    proof {
        reveal_strlit("a");
        reveal_strlit("b");
        reveal_strlit("c");
        reveal_strlit("d");
        reveal_strlit("e");
        reveal_strlit("f");
        reveal_strlit("g");
        reveal_strlit("h");
    }
    let r: &'static str = if f == 0 {
        "a"
    } else if f == 1 {
        "b"
    } else if f == 2 {
        "c"
    } else if f == 3 {
        "d"
    } else if f == 4 {
        "e"
    } else if f == 5 {
        "f"
    } else if f == 6 {
        "g"
    } else {
        "h"
    };
    proof {
        assert(r@ =~= seq![char_of_file(f)]);
    }
    r
}

/// The rank digit of a rank ordinal, as text.
fn rank_str(rk: u64) -> (r: &'static str)
    requires
        rk < 8,
    ensures
        r@ == seq![char_of_rank(rk)],
{
    proof {
        reveal_strlit("1");
        reveal_strlit("2");
        reveal_strlit("3");
        reveal_strlit("4");
        reveal_strlit("5");
        reveal_strlit("6");
        reveal_strlit("7");
        reveal_strlit("8");
    }
    let r: &'static str = if rk == 0 {
        "1"
    } else if rk == 1 {
        "2"
    } else if rk == 2 {
        "3"
    } else if rk == 3 {
        "4"
    } else if rk == 4 {
        "5"
    } else if rk == 5 {
        "6"
    } else if rk == 6 {
        "7"
    } else {
        "8"
    };
    proof {
        assert(r@ =~= seq![char_of_rank(rk)]);
    }
    r
}

impl SquareIndexMethods for SquareIndex {
    open spec fn sq_val(&self) -> u64 {
        *self
    }

    fn parse(notation: &str) -> (r: Self)
    {
        let c0 = notation.get_char(0);
        let c1 = notation.get_char(1);
        let file = exec_file_of_char(c0);
        let rank = exec_rank_of_char(c1);
        rank * 8 + file
    }

    fn to_algebraic(&self) -> (r: String)
    {
        let mut out = String::new();
        out.append(file_str(*self % 8));
        out.append(rank_str(*self / 8));
        proof {
            assert(out@ =~= algebraic_chars(*self));
        }
        out
    }
}

impl Square {
    /// Ordinal of the square, 0 (a1) to 63 (h8).
    pub open spec fn spec_index(self) -> u64 {
        match self {
            Square::A1 => 0,
            Square::B1 => 1,
            Square::C1 => 2,
            Square::D1 => 3,
            Square::E1 => 4,
            Square::F1 => 5,
            Square::G1 => 6,
            Square::H1 => 7,
            Square::A2 => 8,
            Square::B2 => 9,
            Square::C2 => 10,
            Square::D2 => 11,
            Square::E2 => 12,
            Square::F2 => 13,
            Square::G2 => 14,
            Square::H2 => 15,
            Square::A3 => 16,
            Square::B3 => 17,
            Square::C3 => 18,
            Square::D3 => 19,
            Square::E3 => 20,
            Square::F3 => 21,
            Square::G3 => 22,
            Square::H3 => 23,
            Square::A4 => 24,
            Square::B4 => 25,
            Square::C4 => 26,
            Square::D4 => 27,
            Square::E4 => 28,
            Square::F4 => 29,
            Square::G4 => 30,
            Square::H4 => 31,
            Square::A5 => 32,
            Square::B5 => 33,
            Square::C5 => 34,
            Square::D5 => 35,
            Square::E5 => 36,
            Square::F5 => 37,
            Square::G5 => 38,
            Square::H5 => 39,
            Square::A6 => 40,
            Square::B6 => 41,
            Square::C6 => 42,
            Square::D6 => 43,
            Square::E6 => 44,
            Square::F6 => 45,
            Square::G6 => 46,
            Square::H6 => 47,
            Square::A7 => 48,
            Square::B7 => 49,
            Square::C7 => 50,
            Square::D7 => 51,
            Square::E7 => 52,
            Square::F7 => 53,
            Square::G7 => 54,
            Square::H7 => 55,
            Square::A8 => 56,
            Square::B8 => 57,
            Square::C8 => 58,
            Square::D8 => 59,
            Square::E8 => 60,
            Square::F8 => 61,
            Square::G8 => 62,
            Square::H8 => 63,
        }
    }

    /// The square with the given ordinal.
    pub fn from_index(idx: u64) -> (r: Square)
        requires
            idx < 64,
        ensures
            r.spec_index() == idx,
    {
        match idx {
            0 => Square::A1,
            1 => Square::B1,
            2 => Square::C1,
            3 => Square::D1,
            4 => Square::E1,
            5 => Square::F1,
            6 => Square::G1,
            7 => Square::H1,
            8 => Square::A2,
            9 => Square::B2,
            10 => Square::C2,
            11 => Square::D2,
            12 => Square::E2,
            13 => Square::F2,
            14 => Square::G2,
            15 => Square::H2,
            16 => Square::A3,
            17 => Square::B3,
            18 => Square::C3,
            19 => Square::D3,
            20 => Square::E3,
            21 => Square::F3,
            22 => Square::G3,
            23 => Square::H3,
            24 => Square::A4,
            25 => Square::B4,
            26 => Square::C4,
            27 => Square::D4,
            28 => Square::E4,
            29 => Square::F4,
            30 => Square::G4,
            31 => Square::H4,
            32 => Square::A5,
            33 => Square::B5,
            34 => Square::C5,
            35 => Square::D5,
            36 => Square::E5,
            37 => Square::F5,
            38 => Square::G5,
            39 => Square::H5,
            40 => Square::A6,
            41 => Square::B6,
            42 => Square::C6,
            43 => Square::D6,
            44 => Square::E6,
            45 => Square::F6,
            46 => Square::G6,
            47 => Square::H6,
            48 => Square::A7,
            49 => Square::B7,
            50 => Square::C7,
            51 => Square::D7,
            52 => Square::E7,
            53 => Square::F7,
            54 => Square::G7,
            55 => Square::H7,
            56 => Square::A8,
            57 => Square::B8,
            58 => Square::C8,
            59 => Square::D8,
            60 => Square::E8,
            61 => Square::F8,
            62 => Square::G8,
            _ => Square::H8,
        }
    }

    /// The square on the given file and rank.
    pub fn new(file: File, rank: Rank) -> (r: Self)
        ensures
            r.spec_index() == rank.spec_idx() * 8 + file.spec_idx(),
    {
        Self::from_index(rank.idx() * 8 + file.idx())
    }

    /// The square's file.
    pub fn file(self) -> (r: File)
        ensures
            r.spec_idx() == self.spec_index() % 8,
    {
        File::from_idx(self.to_square_index() % 8)
    }

    /// The square's rank.
    pub fn rank(self) -> (r: Rank)
        ensures
            r.spec_idx() == self.spec_index() / 8,
    {
        Rank::from_idx(self.to_square_index() / 8)
    }

    /// The square an algebraic name denotes.
    pub fn from_algebraic(notation: &str) -> (r: Self)
        requires
            is_algebraic(notation@),
        ensures
            r.spec_index() == algebraic_square(notation@),
    {
        let idx = SquareIndex::parse(notation);
        Self::from_index(idx)
    }

    /// The square as a plain number.
    pub fn to_square_index(&self) -> (r: SquareIndex)
        ensures
            r == self.spec_index(),
    {
        match *self {
            Square::A1 => 0,
            Square::B1 => 1,
            Square::C1 => 2,
            Square::D1 => 3,
            Square::E1 => 4,
            Square::F1 => 5,
            Square::G1 => 6,
            Square::H1 => 7,
            Square::A2 => 8,
            Square::B2 => 9,
            Square::C2 => 10,
            Square::D2 => 11,
            Square::E2 => 12,
            Square::F2 => 13,
            Square::G2 => 14,
            Square::H2 => 15,
            Square::A3 => 16,
            Square::B3 => 17,
            Square::C3 => 18,
            Square::D3 => 19,
            Square::E3 => 20,
            Square::F3 => 21,
            Square::G3 => 22,
            Square::H3 => 23,
            Square::A4 => 24,
            Square::B4 => 25,
            Square::C4 => 26,
            Square::D4 => 27,
            Square::E4 => 28,
            Square::F4 => 29,
            Square::G4 => 30,
            Square::H4 => 31,
            Square::A5 => 32,
            Square::B5 => 33,
            Square::C5 => 34,
            Square::D5 => 35,
            Square::E5 => 36,
            Square::F5 => 37,
            Square::G5 => 38,
            Square::H5 => 39,
            Square::A6 => 40,
            Square::B6 => 41,
            Square::C6 => 42,
            Square::D6 => 43,
            Square::E6 => 44,
            Square::F6 => 45,
            Square::G6 => 46,
            Square::H6 => 47,
            Square::A7 => 48,
            Square::B7 => 49,
            Square::C7 => 50,
            Square::D7 => 51,
            Square::E7 => 52,
            Square::F7 => 53,
            Square::G7 => 54,
            Square::H7 => 55,
            Square::A8 => 56,
            Square::B8 => 57,
            Square::C8 => 58,
            Square::D8 => 59,
            Square::E8 => 60,
            Square::F8 => 61,
            Square::G8 => 62,
            Square::H8 => 63,
        }
    }
}

impl File {
    /// Ordinal of the file: a is 0.
    pub open spec fn spec_idx(self) -> u64 {
        match self {
            File::A => 0,
            File::B => 1,
            File::C => 2,
            File::D => 3,
            File::E => 4,
            File::F => 5,
            File::G => 6,
            File::H => 7,
        }
    }

    /// Ordinal of the file.
    pub fn idx(self) -> (r: u64)
        ensures
            r == self.spec_idx(),
    {
        match self {
            File::A => 0,
            File::B => 1,
            File::C => 2,
            File::D => 3,
            File::E => 4,
            File::F => 5,
            File::G => 6,
            File::H => 7,
        }
    }

    /// The file with the given ordinal.
    pub fn from_idx(idx: u64) -> (r: File)
        requires
            idx < 8,
        ensures
            r.spec_idx() == idx,
    {
        match idx {
            0 => File::A,
            1 => File::B,
            2 => File::C,
            3 => File::D,
            4 => File::E,
            5 => File::F,
            6 => File::G,
            _ => File::H,
        }
    }
}

impl Rank {
    /// Ordinal of the rank: the first rank is 0.
    pub open spec fn spec_idx(self) -> u64 {
        match self {
            Rank::First => 0,
            Rank::Second => 1,
            Rank::Third => 2,
            Rank::Fourth => 3,
            Rank::Fifth => 4,
            Rank::Sixth => 5,
            Rank::Seventh => 6,
            Rank::Eighth => 7,
        }
    }

    /// Ordinal of the rank.
    pub fn idx(self) -> (r: u64)
        ensures
            r == self.spec_idx(),
    {
        match self {
            Rank::First => 0,
            Rank::Second => 1,
            Rank::Third => 2,
            Rank::Fourth => 3,
            Rank::Fifth => 4,
            Rank::Sixth => 5,
            Rank::Seventh => 6,
            Rank::Eighth => 7,
        }
    }

    /// The rank with the given ordinal.
    pub fn from_idx(idx: u64) -> (r: Rank)
        requires
            idx < 8,
        ensures
            r.spec_idx() == idx,
    {
        match idx {
            0 => Rank::First,
            1 => Rank::Second,
            2 => Rank::Third,
            3 => Rank::Fourth,
            4 => Rank::Fifth,
            5 => Rank::Sixth,
            6 => Rank::Seventh,
            _ => Rank::Eighth,
        }
    }

    /// The same rank seen from the other side of the board.
    pub fn flip(self) -> (r: Self)
        ensures
            r.spec_idx() == 7 - self.spec_idx(),
    {
        Self::from_idx(7 - self.idx())
    }

    /// A mask of eight consecutive bits starting one below the given
    /// number, as the byte 0xFF shifted by `index - 1` bit positions.
    pub fn rank(index: u8) -> (r: BB)
        requires
            1 <= index <= 8,
        ensures
            r == 0xFFu64 << ((index - 1) as u64),
    {
        0xFFu64 << ((index - 1) as u64)
    }

    /// The mask of the rank's eight squares.
    pub fn bitboard(self) -> (r: BB)
        ensures
            r == rank_mask(self.spec_idx()),
    {
        0xFFu64 << (self.idx() * 8)
    }

    /// The rank as seen by the given side: White counts from rank 1,
    /// Black from rank 8.
    pub fn relative_to(self, colour: Colour) -> (r: Self)
        ensures
            colour == Colour::White ==> r == self,
            colour == Colour::Black ==> r.spec_idx() == 7 - self.spec_idx(),
    {
        if colour == Colour::White {
            self
        } else {
            self.flip()
        }
    }
}

/// The mask of a rank's eight squares, for a rank ordinal below 8.
pub open spec fn rank_mask(r: u64) -> u64 {
    0xFFu64 << (r * 8)
}

/// The mask of a file's eight squares, for a file ordinal below 8.
pub open spec fn file_mask(f: u64) -> u64 {
    0x0101_0101_0101_0101u64 << f
}

impl ToBitboard for SquareIndex {
    open spec fn tb_wf(&self) -> bool {
        *self < 64
    }

    open spec fn spec_to_bitboard(&self) -> BB {
        1u64 << *self
    }

    fn to_bitboard(&self) -> (r: BB) {
        1u64 << *self
    }
}

impl ToBitboard for File {
    open spec fn tb_wf(&self) -> bool {
        true
    }

    open spec fn spec_to_bitboard(&self) -> BB {
        file_mask(self.spec_idx())
    }

    fn to_bitboard(&self) -> (r: BB) {
        0x0101_0101_0101_0101u64 << self.idx()
    }
}

impl ToBitboard for Rank {
    open spec fn tb_wf(&self) -> bool {
        true
    }

    open spec fn spec_to_bitboard(&self) -> BB {
        rank_mask(self.spec_idx())
    }

    fn to_bitboard(&self) -> (r: BB) {
        0xFFu64 << (self.idx() * 8)
    }
}

impl ToBitboard for Square {
    open spec fn tb_wf(&self) -> bool {
        true
    }

    open spec fn spec_to_bitboard(&self) -> BB {
        1u64 << self.spec_index()
    }

    fn to_bitboard(&self) -> (r: BB) {
        1u64 << self.to_square_index()
    }
}


/// A square's algebraic name reads back as the square: the square
/// piece of the FEN round-trip law.
pub proof fn lemma_algebraic_round_trip(sq: u64)
    requires
        sq < 64,
    ensures
        is_algebraic(algebraic_chars(sq)),
        algebraic_square(algebraic_chars(sq)) == sq,
{
    assert(file_of_char(char_of_file(sq % 8)) == sq % 8);
    assert(rank_of_char(char_of_rank(sq / 8)) == sq / 8);
}

} // verus!
