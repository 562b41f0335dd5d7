//! Bit-level groundwork for 64-bit boards: the `bit` predicate, the
//! population count, and the lemmas that connect the bitwise operators
//! to set reasoning over individual squares.

use vstd::prelude::*;

verus! {

/// True iff bit `i` of `b` is set; board squares are numbered 0..64.
pub open spec fn bit(b: u64, i: u64) -> bool {
    b & (1u64 << i) != 0
}

/// Number of set bits in `b`.
pub open spec fn pcount(b: u64) -> nat
    decreases b,
{
    if b == 0 {
        0
    } else {
        ((b % 2) + pcount(b / 2)) as nat
    }
}

/// The two bitwise operators behave as set union and intersection on bits.
pub proof fn lemma_bit_ops(a: u64, b: u64, i: u64)
    by (bit_vector)
    requires
        i < 64,
    ensures
        bit(a | b, i) <==> bit(a, i) || bit(b, i),
        bit(a & b, i) <==> bit(a, i) && bit(b, i),
        bit(a ^ b, i) <==> bit(a, i) != bit(b, i),
        bit(!a, i) <==> !bit(a, i),
{
}

/// A one-bit mask holds exactly its own square.
pub proof fn lemma_single_bit(s: u64, i: u64)
    by (bit_vector)
    requires
        s < 64,
        i < 64,
    ensures
        bit(1u64 << s, i) <==> i == s,
{
}

/// Two values with the same bits below 64 are equal.
pub proof fn lemma_bit_ext(a: u64, b: u64)
    requires
        forall|i: u64| i < 64 ==> (bit(a, i) <==> bit(b, i)),
    ensures
        a == b,
{
    let d = a ^ b;
    if d != 0 {
        lemma_low_bit(d);
        let t = low_bit(d);
        lemma_bit_ops(a, b, t);
        assert(false);
    }
    assert(a ^ b == 0 ==> a == b) by (bit_vector);
}

/// The zero board has no bits set.
pub proof fn lemma_zero_has_no_bit(i: u64)
    by (bit_vector)
    requires
        i < 64,
    ensures
        !bit(0u64, i),
{
}

/// Unions with the empty board change nothing.
pub proof fn lemma_or_zero(a: u64)
    by (bit_vector)
    ensures
        0u64 | a == a,
        a | 0u64 == a,
{
}

/// Union of square sets is associative and commutative.
pub proof fn lemma_or_algebra(a: u64, b: u64, c: u64)
    by (bit_vector)
    ensures
        (a | b) | c == a | (b | c),
        a | b == b | a,
{
}

/// A board cancels itself under exclusive or.
pub proof fn lemma_xor_self(a: u64)
    by (bit_vector)
    ensures
        a ^ a == 0u64,
{
}

/// The trailing-zero count of `a`, as a square number.
pub open spec fn low_bit(a: u64) -> u64 {
    vstd::std_specs::bits::u64_trailing_zeros(a) as u64
}

/// A nonzero board has its lowest set bit at `low_bit`, and no bit below it.
pub proof fn lemma_low_bit(a: u64)
    requires
        a != 0,
    ensures
        low_bit(a) < 64,
        bit(a, low_bit(a)),
        forall|j: u64| j < low_bit(a) ==> !bit(a, j),
{
    broadcast use vstd::std_specs::bits::group_bits_axioms;

    let t = low_bit(a);
    assert(t < 64);
    assert((a >> t) & 1u64 == 1u64);
    assert(t < 64 && (a >> t) & 1u64 == 1u64 ==> a & (1u64 << t) != 0) by (bit_vector);
    assert forall|j: u64| j < t implies !bit(a, j) by {
        assert((a >> j) & 1u64 == 0u64);
        assert(j < 64 && (a >> j) & 1u64 == 0u64 ==> a & (1u64 << j) == 0) by (bit_vector);
    }
}

/// Clearing the lowest set bit: `b & (b - 1)` drops exactly the bit at
/// `low_bit(b)` and so is strictly smaller.
pub proof fn lemma_clear_lowest(b: u64)
    requires
        b != 0,
    ensures
        b & ((b - 1) as u64) == b ^ (1u64 << low_bit(b)),
        b & ((b - 1) as u64) < b,
        forall|i: u64|
            i < 64 ==> (bit(b & ((b - 1) as u64), i) <==> bit(b, i) && i != low_bit(b)),
{
    broadcast use vstd::std_specs::bits::group_bits_axioms;

    lemma_low_bit(b);
    let t = low_bit(b);
    let s = (64 - t) as u64;
    assert(t < 64);
    assert((b >> t) & 1u64 == 1u64);
    assert(b << s == 0);
    assert(t < 64 && s == 64 - t && (b >> t) & 1u64 == 1u64 && b << s == 0 ==> b & ((b - 1) as u64)
        == b ^ (1u64 << t) && b & ((b - 1) as u64) < b) by (bit_vector);
    assert forall|i: u64| i < 64 implies (bit(b & ((b - 1) as u64), i) <==> bit(b, i) && i
        != t) by {
        lemma_single_bit(t, i);
        lemma_bit_ops(b, 1u64 << t, i);
        assert(bit(b, t));
    }
}

/// The population count never exceeds the width.
pub proof fn lemma_pcount_bound(b: u64)
    ensures
        pcount(b) <= 64,
{
    lemma_pcount_bound_rec(b, 64);
}

proof fn lemma_pcount_bound_rec(b: u64, w: nat)
    requires
        w <= 64,
        b < pow2_bound(w),
    ensures
        pcount(b) <= w,
    decreases b,
{
    if b != 0 {
        assert(w != 0) by {
            assert((1u64 << 0u64) == 1) by (bit_vector);
        }
        assert(pow2_bound(w) == 2 * pow2_bound((w - 1) as nat)) by {
            lemma_pow2_unfold(w);
        }
        lemma_pcount_bound_rec(b / 2, (w - 1) as nat);
    }
}

/// `2^w` as a mathematical bound, for `w` up to the board width.
pub open spec fn pow2_bound(w: nat) -> int {
    if w >= 64 {
        0x1_0000_0000_0000_0000
    } else {
        (1u64 << (w as u64)) as int
    }
}

proof fn lemma_pow2_unfold(w: nat)
    requires
        1 <= w <= 64,
    ensures
        pow2_bound(w) == 2 * pow2_bound((w - 1) as nat),
{
    let wu = w as u64;
    let v = (w - 1) as u64;
    if w == 64 {
        assert((1u64 << 63u64) == 0x8000_0000_0000_0000) by (bit_vector);
    } else {
        assert(1 <= wu < 64 && v + 1 == wu ==> (1u64 << wu) == 2 * (1u64 << v)) by (bit_vector);
    }
}

/// Counts the set bits of a board.
pub fn popcount(b: u64) -> (r: u32)
    ensures
        r == pcount(b),
{
    let mut cur: u64 = b;
    let mut count: u32 = 0;
    proof {
        lemma_pcount_bound(b);
    }
    while cur != 0
        invariant
            count + pcount(cur) == pcount(b),
            pcount(b) <= 64,
        decreases cur,
    {
        count = count + (cur % 2) as u32;
        cur = cur / 2;
    }
    count
}

/// Returns the index of the lowest set bit of a nonzero board.
pub fn first_set_square(b: u64) -> (r: u64)
    requires
        b != 0,
    ensures
        r == low_bit(b),
        r < 64,
        bit(b, r),
{
    proof {
        lemma_low_bit(b);
    }
    b.trailing_zeros() as u64
}

} // verus!
