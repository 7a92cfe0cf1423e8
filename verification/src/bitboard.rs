//! Bitboards as plain `u64` masks: one bit per square, square index
//! `rank * 8 + file` with rank 0 = White's back rank.

use vstd::prelude::*;

verus! {

/// Whether square `sq` is set in `bb` (spec view of `get_bit`).
pub open spec fn spec_get_bit(bb: u64, sq: usize) -> bool {
    (bb >> (sq as u64)) & 1u64 == 1u64
}

/// Number of set bits among the squares `lo..64` of `bb`.
pub open spec fn count_from(bb: u64, lo: usize) -> nat
    decreases 64 - lo,
{
    if lo >= 64 {
        0
    } else {
        (if spec_get_bit(bb, lo) {
            1nat
        } else {
            0nat
        }) + count_from(bb, (lo + 1) as usize)
    }
}

/// Number of set bits of `bb` (the population count).
pub open spec fn spec_popcount(bb: u64) -> nat {
    count_from(bb, 0)
}

/// Index of the lowest set bit among `lo..64`, or 64 if none is set there.
pub open spec fn lowest_from(bb: u64, lo: usize) -> usize
    decreases 64 - lo,
{
    if lo >= 64 {
        64
    } else if spec_get_bit(bb, lo) {
        lo
    } else {
        lowest_from(bb, (lo + 1) as usize)
    }
}

/// Index of the lowest set bit of `bb`, or 64 for an empty mask.
pub open spec fn spec_lowest_bit(bb: u64) -> usize {
    lowest_from(bb, 0)
}

pub fn get_bit(bitboard: u64, square: usize) -> (r: bool)
    requires
        square < 64,
    ensures
        r == spec_get_bit(bitboard, square),
{
    (bitboard >> (square as u64)) & 1u64 == 1u64
}

pub fn set_bit(bitboard: &mut u64, square: usize)
    requires
        square < 64,
    ensures
        *final(bitboard) == *old(bitboard) | (1u64 << (square as u64)),
{
    *bitboard = *bitboard | (1u64 << (square as u64));
}

pub fn pop_bit(bitboard: &mut u64, square: usize)
    requires
        square < 64,
    ensures
        *final(bitboard) == *old(bitboard) & !(1u64 << (square as u64)),
{
    *bitboard = *bitboard & !(1u64 << (square as u64));
}

/// Count the set bits of `bb`.
pub fn popcount(bb: u64) -> (r: u32)
    ensures
        r == spec_popcount(bb),
        r <= 64,
{
    let mut count: u32 = 0;
    let mut sq: usize = 0;
    proof {
        lemma_count_from_bound(bb, 0);
    }
    while sq < 64
        invariant
            sq <= 64,
            count + count_from(bb, sq) == spec_popcount(bb),
            spec_popcount(bb) <= 64,
        decreases 64 - sq,
    {
        proof {
            lemma_count_from_bound(bb, sq);
        }
        if get_bit(bb, sq) {
            count = count + 1;
        }
        sq = sq + 1;
    }
    count
}

/// Index of the lowest set bit, or 64 if `bb == 0` has no bits at all.
pub fn lowest_bit(bb: u64) -> (r: usize)
    ensures
        r == spec_lowest_bit(bb),
        r <= 64,
        r < 64 ==> spec_get_bit(bb, r),
{
    proof {
        lemma_lowest_from_bound(bb, 0);
    }
    let mut sq: usize = 0;
    while sq < 64
        invariant
            sq <= 64,
            lowest_from(bb, sq) == spec_lowest_bit(bb),
            spec_lowest_bit(bb) < 64 ==> spec_get_bit(bb, spec_lowest_bit(bb)),
        decreases 64 - sq,
    {
        proof {
            lemma_lowest_from_bound(bb, sq);
        }
        if get_bit(bb, sq) {
            return sq;
        }
        sq = sq + 1;
    }
    64
}

/// A mask with a positive population count is not empty.
pub proof fn lemma_popcount_pos(bb: u64)
    requires
        spec_popcount(bb) > 0,
    ensures
        bb != 0,
{
    lemma_count_pos_nonzero(bb, 0);
}

proof fn lemma_count_pos_nonzero(bb: u64, lo: usize)
    requires
        count_from(bb, lo) > 0,
    ensures
        bb != 0,
    decreases 64 - lo,
{
    if lo < 64 {
        if spec_get_bit(bb, lo) {
            assert(bb != 0) by {
                let sh = lo as u64;
                assert((0u64 >> sh) & 1u64 != 1u64) by (bit_vector);
            }
        } else {
            lemma_count_pos_nonzero(bb, (lo + 1) as usize);
        }
    }
}

proof fn lemma_count_from_bound(bb: u64, lo: usize)
    ensures
        lo <= 64 ==> count_from(bb, lo) <= 64 - lo,
        count_from(bb, lo) <= 64,
    decreases 64 - lo,
{
    if lo < 64 {
        lemma_count_from_bound(bb, (lo + 1) as usize);
    }
}

proof fn lemma_lowest_from_bound(bb: u64, lo: usize)
    ensures
        lowest_from(bb, lo) >= lo || lowest_from(bb, lo) == 64,
        lowest_from(bb, lo) <= 64,
        lowest_from(bb, lo) < 64 ==> spec_get_bit(bb, lowest_from(bb, lo)),
    decreases 64 - lo,
{
    if lo < 64 && !spec_get_bit(bb, lo) {
        lemma_lowest_from_bound(bb, (lo + 1) as usize);
    }
}

} // verus!
