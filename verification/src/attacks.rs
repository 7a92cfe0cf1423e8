//! Attack patterns on an empty board, one mask per square and piece kind.
//! File masking keeps a pattern from wrapping around the board edge.
//! Sliding patterns (bishop, rook) are full rays; blockers are not
//! considered, matching the single-lookup tables the evaluation uses.

use vstd::prelude::*;

use crate::defs::FILE_A;
use crate::defs::FILE_B;
use crate::defs::FILE_G;
use crate::defs::FILE_H;

verus! {

pub open spec fn spec_pawn_attacks(white: bool, sq: usize) -> u64 {
    let bb = 1u64 << (sq as u64);
    if white {
        ((bb << 7) & !FILE_H) | ((bb << 9) & !FILE_A)
    } else {
        ((bb >> 7) & !FILE_A) | ((bb >> 9) & !FILE_H)
    }
}

/// Squares attacked by a pawn of the given colour standing on `sq`.
pub fn pawn_attacks(white: bool, sq: usize) -> (r: u64)
    requires
        sq < 64,
    ensures
        r == spec_pawn_attacks(white, sq),
{
    let bb = 1u64 << (sq as u64);
    if white {
        ((bb << 7) & !FILE_H) | ((bb << 9) & !FILE_A)
    } else {
        ((bb >> 7) & !FILE_A) | ((bb >> 9) & !FILE_H)
    }
}

pub open spec fn spec_knight_attacks(sq: usize) -> u64 {
    let bb = 1u64 << (sq as u64);
    ((bb << 17) & !FILE_A) | ((bb << 15) & !FILE_H) | ((bb << 10) & !(FILE_A | FILE_B)) | ((bb << 6)
        & !(FILE_G | FILE_H)) | ((bb >> 6) & !(FILE_A | FILE_B)) | ((bb >> 10) & !(FILE_G | FILE_H))
        | ((bb >> 15) & !FILE_A) | ((bb >> 17) & !FILE_H)
}

/// Squares attacked by a knight standing on `sq`.
pub fn knight_attacks(sq: usize) -> (r: u64)
    requires
        sq < 64,
    ensures
        r == spec_knight_attacks(sq),
{
    let bb = 1u64 << (sq as u64);
    ((bb << 17) & !FILE_A) | ((bb << 15) & !FILE_H) | ((bb << 10) & !(FILE_A | FILE_B)) | ((bb << 6)
        & !(FILE_G | FILE_H)) | ((bb >> 6) & !(FILE_A | FILE_B)) | ((bb >> 10) & !(FILE_G | FILE_H))
        | ((bb >> 15) & !FILE_A) | ((bb >> 17) & !FILE_H)
}

pub open spec fn spec_king_attacks(sq: usize) -> u64 {
    let bb = 1u64 << (sq as u64);
    ((bb << 8) | (bb >> 8)) | ((bb << 1) & !FILE_A) | ((bb >> 1) & !FILE_H) | ((bb << 7) & !FILE_H)
        | ((bb << 9) & !FILE_A) | ((bb >> 7) & !FILE_A) | ((bb >> 9) & !FILE_H)
}

/// Squares adjacent to `sq`: the king's attack pattern.
pub fn king_attacks(sq: usize) -> (r: u64)
    requires
        sq < 64,
    ensures
        r == spec_king_attacks(sq),
{
    let bb = 1u64 << (sq as u64);
    ((bb << 8) | (bb >> 8)) | ((bb << 1) & !FILE_A) | ((bb >> 1) & !FILE_H) | ((bb << 7) & !FILE_H)
        | ((bb << 9) & !FILE_A) | ((bb >> 7) & !FILE_A) | ((bb >> 9) & !FILE_H)
}

/// The king-safety zone around `sq` is the king's own attack pattern.
pub fn king_safety_mask(sq: usize) -> (r: u64)
    requires
        sq < 64,
    ensures
        r == spec_king_attacks(sq),
{
    king_attacks(sq)
}

/// File masking keeps the pawn pattern on the board: an a-file pawn
/// reaches nothing on the h-file and an h-file pawn nothing on the
/// a-file, for either colour.
pub proof fn lemma_pawn_attacks_no_wrap(sq: usize)
    requires
        sq < 64,
    ensures
        sq % 8 == 0 ==> spec_pawn_attacks(true, sq) & FILE_H == 0 && spec_pawn_attacks(false, sq)
            & FILE_H == 0,
        sq % 8 == 7 ==> spec_pawn_attacks(true, sq) & FILE_A == 0 && spec_pawn_attacks(false, sq)
            & FILE_A == 0,
{
    assert(sq % 8 == 0 ==> spec_pawn_attacks(true, sq) & FILE_H == 0) by (bit_vector)
        requires
            sq < 64,
    ;
    assert(sq % 8 == 0 ==> spec_pawn_attacks(false, sq) & FILE_H == 0) by (bit_vector)
        requires
            sq < 64,
    ;
    assert(sq % 8 == 7 ==> spec_pawn_attacks(true, sq) & FILE_A == 0) by (bit_vector)
        requires
            sq < 64,
    ;
    assert(sq % 8 == 7 ==> spec_pawn_attacks(false, sq) & FILE_A == 0) by (bit_vector)
        requires
            sq < 64,
    ;
}

/// File masking keeps the knight pattern on the board: a knight on the
/// a-file reaches nothing on the g- or h-files, and one on the h-file
/// nothing on the a- or b-files.
pub proof fn lemma_knight_attacks_no_wrap(sq: usize)
    requires
        sq < 64,
    ensures
        sq % 8 == 0 ==> spec_knight_attacks(sq) & (FILE_G | FILE_H) == 0,
        sq % 8 == 7 ==> spec_knight_attacks(sq) & (FILE_A | FILE_B) == 0,
{
    assert(sq % 8 == 0 ==> spec_knight_attacks(sq) & (FILE_G | FILE_H) == 0) by (bit_vector)
        requires
            sq < 64,
    ;
    assert(sq % 8 == 7 ==> spec_knight_attacks(sq) & (FILE_A | FILE_B) == 0) by (bit_vector)
        requires
            sq < 64,
    ;
}

/// One step of the four diagonal rays at distance `i` from `sq`.
pub open spec fn bishop_step(sq: usize, i: usize) -> u64 {
    let rank = sq / 8;
    let file = sq % 8;
    (if rank + i < 8 && file + i < 8 {
        1u64 << ((sq + i * 9) as u64)
    } else {
        0u64
    }) | (if rank + i < 8 && file >= i {
        1u64 << ((sq + i * 7) as u64)
    } else {
        0u64
    }) | (if rank >= i && file + i < 8 {
        1u64 << ((sq - i * 7) as u64)
    } else {
        0u64
    }) | (if rank >= i && file >= i {
        1u64 << ((sq - i * 9) as u64)
    } else {
        0u64
    })
}

pub open spec fn bishop_rays_from(sq: usize, i: usize) -> u64
    decreases 8 - i,
{
    if i >= 8 {
        0u64
    } else {
        bishop_step(sq, i) | bishop_rays_from(sq, (i + 1) as usize)
    }
}

pub open spec fn spec_bishop_attacks(sq: usize) -> u64 {
    bishop_rays_from(sq, 1)
}

/// One step of the four straight rays at distance `i` from `sq`.
pub open spec fn rook_step(sq: usize, i: usize) -> u64 {
    let rank = sq / 8;
    let file = sq % 8;
    (if file + i < 8 {
        1u64 << ((sq + i) as u64)
    } else {
        0u64
    }) | (if file >= i {
        1u64 << ((sq - i) as u64)
    } else {
        0u64
    }) | (if rank + i < 8 {
        1u64 << ((sq + i * 8) as u64)
    } else {
        0u64
    }) | (if rank >= i {
        1u64 << ((sq - i * 8) as u64)
    } else {
        0u64
    })
}

pub open spec fn rook_rays_from(sq: usize, i: usize) -> u64
    decreases 8 - i,
{
    if i >= 8 {
        0u64
    } else {
        rook_step(sq, i) | rook_rays_from(sq, (i + 1) as usize)
    }
}

pub open spec fn spec_rook_attacks(sq: usize) -> u64 {
    rook_rays_from(sq, 1)
}

pub open spec fn spec_queen_attacks(sq: usize) -> u64 {
    spec_bishop_attacks(sq) | spec_rook_attacks(sq)
}

proof fn lemma_or_zero(x: u64)
    by (bit_vector)
    ensures
        x | 0u64 == x,
        0u64 | x == x,
{
}

proof fn lemma_or_assoc(x: u64, y: u64, z: u64)
    by (bit_vector)
    ensures
        (x | y) | z == x | (y | z),
{
}

/// Diagonal rays from `sq` in all four directions to the board edge.
pub fn bishop_attacks(sq: usize) -> (r: u64)
    requires
        sq < 64,
    ensures
        r == spec_bishop_attacks(sq),
{
    let rank = sq / 8;
    let file = sq % 8;
    let mut bb: u64 = 0;
    let mut i: usize = 1;
    proof {
        lemma_or_zero(bishop_rays_from(sq, 1));
    }
    while i < 8
        invariant
            1 <= i <= 8,
            sq < 64,
            rank == sq / 8,
            file == sq % 8,
            bb | bishop_rays_from(sq, i) == spec_bishop_attacks(sq),
        decreases 8 - i,
    {
        let a: u64 = if rank + i < 8 && file + i < 8 {
            1u64 << ((sq + i * 9) as u64)
        } else {
            0u64
        };
        let b: u64 = if rank + i < 8 && file >= i {
            1u64 << ((sq + i * 7) as u64)
        } else {
            0u64
        };
        let c: u64 = if rank >= i && file + i < 8 {
            1u64 << ((sq - i * 7) as u64)
        } else {
            0u64
        };
        let d: u64 = if rank >= i && file >= i {
            1u64 << ((sq - i * 9) as u64)
        } else {
            0u64
        };
        let step: u64 = a | b | c | d;
        proof {
            assert(step == bishop_step(sq, i));
            lemma_or_assoc(bb, step, bishop_rays_from(sq, (i + 1) as usize));
        }
        bb = bb | step;
        i = i + 1;
    }
    proof {
        lemma_or_zero(bb);
    }
    bb
}

/// Straight rays from `sq` in all four directions to the board edge.
pub fn rook_attacks(sq: usize) -> (r: u64)
    requires
        sq < 64,
    ensures
        r == spec_rook_attacks(sq),
{
    let rank = sq / 8;
    let file = sq % 8;
    let mut bb: u64 = 0;
    let mut i: usize = 1;
    proof {
        lemma_or_zero(rook_rays_from(sq, 1));
    }
    while i < 8
        invariant
            1 <= i <= 8,
            sq < 64,
            rank == sq / 8,
            file == sq % 8,
            bb | rook_rays_from(sq, i) == spec_rook_attacks(sq),
        decreases 8 - i,
    {
        let a: u64 = if file + i < 8 {
            1u64 << ((sq + i) as u64)
        } else {
            0u64
        };
        let b: u64 = if file >= i {
            1u64 << ((sq - i) as u64)
        } else {
            0u64
        };
        let c: u64 = if rank + i < 8 {
            1u64 << ((sq + i * 8) as u64)
        } else {
            0u64
        };
        let d: u64 = if rank >= i {
            1u64 << ((sq - i * 8) as u64)
        } else {
            0u64
        };
        let step: u64 = a | b | c | d;
        proof {
            assert(step == rook_step(sq, i));
            lemma_or_assoc(bb, step, rook_rays_from(sq, (i + 1) as usize));
        }
        bb = bb | step;
        i = i + 1;
    }
    proof {
        lemma_or_zero(bb);
    }
    bb
}

/// Queen attacks are the union of bishop and rook attacks.
pub fn queen_attacks(sq: usize) -> (r: u64)
    requires
        sq < 64,
    ensures
        r == spec_queen_attacks(sq),
{
    bishop_attacks(sq) | rook_attacks(sq)
}

} // verus!
