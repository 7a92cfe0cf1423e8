//! The time manager: turns externally supplied clock state into a
//! millisecond budget for the current move.

use vstd::prelude::*;

use crate::movegen::Position;
use crate::movepick::iterative_deepening;
use crate::movepick::DEFAULT_MAX_DEPTH;
use crate::uci::StopToken;

verus! {

/// Milliseconds held back from the clock before allocating.
pub const SAFEGUARD: i128 = 100;

/// Assumed number of moves still to play when the protocol names none.
pub const GAME_LENGTH: u32 = 30;

pub const NO_TIME: u128 = 0;

/// Externally supplied clock state: remaining time and increment per
/// side in milliseconds, and an optional moves-to-go count.  Read-only
/// input to the allocation.
pub struct GameTime {
    pub wtime: i128,
    pub btime: i128,
    pub winc: i128,
    pub binc: i128,
    pub movestogo: Option<u32>,
}

/// `a / b` rounded to the nearest integer, halves up, for positive `b`.
pub open spec fn spec_round_div(a: int, b: int) -> int {
    (2 * a + b) / (2 * b)
}

/// The millisecond budget for the side's move: four fifths of the
/// remaining clock less the safeguard, spread over the moves to go, and
/// rounded to the nearest millisecond.  A side whose clock cannot cover
/// the safeguard gets four fifths of its increment, or nothing without
/// one.  A moves-to-go of zero exhausts the budget type, as dividing by
/// it would.
pub open spec fn spec_calculate_time(gt: GameTime, white: bool) -> int {
    let mtg: int = if gt.movestogo is Some {
        gt.movestogo->0 as int
    } else {
        GAME_LENGTH as int
    };
    let clock: int = if white {
        gt.wtime as int
    } else {
        gt.btime as int
    };
    let increment: int = if white {
        gt.winc as int
    } else {
        gt.binc as int
    };
    let base_time = clock - SAFEGUARD;
    if base_time <= 0 {
        if increment > 0 {
            spec_round_div(4 * increment, 5)
        } else {
            NO_TIME as int
        }
    } else {
        if mtg == 0 {
            u128::MAX as int
        } else {
            spec_round_div(4 * base_time, 5 * mtg)
        }
    }
}

impl GameTime {
    /// Calculate the time the engine may spend searching a single move.
    pub fn calculate_time(&self, white: bool) -> (r: u128)
        ensures
            r == spec_calculate_time(*self, white),
    {
        let mtg: u32 = match self.movestogo {
            Some(m) => m,
            None => GAME_LENGTH,
        };
        let clock: i128 = if white {
            self.wtime
        } else {
            self.btime
        };
        let increment: i128 = if white {
            self.winc
        } else {
            self.binc
        };

        if clock <= SAFEGUARD {
            if increment > 0 {
                round_four_fifths_over(increment, 1)
            } else {
                NO_TIME
            }
        } else {
            let base_time = clock - SAFEGUARD;
            if mtg == 0 {
                u128::MAX
            } else {
                round_four_fifths_over(base_time, mtg)
            }
        }
    }
}

/// `round(4 * a / (5 * m))` for positive `a` and `m`, computed without
/// overflowing the fixed-width types.
fn round_four_fifths_over(a: i128, m: u32) -> (r: u128)
    requires
        a > 0,
        m > 0,
    ensures
        r == spec_round_div(4 * a, 5 * m),
{
    let d: i128 = 5 * (m as i128);
    let q: i128 = a / d;
    let rr: i128 = a % d;
    let extra: i128 = (8 * rr + d) / (2 * d);
    proof {
        assert(a == d * q + rr && 0 <= rr < d && q >= 0 && 5 * q <= a) by (nonlinear_arith)
            requires
                a > 0,
                d >= 5,
                q == a / d,
                rr == a % d,
        ;
        assert(4 * q + 4 <= a + 4);
        assert(0 <= extra <= 4) by (nonlinear_arith)
            requires
                d > 0,
                0 <= rr < d,
                extra == (8 * rr + d) / (2 * d),
        ;
        assert((2 * (4 * a) + 5 * (m as int)) / (2 * (5 * (m as int))) == 4 * q + (8 * rr + d) / (2
            * d)) by (nonlinear_arith)
            requires
                d == 5 * (m as int),
                d > 0,
                a == d * q + rr,
                0 <= rr < d,
                q >= 0,
        ;
    }
    4 * (q as u128) + (extra as u128)
}

/// Search with the allocated time slice as the wall-clock budget; the
/// budget is observed at depth boundaries, and depth one is always
/// completed.
pub fn pick_move_timed(position: &mut Position, time_slice: u128, stop: &StopToken) -> (r: Option<
    String,
>)
    ensures
        r is None <==> old(position).moves@.len() == 0,
        r is Some ==> exists|j: int|
            0 <= j < old(position).moves@.len() && (#[trigger] old(position).moves@[j]).text@
                == r->0@,
        *final(position) == *old(position),
{
    iterative_deepening(position, stop, time_slice, DEFAULT_MAX_DEPTH)
}

} // verus!
