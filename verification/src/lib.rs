//! Decision-making core of a chess engine: a hand-tuned evaluation,
//! depth-limited alpha-beta search with move ordering, and a time manager
//! that turns clock state into a per-move budget.  Board bookkeeping
//! (legality, move application, FEN parsing) is delegated to the `chess`
//! crate behind a small trusted interface; everything that decides or
//! computes is verified.

pub mod bitboard;
pub mod defs;
pub mod tables;
pub mod attacks;
pub mod eval;
pub mod interop;
pub mod strutil;
pub mod movegen;
pub mod movepick;
pub mod minimax;
pub mod time_control;
pub mod uci;
