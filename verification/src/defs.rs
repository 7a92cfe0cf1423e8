//! Core definitions: the plain-value board model, game phases, piece kinds,
//! and the phase-dependent piece values.
//!
//! All scores are integers in centipawns (1 pawn = 100), so every tuned
//! constant is exact.

use vstd::prelude::*;

use crate::bitboard::spec_popcount;
use crate::bitboard::popcount;

verus! {

/// Standard starting position.
pub const FEN_START: &'static str = "rnbqkbnr/pppppppp/8/8/8/8/PPPPPPPP/RNBQKBNR w KQkq - 0 1";

pub const PIECE_TYPES: usize = 6;

pub const SQUARES: usize = 64;

// Bitboards for files and ranks.
pub const FILE_A: u64 = 0x0101010101010101;

pub const FILE_B: u64 = 0x0202020202020202;

pub const FILE_G: u64 = 0x4040404040404040;

pub const FILE_H: u64 = 0x8080808080808080;

pub const RANK_2: u64 = 0x000000000000FF00;

pub const RANK_7: u64 = 0x00FF000000000000;

/// Half-move count up to which the game counts as the opening.
pub const OPENING_MOVES: u32 = 20;

// Piece values for different game phases, in centipawns.
pub const QUEEN_VALUE_NORMAL: i64 = 950;

pub const QUEEN_VALUE_THRESHOLD_ADVANTAGE: i64 = 940;

pub const QUEEN_VALUE_SECOND_QUEEN: i64 = 870;

pub const FIRST_ROOK_OPENING: i64 = 563;

pub const FIRST_ROOK_MIDDLEGAME: i64 = 573;

pub const FIRST_ROOK_THRESHOLD: i64 = 573;

pub const FIRST_ROOK_ENDGAME: i64 = 613;

pub const SECOND_ROOK_OPENING: i64 = 563;

pub const SECOND_ROOK_MIDDLEGAME: i64 = 553;

pub const SECOND_ROOK_THRESHOLD: i64 = 593;

pub const SECOND_ROOK_ENDGAME: i64 = 603;

pub const BISHOP_VALUE: i64 = 333;

pub const BISHOP_PAIR_MIDDLEGAME: i64 = 30;

pub const BISHOP_PAIR_THRESHOLD: i64 = 40;

pub const BISHOP_PAIR_ENDGAME: i64 = 50;

pub const KNIGHT_VALUE_OPENING: i64 = 325;

pub const KNIGHT_VALUE_MIDDLEGAME: i64 = 320;

pub const KNIGHT_VALUE_THRESHOLD: i64 = 320;

pub const KNIGHT_VALUE_ENDGAME: i64 = 320;

pub const PAWN_VALUE_OPENING: i64 = 100;

pub const PAWN_VALUE_MIDDLEGAME: i64 = 80;

pub const PAWN_VALUE_THRESHOLD: i64 = 90;

pub const PAWN_VALUE_ENDGAME: i64 = 100;

// Checkmate pattern bonuses.
pub const BACK_RANK_MATE_BONUS: i64 = 500;

pub const SMOTHERED_MATE_BONUS: i64 = 400;

/// Game phases.
#[derive(Clone, Copy, PartialEq, Eq, Structural, Debug)]
pub enum GamePhase {
    Opening,
    Middlegame,
    Threshold,
    Endgame,
}

/// The six piece kinds.
#[derive(Clone, Copy, PartialEq, Eq, Structural, Debug)]
pub enum PieceKind {
    Pawn,
    Knight,
    Bishop,
    Rook,
    Queen,
    King,
}

/// Everything the evaluation and ordering logic reads of a board position,
/// as plain values: one occupancy mask per piece kind, one per colour, the
/// side to move and whether that side is in check.
#[derive(Clone, Copy, PartialEq, Eq, Structural, Debug)]
pub struct BoardView {
    pub pawns: u64,
    pub knights: u64,
    pub bishops: u64,
    pub rooks: u64,
    pub queens: u64,
    pub kings: u64,
    pub white: u64,
    pub black: u64,
    pub white_to_move: bool,
    pub in_check: bool,
}

impl BoardView {
    /// Occupancy mask of one piece kind, both colours combined.
    pub open spec fn spec_pieces(&self, kind: PieceKind) -> u64 {
        match kind {
            PieceKind::Pawn => self.pawns,
            PieceKind::Knight => self.knights,
            PieceKind::Bishop => self.bishops,
            PieceKind::Rook => self.rooks,
            PieceKind::Queen => self.queens,
            PieceKind::King => self.kings,
        }
    }

    /// Occupancy mask of one colour, all piece kinds combined.
    pub open spec fn spec_color(&self, white: bool) -> u64 {
        if white {
            self.white
        } else {
            self.black
        }
    }

    pub fn pieces(&self, kind: PieceKind) -> (r: u64)
        ensures
            r == self.spec_pieces(kind),
    {
        match kind {
            PieceKind::Pawn => self.pawns,
            PieceKind::Knight => self.knights,
            PieceKind::Bishop => self.bishops,
            PieceKind::Rook => self.rooks,
            PieceKind::Queen => self.queens,
            PieceKind::King => self.kings,
        }
    }

    pub fn color_combined(&self, white: bool) -> (r: u64)
        ensures
            r == self.spec_color(white),
    {
        if white {
            self.white
        } else {
            self.black
        }
    }
}

/// Exactly two queens stand on the board, as at the start of a game.
pub open spec fn spec_is_original_position(v: BoardView) -> bool {
    spec_popcount(v.queens & (v.white | v.black)) == 2
}

/// Whether both initial queens are still on the board.
pub fn is_original_position(v: &BoardView) -> (r: bool)
    ensures
        r == spec_is_original_position(*v),
{
    let queens = v.queens & (v.white | v.black);
    popcount(queens) == 2
}

/// Phase classification: the first `OPENING_MOVES` half-moves are the
/// opening regardless of material; afterwards the queen counts decide —
/// Threshold when exactly one side retains a queen, Endgame when neither
/// side has one, Middlegame otherwise.
pub open spec fn spec_detect_game_phase(v: BoardView, move_count: u32) -> GamePhase {
    if move_count <= OPENING_MOVES {
        GamePhase::Opening
    } else {
        let white_queens = spec_popcount(v.queens & v.white);
        let black_queens = spec_popcount(v.queens & v.black);
        if (white_queens >= 1 && black_queens == 0) || (white_queens == 0 && black_queens >= 1) {
            GamePhase::Threshold
        } else if white_queens == 0 && black_queens == 0 {
            GamePhase::Endgame
        } else {
            GamePhase::Middlegame
        }
    }
}

pub fn detect_game_phase(v: &BoardView, move_count: u32) -> (r: GamePhase)
    ensures
        r == spec_detect_game_phase(*v, move_count),
{
    if move_count <= OPENING_MOVES {
        return GamePhase::Opening;
    }
    let white_queens = popcount(v.queens & v.white);
    let black_queens = popcount(v.queens & v.black);
    if (white_queens >= 1 && black_queens == 0) || (white_queens == 0 && black_queens >= 1) {
        GamePhase::Threshold
    } else if white_queens == 0 && black_queens == 0 {
        GamePhase::Endgame
    } else {
        GamePhase::Middlegame
    }
}

pub open spec fn spec_pawn_value(phase: GamePhase) -> i64 {
    match phase {
        GamePhase::Opening => PAWN_VALUE_OPENING,
        GamePhase::Middlegame => PAWN_VALUE_MIDDLEGAME,
        GamePhase::Threshold => PAWN_VALUE_THRESHOLD,
        GamePhase::Endgame => PAWN_VALUE_ENDGAME,
    }
}

pub fn get_pawn_value(phase: &GamePhase) -> (r: i64)
    ensures
        r == spec_pawn_value(*phase),
{
    match phase {
        GamePhase::Opening => PAWN_VALUE_OPENING,
        GamePhase::Middlegame => PAWN_VALUE_MIDDLEGAME,
        GamePhase::Threshold => PAWN_VALUE_THRESHOLD,
        GamePhase::Endgame => PAWN_VALUE_ENDGAME,
    }
}

pub open spec fn spec_knight_value(phase: GamePhase) -> i64 {
    match phase {
        GamePhase::Opening => KNIGHT_VALUE_OPENING,
        GamePhase::Middlegame => KNIGHT_VALUE_MIDDLEGAME,
        GamePhase::Threshold => KNIGHT_VALUE_THRESHOLD,
        GamePhase::Endgame => KNIGHT_VALUE_ENDGAME,
    }
}

pub fn get_knight_value(phase: &GamePhase) -> (r: i64)
    ensures
        r == spec_knight_value(*phase),
{
    match phase {
        GamePhase::Opening => KNIGHT_VALUE_OPENING,
        GamePhase::Middlegame => KNIGHT_VALUE_MIDDLEGAME,
        GamePhase::Threshold => KNIGHT_VALUE_THRESHOLD,
        GamePhase::Endgame => KNIGHT_VALUE_ENDGAME,
    }
}

pub open spec fn spec_bishop_pair_bonus(phase: GamePhase) -> i64 {
    match phase {
        GamePhase::Opening => 0,
        GamePhase::Middlegame => BISHOP_PAIR_MIDDLEGAME,
        GamePhase::Threshold => BISHOP_PAIR_THRESHOLD,
        GamePhase::Endgame => BISHOP_PAIR_ENDGAME,
    }
}

pub fn get_bishop_pair_bonus(phase: &GamePhase) -> (r: i64)
    ensures
        r == spec_bishop_pair_bonus(*phase),
{
    match phase {
        GamePhase::Opening => 0,
        GamePhase::Middlegame => BISHOP_PAIR_MIDDLEGAME,
        GamePhase::Threshold => BISHOP_PAIR_THRESHOLD,
        GamePhase::Endgame => BISHOP_PAIR_ENDGAME,
    }
}

pub open spec fn spec_rook_value(phase: GamePhase, is_first_rook: bool) -> i64 {
    match (phase, is_first_rook) {
        (GamePhase::Opening, true) => FIRST_ROOK_OPENING,
        (GamePhase::Middlegame, true) => FIRST_ROOK_MIDDLEGAME,
        (GamePhase::Threshold, true) => FIRST_ROOK_THRESHOLD,
        (GamePhase::Endgame, true) => FIRST_ROOK_ENDGAME,
        (GamePhase::Opening, false) => SECOND_ROOK_OPENING,
        (GamePhase::Middlegame, false) => SECOND_ROOK_MIDDLEGAME,
        (GamePhase::Threshold, false) => SECOND_ROOK_THRESHOLD,
        (GamePhase::Endgame, false) => SECOND_ROOK_ENDGAME,
    }
}

pub fn get_rook_value(phase: &GamePhase, is_first_rook: bool) -> (r: i64)
    ensures
        r == spec_rook_value(*phase, is_first_rook),
{
    match (phase, is_first_rook) {
        (GamePhase::Opening, true) => FIRST_ROOK_OPENING,
        (GamePhase::Middlegame, true) => FIRST_ROOK_MIDDLEGAME,
        (GamePhase::Threshold, true) => FIRST_ROOK_THRESHOLD,
        (GamePhase::Endgame, true) => FIRST_ROOK_ENDGAME,
        (GamePhase::Opening, false) => SECOND_ROOK_OPENING,
        (GamePhase::Middlegame, false) => SECOND_ROOK_MIDDLEGAME,
        (GamePhase::Threshold, false) => SECOND_ROOK_THRESHOLD,
        (GamePhase::Endgame, false) => SECOND_ROOK_ENDGAME,
    }
}

/// Mirror a square index between ranks, for Black's view of the
/// piece-square tables.
pub fn flip_vertical(sq: usize) -> (r: usize)
    ensures
        r == sq ^ 56,
        sq < 64 ==> r < 64,
{
    proof {
        assert(sq < 64 ==> (sq ^ 56) < 64) by (bit_vector);
    }
    sq ^ 56
}

} // verus!
