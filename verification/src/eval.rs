//! The evaluation engine: a signed centipawn score for a position, from
//! the perspective of the side to move.  It sums, independently for White
//! and Black, a positional term (piece-square tables), a material term
//! with rook- and bishop-specific bonuses, a square-control/exchange term,
//! and two checkmate-pattern bonuses, then subtracts according to the side
//! to move.

use vstd::prelude::*;

use crate::attacks::spec_pawn_attacks;
use crate::attacks::spec_knight_attacks;
use crate::attacks::spec_bishop_attacks;
use crate::attacks::spec_rook_attacks;
use crate::attacks::spec_queen_attacks;
use crate::attacks::spec_king_attacks;
use crate::attacks::pawn_attacks;
use crate::attacks::knight_attacks;
use crate::attacks::bishop_attacks;
use crate::attacks::rook_attacks;
use crate::attacks::queen_attacks;
use crate::attacks::king_safety_mask;
use crate::bitboard::spec_get_bit;
use crate::bitboard::spec_popcount;
use crate::bitboard::spec_lowest_bit;
use crate::bitboard::get_bit;
use crate::bitboard::popcount;
use crate::bitboard::lowest_bit;
use crate::bitboard::lemma_popcount_pos;
use crate::defs::BoardView;
use crate::defs::GamePhase;
use crate::defs::PieceKind;
use crate::defs::BACK_RANK_MATE_BONUS;
use crate::defs::BISHOP_VALUE;
use crate::defs::FILE_A;
use crate::defs::FILE_B;
use crate::defs::FILE_G;
use crate::defs::FILE_H;
use crate::defs::QUEEN_VALUE_NORMAL;
use crate::defs::QUEEN_VALUE_SECOND_QUEEN;
use crate::defs::QUEEN_VALUE_THRESHOLD_ADVANTAGE;
use crate::defs::RANK_2;
use crate::defs::RANK_7;
use crate::defs::SMOTHERED_MATE_BONUS;
use crate::defs::spec_detect_game_phase;
use crate::defs::spec_pawn_value;
use crate::defs::spec_knight_value;
use crate::defs::spec_bishop_pair_bonus;
use crate::defs::spec_rook_value;
use crate::defs::detect_game_phase;
use crate::defs::get_pawn_value;
use crate::defs::get_knight_value;
use crate::defs::get_bishop_pair_bonus;
use crate::defs::get_rook_value;
use crate::tables::spec_piece_square_value;
use crate::tables::get_piece_square_value;

verus! {

/// What the square-control pass records for one square and one colour:
/// how many of the colour's piece kinds attack the square, the value of
/// whatever stands on the square, and the cheapest attacking kind's value
/// (`i64::MAX` when no kind attacks).
pub struct AttackInfo {
    pub attackers: u32,
    pub target_value: i64,
    pub smallest_attacker: i64,
}

/// Rook placement facts that earn positional bonuses.
pub struct RookInfo {
    pub is_first_rook: bool,
    pub is_open_file: bool,
    pub is_semi_open: bool,
    pub controls_seventh: bool,
}

/// One-ply static exchange estimate on a square: the gain of the cheapest
/// capture, and whether any attacker exists at all.
pub struct SeeResult {
    pub gain: i64,
    pub has_attacker: bool,
}

/// Base value of a piece kind for a phase, in centipawns.  The king's
/// value is unbounded and is never part of any sum, so no value is given
/// for it here.
pub open spec fn spec_piece_base_value(piece: PieceKind, phase: GamePhase) -> int {
    match piece {
        PieceKind::Pawn => spec_pawn_value(phase) as int,
        PieceKind::Knight => spec_knight_value(phase) as int,
        PieceKind::Bishop => BISHOP_VALUE as int,
        PieceKind::Rook => spec_rook_value(phase, true) as int,
        PieceKind::Queen => match phase {
            GamePhase::Threshold => QUEEN_VALUE_THRESHOLD_ADVANTAGE as int,
            _ => QUEEN_VALUE_NORMAL as int,
        },
        PieceKind::King => 0,
    }
}

fn get_piece_base_value(piece: PieceKind, phase: &GamePhase) -> (r: i64)
    requires
        piece != PieceKind::King,
    ensures
        r == spec_piece_base_value(piece, *phase),
        80 <= r <= 950,
{
    match piece {
        PieceKind::Pawn => get_pawn_value(phase),
        PieceKind::Knight => get_knight_value(phase),
        PieceKind::Bishop => BISHOP_VALUE,
        PieceKind::Rook => get_rook_value(phase, true),
        PieceKind::Queen => match phase {
            GamePhase::Threshold => QUEEN_VALUE_THRESHOLD_ADVANTAGE,
            _ => QUEEN_VALUE_NORMAL,
        },
        PieceKind::King => 0,
    }
}

/// The square-control passes classify material at the phase for half-move
/// zero, which is always the opening.
pub open spec fn spec_attack_phase(v: BoardView) -> GamePhase {
    spec_detect_game_phase(v, 0)
}

/// The attack pattern a piece kind of a colour projects from `sq`.
pub open spec fn spec_attack_pattern(kind: PieceKind, white: bool, sq: usize) -> u64 {
    match kind {
        PieceKind::Pawn => spec_pawn_attacks(white, sq),
        PieceKind::Knight => spec_knight_attacks(sq),
        PieceKind::Bishop => spec_bishop_attacks(sq),
        PieceKind::Rook => spec_rook_attacks(sq),
        PieceKind::Queen => spec_queen_attacks(sq),
        PieceKind::King => spec_king_attacks(sq),
    }
}

/// Whether any piece of `kind` and colour stands on the attack pattern of
/// that kind around `sq`.
pub open spec fn spec_type_attacks(v: BoardView, sq: usize, white: bool, kind: PieceKind) -> bool {
    (v.spec_pieces(kind) & v.spec_color(white)) & spec_attack_pattern(kind, white, sq) != 0
}

/// How many of the five non-king piece kinds of a colour attack `sq`.
pub open spec fn spec_attacker_types(v: BoardView, sq: usize, white: bool) -> int {
    (if spec_type_attacks(v, sq, white, PieceKind::Pawn) {
        1int
    } else {
        0int
    }) + (if spec_type_attacks(v, sq, white, PieceKind::Knight) {
        1int
    } else {
        0int
    }) + (if spec_type_attacks(v, sq, white, PieceKind::Bishop) {
        1int
    } else {
        0int
    }) + (if spec_type_attacks(v, sq, white, PieceKind::Rook) {
        1int
    } else {
        0int
    }) + (if spec_type_attacks(v, sq, white, PieceKind::Queen) {
        1int
    } else {
        0int
    })
}

pub open spec fn spec_min2(a: int, b: int) -> int {
    if a < b {
        a
    } else {
        b
    }
}

/// Value of the cheapest attacking kind, folded in the fixed kind order,
/// starting from an `i64::MAX` sentinel.
pub open spec fn spec_smallest_attacker(v: BoardView, sq: usize, white: bool) -> int {
    let ph = spec_attack_phase(v);
    let m0 = i64::MAX as int;
    let m1 = if spec_type_attacks(v, sq, white, PieceKind::Pawn) {
        spec_min2(spec_piece_base_value(PieceKind::Pawn, ph), m0)
    } else {
        m0
    };
    let m2 = if spec_type_attacks(v, sq, white, PieceKind::Knight) {
        spec_min2(spec_piece_base_value(PieceKind::Knight, ph), m1)
    } else {
        m1
    };
    let m3 = if spec_type_attacks(v, sq, white, PieceKind::Bishop) {
        spec_min2(spec_piece_base_value(PieceKind::Bishop, ph), m2)
    } else {
        m2
    };
    let m4 = if spec_type_attacks(v, sq, white, PieceKind::Rook) {
        spec_min2(spec_piece_base_value(PieceKind::Rook, ph), m3)
    } else {
        m3
    };
    if spec_type_attacks(v, sq, white, PieceKind::Queen) {
        spec_min2(spec_piece_base_value(PieceKind::Queen, ph), m4)
    } else {
        m4
    }
}

/// Value of whatever stands on `sq`: the first kind, checked from queen
/// down to pawn, whose mask holds the square; zero for an empty square.
pub open spec fn spec_piece_value_on_square(v: BoardView, sq: usize) -> int {
    let ph = spec_attack_phase(v);
    if v.queens & (1u64 << (sq as u64)) != 0 {
        spec_piece_base_value(PieceKind::Queen, ph)
    } else if v.rooks & (1u64 << (sq as u64)) != 0 {
        spec_piece_base_value(PieceKind::Rook, ph)
    } else if v.bishops & (1u64 << (sq as u64)) != 0 {
        spec_piece_base_value(PieceKind::Bishop, ph)
    } else if v.knights & (1u64 << (sq as u64)) != 0 {
        spec_piece_base_value(PieceKind::Knight, ph)
    } else if v.pawns & (1u64 << (sq as u64)) != 0 {
        spec_piece_base_value(PieceKind::Pawn, ph)
    } else {
        0
    }
}

/// Exchange gain of the first attacking kind in the fixed kind order, or
/// zero when nothing attacks the square.
pub open spec fn spec_see_gain(v: BoardView, sq: usize, white: bool) -> int {
    let ph = spec_attack_phase(v);
    let target = spec_piece_value_on_square(v, sq);
    if spec_type_attacks(v, sq, white, PieceKind::Pawn) {
        target - spec_piece_base_value(PieceKind::Pawn, ph)
    } else if spec_type_attacks(v, sq, white, PieceKind::Knight) {
        target - spec_piece_base_value(PieceKind::Knight, ph)
    } else if spec_type_attacks(v, sq, white, PieceKind::Bishop) {
        target - spec_piece_base_value(PieceKind::Bishop, ph)
    } else if spec_type_attacks(v, sq, white, PieceKind::Rook) {
        target - spec_piece_base_value(PieceKind::Rook, ph)
    } else if spec_type_attacks(v, sq, white, PieceKind::Queen) {
        target - spec_piece_base_value(PieceKind::Queen, ph)
    } else {
        0
    }
}

/// Full square-control/exchange term for one square and one colour.
pub open spec fn spec_evaluate_attacks(v: BoardView, sq: usize, white: bool) -> int {
    let acount = spec_attacker_types(v, sq, white);
    if acount == 0 {
        0
    } else {
        let target = spec_piece_value_on_square(v, sq);
        let attack_value = target - spec_smallest_attacker(v, sq, white);
        let attacker_bonus: int = if acount == 2 {
            30
        } else if acount == 3 {
            50
        } else if acount >= 4 {
            70
        } else {
            0
        };
        let dcount = spec_attacker_types(v, sq, !white);
        let defense_penalty: int = if dcount > 0 {
            -10 * dcount
        } else {
            0
        };
        let hanging_bonus: int = if dcount == 0 {
            30
        } else {
            0
        };
        let gain = spec_see_gain(v, sq, white);
        let see_bonus: int = if gain > 0 {
            20
        } else {
            0
        };
        attack_value + attacker_bonus + defense_penalty + hanging_bonus + gain + see_bonus
    }
}

fn evaluate_square_control(v: &BoardView, square: usize, white: bool) -> (info: AttackInfo)
    requires
        square < 64,
    ensures
        info.attackers == spec_attacker_types(*v, square, white),
        info.target_value == spec_piece_value_on_square(*v, square),
        info.smallest_attacker == spec_smallest_attacker(*v, square, white),
        0 <= info.target_value <= 950,
        info.attackers > 0 ==> 80 <= info.smallest_attacker <= 950,
        info.attackers <= 5,
{
    let phase = detect_game_phase(v, 0);
    let color_bb = v.color_combined(white);
    let mut attackers: u32 = 0;
    let mut smallest: i64 = i64::MAX;

    if (v.pawns & color_bb) & pawn_attacks(white, square) != 0 {
        let val = get_piece_base_value(PieceKind::Pawn, &phase);
        attackers = attackers + 1;
        if val < smallest {
            smallest = val;
        }
    }
    if (v.knights & color_bb) & knight_attacks(square) != 0 {
        let val = get_piece_base_value(PieceKind::Knight, &phase);
        attackers = attackers + 1;
        if val < smallest {
            smallest = val;
        }
    }
    if (v.bishops & color_bb) & bishop_attacks(square) != 0 {
        let val = get_piece_base_value(PieceKind::Bishop, &phase);
        attackers = attackers + 1;
        if val < smallest {
            smallest = val;
        }
    }
    if (v.rooks & color_bb) & rook_attacks(square) != 0 {
        let val = get_piece_base_value(PieceKind::Rook, &phase);
        attackers = attackers + 1;
        if val < smallest {
            smallest = val;
        }
    }
    if (v.queens & color_bb) & queen_attacks(square) != 0 {
        let val = get_piece_base_value(PieceKind::Queen, &phase);
        attackers = attackers + 1;
        if val < smallest {
            smallest = val;
        }
    }

    AttackInfo { attackers, target_value: get_piece_value_on_square(v, square), smallest_attacker: smallest }
}

fn get_piece_value_on_square(v: &BoardView, square: usize) -> (r: i64)
    requires
        square < 64,
    ensures
        r == spec_piece_value_on_square(*v, square),
        0 <= r <= 950,
{
    let phase = detect_game_phase(v, 0);
    let sq_bb = 1u64 << (square as u64);
    if v.queens & sq_bb != 0 {
        get_piece_base_value(PieceKind::Queen, &phase)
    } else if v.rooks & sq_bb != 0 {
        get_piece_base_value(PieceKind::Rook, &phase)
    } else if v.bishops & sq_bb != 0 {
        get_piece_base_value(PieceKind::Bishop, &phase)
    } else if v.knights & sq_bb != 0 {
        get_piece_base_value(PieceKind::Knight, &phase)
    } else if v.pawns & sq_bb != 0 {
        get_piece_base_value(PieceKind::Pawn, &phase)
    } else {
        0
    }
}

fn static_exchange_evaluation(v: &BoardView, square: usize, white: bool) -> (r: SeeResult)
    requires
        square < 64,
    ensures
        r.gain == spec_see_gain(*v, square, white),
        r.has_attacker == (spec_attacker_types(*v, square, white) > 0),
        -950 <= r.gain <= 950,
{
    let phase = detect_game_phase(v, 0);
    let target_value = get_piece_value_on_square(v, square);
    let color_bb = v.color_combined(white);

    if (v.pawns & color_bb) & pawn_attacks(white, square) != 0 {
        SeeResult { gain: target_value - get_piece_base_value(PieceKind::Pawn, &phase), has_attacker: true }
    } else if (v.knights & color_bb) & knight_attacks(square) != 0 {
        SeeResult { gain: target_value - get_piece_base_value(PieceKind::Knight, &phase), has_attacker: true }
    } else if (v.bishops & color_bb) & bishop_attacks(square) != 0 {
        SeeResult { gain: target_value - get_piece_base_value(PieceKind::Bishop, &phase), has_attacker: true }
    } else if (v.rooks & color_bb) & rook_attacks(square) != 0 {
        SeeResult { gain: target_value - get_piece_base_value(PieceKind::Rook, &phase), has_attacker: true }
    } else if (v.queens & color_bb) & queen_attacks(square) != 0 {
        SeeResult { gain: target_value - get_piece_base_value(PieceKind::Queen, &phase), has_attacker: true }
    } else {
        SeeResult { gain: 0, has_attacker: false }
    }
}

fn evaluate_attacks(v: &BoardView, square: usize, white: bool) -> (r: i64)
    requires
        square < 64,
    ensures
        r == spec_evaluate_attacks(*v, square, white),
        -3000 <= r <= 3000,
{
    let attack_info = evaluate_square_control(v, square, white);
    let defense_info = evaluate_square_control(v, square, !white);

    if attack_info.attackers == 0 {
        return 0;
    }

    let attack_value = attack_info.target_value - attack_info.smallest_attacker;

    let attacker_bonus: i64 = if attack_info.attackers == 2 {
        30
    } else if attack_info.attackers == 3 {
        50
    } else if attack_info.attackers >= 4 {
        70
    } else {
        0
    };

    let defense_penalty: i64 = if defense_info.attackers > 0 {
        -10 * (defense_info.attackers as i64)
    } else {
        0
    };

    let hanging_bonus: i64 = if defense_info.attackers == 0 {
        30
    } else {
        0
    };

    let mut total_value = attack_value + attacker_bonus + defense_penalty + hanging_bonus;

    let see_result = static_exchange_evaluation(v, square, white);
    total_value = total_value + see_result.gain;

    if see_result.has_attacker && see_result.gain > 0 {
        total_value = total_value + 20;
    }

    total_value
}

/// File mask of the file `sq` stands on.
pub open spec fn spec_file_mask(sq: usize) -> u64 {
    match sq % 8 {
        0 => FILE_A,
        1 => FILE_B,
        6 => FILE_G,
        7 => FILE_H,
        _ => 0x0101010101010101u64 << ((sq % 8) as u64),
    }
}

pub open spec fn spec_rook_open_file(v: BoardView, sq: usize, white: bool) -> bool {
    let own_pawns = v.pawns & v.spec_color(white);
    let enemy_pawns = v.pawns & v.spec_color(!white);
    spec_file_mask(sq) & (own_pawns | enemy_pawns) == 0
}

pub open spec fn spec_rook_semi_open(v: BoardView, sq: usize, white: bool) -> bool {
    let own_pawns = v.pawns & v.spec_color(white);
    spec_file_mask(sq) & own_pawns == 0
}

pub open spec fn spec_rook_seventh(sq: usize, white: bool) -> bool {
    (1u64 << (sq as u64)) & (if white {
        RANK_7
    } else {
        RANK_2
    }) != 0
}

fn analyze_rook_position(v: &BoardView, square: usize, white: bool) -> (info: RookInfo)
    requires
        square < 64,
    ensures
        info.is_first_rook,
        info.is_open_file == spec_rook_open_file(*v, square, white),
        info.is_semi_open == spec_rook_semi_open(*v, square, white),
        info.controls_seventh == spec_rook_seventh(square, white),
{
    let rook_bb = 1u64 << (square as u64);
    let own_pawns = v.pawns & v.color_combined(white);
    let enemy_pawns = v.pawns & v.color_combined(!white);
    let file_mask = match square % 8 {
        0 => FILE_A,
        1 => FILE_B,
        6 => FILE_G,
        7 => FILE_H,
        _ => 0x0101010101010101u64 << ((square % 8) as u64),
    };
    let seventh_rank = if white {
        RANK_7
    } else {
        RANK_2
    };
    RookInfo {
        is_first_rook: true,
        is_open_file: file_mask & (own_pawns | enemy_pawns) == 0,
        is_semi_open: file_mask & own_pawns == 0,
        controls_seventh: rook_bb & seventh_rank != 0,
    }
}

/// Positional bonus a rook earns: open file, else semi-open file, plus
/// control of the seventh (or second) rank.
pub open spec fn spec_rook_position_bonus(v: BoardView, sq: usize, white: bool) -> int {
    (if spec_rook_open_file(v, sq, white) {
        30int
    } else if spec_rook_semi_open(v, sq, white) {
        15int
    } else {
        0int
    }) + (if spec_rook_seventh(sq, white) {
        25int
    } else {
        0int
    })
}

fn get_rook_position_bonus(info: &RookInfo) -> (r: i64)
    ensures
        r == (if info.is_open_file {
            30int
        } else if info.is_semi_open {
            15int
        } else {
            0int
        }) + (if info.controls_seventh {
            25int
        } else {
            0int
        }),
{
    let mut bonus: i64 = 0;
    if info.is_open_file {
        bonus = bonus + 30;
    } else if info.is_semi_open {
        bonus = bonus + 15;
    }
    if info.controls_seventh {
        bonus = bonus + 25;
    }
    bonus
}

/// Queen material for one colour: the normal value for exactly one
/// queen; a second queen adds a fixed increment on top of the threshold
/// value.
pub open spec fn spec_queen_term(v: BoardView, white: bool) -> int {
    let queen_count = spec_popcount(v.queens & v.spec_color(white));
    if queen_count == 1 {
        QUEEN_VALUE_NORMAL as int
    } else if queen_count > 1 {
        QUEEN_VALUE_THRESHOLD_ADVANTAGE + QUEEN_VALUE_SECOND_QUEEN
    } else {
        0
    }
}

/// Rook material for one colour: the first and second rook each get a
/// phase-dependent base value plus a placement bonus, and two rooks on a
/// shared rank or file earn a connected-rook bonus.
pub open spec fn spec_rook_term(v: BoardView, white: bool, phase: GamePhase) -> int {
    let rook_bb = v.rooks & v.spec_color(white);
    let rook_count = spec_popcount(rook_bb);
    if rook_count > 0 && spec_lowest_bit(rook_bb) < 64 {
        let sq1 = spec_lowest_bit(rook_bb);
        let first = spec_rook_value(phase, true) + spec_rook_position_bonus(v, sq1, white);
        let second_bb = rook_bb & ((rook_bb - 1) as u64);
        let rest: int = if rook_count > 1 && spec_lowest_bit(second_bb) < 64 {
            let sq2 = spec_lowest_bit(second_bb);
            spec_rook_value(phase, false) + spec_rook_position_bonus(v, sq2, white) + (
            if spec_rook_attacks(sq1) & second_bb != 0 {
                20int
            } else {
                0int
            })
        } else {
            0
        };
        first + rest
    } else {
        0
    }
}

/// Bishop material for one colour, with the pair bonus from two bishops.
pub open spec fn spec_bishop_term(v: BoardView, white: bool, phase: GamePhase) -> int {
    let bishop_count = spec_popcount(v.bishops & v.spec_color(white));
    bishop_count * (BISHOP_VALUE as int) + (if bishop_count >= 2 {
        spec_bishop_pair_bonus(phase) as int
    } else {
        0int
    })
}

pub open spec fn spec_knight_term(v: BoardView, white: bool, phase: GamePhase) -> int {
    spec_popcount(v.knights & v.spec_color(white)) * spec_knight_value(phase)
}

pub open spec fn spec_pawn_term(v: BoardView, white: bool, phase: GamePhase) -> int {
    spec_popcount(v.pawns & v.spec_color(white)) * spec_pawn_value(phase)
}

/// Material term for one colour: queen count bonuses, per-rook values and
/// placement bonuses with a connected-rook bonus, bishops with the pair
/// bonus, and per-piece knight and pawn values.
pub open spec fn spec_evaluate_material(v: BoardView, white: bool, phase: GamePhase) -> int {
    spec_queen_term(v, white) + spec_rook_term(v, white, phase) + spec_bishop_term(v, white, phase)
        + spec_knight_term(v, white, phase) + spec_pawn_term(v, white, phase)
}

fn queen_term(v: &BoardView, white: bool) -> (r: i64)
    ensures
        r == spec_queen_term(*v, white),
        0 <= r <= 1810,
{
    let queen_count = popcount(v.queens & v.color_combined(white));
    if queen_count == 1 {
        QUEEN_VALUE_NORMAL
    } else if queen_count > 1 {
        QUEEN_VALUE_THRESHOLD_ADVANTAGE + QUEEN_VALUE_SECOND_QUEEN
    } else {
        0
    }
}

fn rook_term(v: &BoardView, white: bool, phase: &GamePhase) -> (r: i64)
    ensures
        r == spec_rook_term(*v, white, *phase),
        0 <= r <= 1500,
{
    let rook_bb = v.rooks & v.color_combined(white);
    let rook_count = popcount(rook_bb);
    let mut rook_term: i64 = 0;
    if rook_count > 0 {
        proof {
            lemma_popcount_pos(rook_bb);
        }
        let sq1 = lowest_bit(rook_bb);
        if sq1 < 64 {
            let info1 = analyze_rook_position(v, sq1, white);
            rook_term = get_rook_value(phase, true) + get_rook_position_bonus(&info1);
            if rook_count > 1 {
                let second_bb = rook_bb & (rook_bb - 1);
                let sq2 = lowest_bit(second_bb);
                if sq2 < 64 {
                    let info2 = analyze_rook_position(v, sq2, white);
                    rook_term = rook_term + get_rook_value(phase, false) + get_rook_position_bonus(
                        &info2,
                    );
                    if rook_attacks(sq1) & second_bb != 0 {
                        rook_term = rook_term + 20;
                    }
                }
            }
        }
    }
    rook_term
}

fn bishop_term(v: &BoardView, white: bool, phase: &GamePhase) -> (r: i64)
    ensures
        r == spec_bishop_term(*v, white, *phase),
        0 <= r <= 21500,
{
    let bishop_count = popcount(v.bishops & v.color_combined(white));
    let mut term: i64 = (bishop_count as i64) * BISHOP_VALUE;
    if bishop_count >= 2 {
        term = term + get_bishop_pair_bonus(phase);
    }
    term
}

fn knight_term(v: &BoardView, white: bool, phase: &GamePhase) -> (r: i64)
    ensures
        r == spec_knight_term(*v, white, *phase),
        0 <= r <= 60800,
{
    let knight_count = popcount(v.knights & v.color_combined(white));
    let knight_value = get_knight_value(phase);
    proof {
        assert(0 <= knight_count * knight_value <= 64 * 950) by (nonlinear_arith)
            requires
                0 <= knight_count <= 64,
                0 <= knight_value <= 950,
        ;
    }
    (knight_count as i64) * knight_value
}

fn pawn_term(v: &BoardView, white: bool, phase: &GamePhase) -> (r: i64)
    ensures
        r == spec_pawn_term(*v, white, *phase),
        0 <= r <= 60800,
{
    let pawn_count = popcount(v.pawns & v.color_combined(white));
    let pawn_value = get_pawn_value(phase);
    proof {
        assert(0 <= pawn_count * pawn_value <= 64 * 950) by (nonlinear_arith)
            requires
                0 <= pawn_count <= 64,
                0 <= pawn_value <= 950,
        ;
    }
    (pawn_count as i64) * pawn_value
}

pub fn evaluate_material(v: &BoardView, white: bool, phase: &GamePhase) -> (r: i64)
    ensures
        r == spec_evaluate_material(*v, white, *phase),
        0 <= r <= 150000,
{
    queen_term(v, white) + rook_term(v, white, phase) + bishop_term(v, white, phase) + knight_term(
        v,
        white,
        phase,
    ) + pawn_term(v, white, phase)
}


/// Whether a back-rank mate pattern stands against the king of the given
/// colour on `king_sq`: king on its home rank, no free square in its zone,
/// and an enemy rook or queen on the board.
pub open spec fn spec_back_rank_mate(v: BoardView, king_sq: usize, king_white: bool) -> bool {
    let back_rank: int = if king_white {
        0
    } else {
        7
    };
    if king_sq / 8 != back_rank {
        false
    } else {
        let king_zone = spec_king_attacks(king_sq);
        let friendly = v.spec_color(king_white);
        let escape = king_zone & !friendly;
        let enemy = v.spec_color(!king_white);
        escape == 0 && ((v.rooks & enemy) != 0 || (v.queens & enemy) != 0)
    }
}

pub fn detect_back_rank_mate(v: &BoardView, king_sq: usize, king_white: bool) -> (r: bool)
    requires
        king_sq < 64,
    ensures
        r == spec_back_rank_mate(*v, king_sq, king_white),
{
    let rank = king_sq / 8;
    let back_rank: usize = if king_white {
        0
    } else {
        7
    };
    if rank != back_rank {
        return false;
    }
    let king_zone = king_safety_mask(king_sq);
    let friendly = v.color_combined(king_white);
    let escape = king_zone & !friendly;
    let enemy = v.color_combined(!king_white);
    escape == 0 && ((v.rooks & enemy) != 0 || (v.queens & enemy) != 0)
}

/// Whether a smothered mate pattern stands against the king of the given
/// colour on `king_sq`: the zone fully occupied by its own side and an
/// enemy knight attacking the king.
pub open spec fn spec_smothered_mate(v: BoardView, king_sq: usize, king_white: bool) -> bool {
    let king_zone = spec_king_attacks(king_sq);
    let friendly = v.spec_color(king_white);
    if king_zone & !friendly != 0 {
        false
    } else {
        spec_knight_attacks(king_sq) & (v.knights & v.spec_color(!king_white)) != 0
    }
}

pub fn detect_smothered_mate(v: &BoardView, king_sq: usize, king_white: bool) -> (r: bool)
    requires
        king_sq < 64,
    ensures
        r == spec_smothered_mate(*v, king_sq, king_white),
{
    let king_zone = king_safety_mask(king_sq);
    let friendly = v.color_combined(king_white);
    if king_zone & !friendly != 0 {
        return false;
    }
    knight_attacks(king_sq) & (v.knights & v.color_combined(!king_white)) != 0
}

/// Checkmate-pattern bonus the given colour earns against the enemy king.
pub open spec fn spec_checkmate_patterns(v: BoardView, white: bool) -> int {
    let king_bb = v.kings & v.spec_color(!white);
    if spec_lowest_bit(king_bb) >= 64 {
        0
    } else {
        let king_sq = spec_lowest_bit(king_bb);
        (if spec_back_rank_mate(v, king_sq, !white) {
            BACK_RANK_MATE_BONUS as int
        } else {
            0int
        }) + (if spec_smothered_mate(v, king_sq, !white) {
            SMOTHERED_MATE_BONUS as int
        } else {
            0int
        })
    }
}

pub fn detect_checkmate_patterns(v: &BoardView, white: bool) -> (r: i64)
    ensures
        r == spec_checkmate_patterns(*v, white),
        0 <= r <= 900,
{
    let king_bb = v.kings & v.color_combined(!white);
    let king_sq = lowest_bit(king_bb);
    if king_sq >= 64 {
        return 0;
    }
    let mut pattern_value: i64 = 0;
    if detect_back_rank_mate(v, king_sq, !white) {
        pattern_value = pattern_value + BACK_RANK_MATE_BONUS;
    }
    if detect_smothered_mate(v, king_sq, !white) {
        pattern_value = pattern_value + SMOTHERED_MATE_BONUS;
    }
    pattern_value
}

/// What one piece kind on `sq` contributes to White's positional total.
pub open spec fn spec_pos_kind_white(
    v: BoardView,
    phase: GamePhase,
    sq: usize,
    kind: PieceKind,
) -> int {
    if spec_get_bit(v.spec_pieces(kind), sq) && spec_get_bit(v.white, sq) {
        spec_piece_square_value(kind, sq, true, phase)
    } else {
        0
    }
}

/// What one piece kind on `sq` contributes to Black's positional total.
pub open spec fn spec_pos_kind_black(
    v: BoardView,
    phase: GamePhase,
    sq: usize,
    kind: PieceKind,
) -> int {
    if spec_get_bit(v.spec_pieces(kind), sq) && !spec_get_bit(v.white, sq) && spec_get_bit(
        v.black,
        sq,
    ) {
        spec_piece_square_value(kind, sq, false, phase)
    } else {
        0
    }
}

/// Positional (piece-square) term one square contributes to White's total.
pub open spec fn spec_pos_term_white(v: BoardView, phase: GamePhase, sq: usize) -> int {
    spec_pos_kind_white(v, phase, sq, PieceKind::King) + spec_pos_kind_white(
        v,
        phase,
        sq,
        PieceKind::Queen,
    ) + spec_pos_kind_white(v, phase, sq, PieceKind::Rook) + spec_pos_kind_white(
        v,
        phase,
        sq,
        PieceKind::Bishop,
    ) + spec_pos_kind_white(v, phase, sq, PieceKind::Knight) + spec_pos_kind_white(
        v,
        phase,
        sq,
        PieceKind::Pawn,
    )
}

/// Positional (piece-square) term one square contributes to Black's total.
pub open spec fn spec_pos_term_black(v: BoardView, phase: GamePhase, sq: usize) -> int {
    spec_pos_kind_black(v, phase, sq, PieceKind::King) + spec_pos_kind_black(
        v,
        phase,
        sq,
        PieceKind::Queen,
    ) + spec_pos_kind_black(v, phase, sq, PieceKind::Rook) + spec_pos_kind_black(
        v,
        phase,
        sq,
        PieceKind::Bishop,
    ) + spec_pos_kind_black(v, phase, sq, PieceKind::Knight) + spec_pos_kind_black(
        v,
        phase,
        sq,
        PieceKind::Pawn,
    )
}

pub open spec fn spec_pos_sum_white(v: BoardView, phase: GamePhase, sq: usize) -> int
    decreases 64 - sq,
{
    if sq >= 64 {
        0
    } else {
        spec_pos_term_white(v, phase, sq) + spec_pos_sum_white(v, phase, (sq + 1) as usize)
    }
}

pub open spec fn spec_pos_sum_black(v: BoardView, phase: GamePhase, sq: usize) -> int
    decreases 64 - sq,
{
    if sq >= 64 {
        0
    } else {
        spec_pos_term_black(v, phase, sq) + spec_pos_sum_black(v, phase, (sq + 1) as usize)
    }
}

pub open spec fn spec_att_sum(v: BoardView, white: bool, sq: usize) -> int
    decreases 64 - sq,
{
    if sq >= 64 {
        0
    } else {
        spec_evaluate_attacks(v, sq, white) + spec_att_sum(v, white, (sq + 1) as usize)
    }
}

/// Everything one colour's pieces are worth.
pub open spec fn spec_color_total(v: BoardView, phase: GamePhase, white: bool) -> int {
    spec_pos_sum_white_or_black(v, phase, white) + spec_evaluate_material(v, white, phase)
        + spec_att_sum(v, white, 0) + spec_checkmate_patterns(v, white)
}

pub open spec fn spec_pos_sum_white_or_black(v: BoardView, phase: GamePhase, white: bool) -> int {
    if white {
        spec_pos_sum_white(v, phase, 0)
    } else {
        spec_pos_sum_black(v, phase, 0)
    }
}

/// The evaluation: White's total minus Black's, sign-adjusted so the
/// score is from the perspective of the side to move.
pub open spec fn spec_evaluate_board(v: BoardView, move_count: u32) -> int {
    let phase = spec_detect_game_phase(v, move_count);
    let white_value = spec_color_total(v, phase, true);
    let black_value = spec_color_total(v, phase, false);
    if v.white_to_move {
        white_value - black_value
    } else {
        black_value - white_value
    }
}

/// Two views place the same pieces on the same squares; only the side to
/// move (or the check flag) may differ.
pub open spec fn same_placement(a: BoardView, b: BoardView) -> bool {
    a.pawns == b.pawns && a.knights == b.knights && a.bishops == b.bishops && a.rooks == b.rooks
        && a.queens == b.queens && a.kings == b.kings && a.white == b.white && a.black == b.black
}

proof fn lemma_pos_sums_same(a: BoardView, b: BoardView, phase: GamePhase, sq: usize)
    requires
        same_placement(a, b),
    ensures
        spec_pos_sum_white(a, phase, sq) == spec_pos_sum_white(b, phase, sq),
        spec_pos_sum_black(a, phase, sq) == spec_pos_sum_black(b, phase, sq),
    decreases 64 - sq,
{
    if sq < 64 {
        lemma_pos_sums_same(a, b, phase, (sq + 1) as usize);
    }
}

proof fn lemma_att_sum_same(a: BoardView, b: BoardView, white: bool, sq: usize)
    requires
        same_placement(a, b),
    ensures
        spec_att_sum(a, white, sq) == spec_att_sum(b, white, sq),
    decreases 64 - sq,
{
    if sq < 64 {
        assert(spec_evaluate_attacks(a, sq, white) == spec_evaluate_attacks(b, sq, white));
        lemma_att_sum_same(a, b, white, (sq + 1) as usize);
    }
}

proof fn lemma_color_total_same(a: BoardView, b: BoardView, phase: GamePhase, white: bool)
    requires
        same_placement(a, b),
    ensures
        spec_color_total(a, phase, white) == spec_color_total(b, phase, white),
{
    lemma_pos_sums_same(a, b, phase, 0);
    lemma_att_sum_same(a, b, white, 0);
}

/// The evaluation is perspective-relative: two views of the same piece
/// placement whose sides to move are opposite score as exact negations of
/// one another.
pub proof fn lemma_evaluate_perspective(a: BoardView, b: BoardView, move_count: u32)
    requires
        same_placement(a, b),
        a.white_to_move == !b.white_to_move,
    ensures
        spec_evaluate_board(a, move_count) == -spec_evaluate_board(b, move_count),
{
    let phase = spec_detect_game_phase(a, move_count);
    assert(spec_detect_game_phase(b, move_count) == phase);
    lemma_color_total_same(a, b, phase, true);
    lemma_color_total_same(a, b, phase, false);
}

fn positional_contrib(v: &BoardView, phase: &GamePhase, sq: usize, kind: PieceKind) -> (r: (
    i64,
    i64,
))
    requires
        sq < 64,
    ensures
        r.0 == spec_pos_kind_white(*v, *phase, sq, kind),
        r.1 == spec_pos_kind_black(*v, *phase, sq, kind),
        -200 <= r.0 <= 200,
        -200 <= r.1 <= 200,
{
    let mut white_value: i64 = 0;
    let mut black_value: i64 = 0;
    if get_bit(v.pieces(kind), sq) {
        if get_bit(v.white, sq) {
            white_value = get_piece_square_value(kind, sq, true, phase);
        } else if get_bit(v.black, sq) {
            black_value = get_piece_square_value(kind, sq, false, phase);
        }
    }
    (white_value, black_value)
}

fn positional_terms(v: &BoardView, phase: &GamePhase, sq: usize) -> (r: (i64, i64))
    requires
        sq < 64,
    ensures
        r.0 == spec_pos_term_white(*v, *phase, sq),
        r.1 == spec_pos_term_black(*v, *phase, sq),
        -1200 <= r.0 <= 1200,
        -1200 <= r.1 <= 1200,
{
    let (kw, kb) = positional_contrib(v, phase, sq, PieceKind::King);
    let (qw, qb) = positional_contrib(v, phase, sq, PieceKind::Queen);
    let (rw, rb) = positional_contrib(v, phase, sq, PieceKind::Rook);
    let (bw, bbv) = positional_contrib(v, phase, sq, PieceKind::Bishop);
    let (nw, nb) = positional_contrib(v, phase, sq, PieceKind::Knight);
    let (pw, pb) = positional_contrib(v, phase, sq, PieceKind::Pawn);
    (kw + qw + rw + bw + nw + pw, kb + qb + rb + bbv + nb + pb)
}

/// Static evaluation of a position, in centipawns, positive when the side
/// to move stands better.
pub fn evaluate_board(v: &BoardView, move_count: u32) -> (r: i64)
    ensures
        r == spec_evaluate_board(*v, move_count),
        -1000000 < r < 1000000,
{
    let phase = detect_game_phase(v, move_count);
    let mut white_value: i64 = 0;
    let mut black_value: i64 = 0;

    let mut sq: usize = 0;
    while sq < 64
        invariant
            sq <= 64,
            white_value + spec_pos_sum_white(*v, phase, sq) == spec_pos_sum_white(*v, phase, 0),
            black_value + spec_pos_sum_black(*v, phase, sq) == spec_pos_sum_black(*v, phase, 0),
            -1200 * sq <= white_value <= 1200 * sq,
            -1200 * sq <= black_value <= 1200 * sq,
            phase == spec_detect_game_phase(*v, move_count),
        decreases 64 - sq,
    {
        let (tw, tb) = positional_terms(v, &phase, sq);
        white_value = white_value + tw;
        black_value = black_value + tb;
        sq = sq + 1;
    }

    white_value = white_value + evaluate_material(v, true, &phase);
    black_value = black_value + evaluate_material(v, false, &phase);

    let mut sq2: usize = 0;
    while sq2 < 64
        invariant
            sq2 <= 64,
            white_value - spec_pos_sum_white(*v, phase, 0) - spec_evaluate_material(
                *v,
                true,
                phase,
            ) + spec_att_sum(*v, true, sq2) == spec_att_sum(*v, true, 0),
            black_value - spec_pos_sum_black(*v, phase, 0) - spec_evaluate_material(
                *v,
                false,
                phase,
            ) + spec_att_sum(*v, false, sq2) == spec_att_sum(*v, false, 0),
            -1200 * 64 - 3000 * sq2 <= white_value <= 1200 * 64 + 150000 + 3000 * sq2,
            -1200 * 64 - 3000 * sq2 <= black_value <= 1200 * 64 + 150000 + 3000 * sq2,
            phase == spec_detect_game_phase(*v, move_count),
        decreases 64 - sq2,
    {
        white_value = white_value + evaluate_attacks(v, sq2, true);
        black_value = black_value + evaluate_attacks(v, sq2, false);
        sq2 = sq2 + 1;
    }

    white_value = white_value + detect_checkmate_patterns(v, true);
    black_value = black_value + detect_checkmate_patterns(v, false);

    if v.white_to_move {
        white_value - black_value
    } else {
        black_value - white_value
    }
}

} // verus!
