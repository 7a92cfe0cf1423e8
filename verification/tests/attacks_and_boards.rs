use sappyduck::attacks::{
    bishop_attacks, king_attacks, king_safety_mask, knight_attacks, pawn_attacks, queen_attacks,
    rook_attacks,
};
use sappyduck::defs::{is_original_position, BoardView, FEN_START, PieceKind};
use sappyduck::movegen::{create_bitboard, Position};

#[test]
fn knight_on_the_corner_does_not_wrap() {
    // A knight on a1 attacks only b3 and c2; nothing wraps to the g or h
    // files.
    assert_eq!(knight_attacks(0), (1u64 << 17) | (1u64 << 10));
}

#[test]
fn knight_in_the_centre_attacks_eight_squares() {
    // d4 (square 27): b3, f3, b5, f5, c2, e2, c6, e6.
    let expected: u64 = (1 << 17) | (1 << 21) | (1 << 33) | (1 << 37) | (1 << 10) | (1 << 12)
        | (1 << 42) | (1 << 44);
    assert_eq!(knight_attacks(27), expected);
}

#[test]
fn white_pawn_in_the_centre_attacks_diagonally() {
    // e4 (square 28) attacks d5 (35) and f5 (37).
    assert_eq!(pawn_attacks(true, 28), (1u64 << 35) | (1u64 << 37));
    // A black pawn on e4 attacks d3 (19) and f3 (21).
    assert_eq!(pawn_attacks(false, 28), (1u64 << 19) | (1u64 << 21));
}

#[test]
fn edge_pawns_do_not_wrap() {
    // A white pawn on a4 (24) attacks b5 (33) alone; nothing wraps to
    // the h-file.
    assert_eq!(pawn_attacks(true, 24), 1u64 << 33);
    // A white pawn on h4 (31) attacks g5 (38) alone.
    assert_eq!(pawn_attacks(true, 31), 1u64 << 38);
    // A black pawn on a5 (32) attacks b4 (25) alone.
    assert_eq!(pawn_attacks(false, 32), 1u64 << 25);
    // A black pawn on h5 (39) attacks g4 (30) alone.
    assert_eq!(pawn_attacks(false, 39), 1u64 << 30);
}

#[test]
fn king_zone_is_the_adjacency_mask() {
    // b2 (square 9): all eight neighbours.
    let expected: u64 = (1 << 0) | (1 << 1) | (1 << 2) | (1 << 8) | (1 << 10) | (1 << 16)
        | (1 << 17) | (1 << 18);
    assert_eq!(king_attacks(9), expected);
    assert_eq!(king_safety_mask(9), king_attacks(9));
}

#[test]
fn sliding_rays_reach_the_board_edge() {
    // Rook on a1: the whole a-file and first rank, save a1 itself.
    let mut expected: u64 = 0;
    for i in 1..8u64 {
        expected |= 1 << i;
        expected |= 1 << (i * 8);
    }
    assert_eq!(rook_attacks(0), expected);
    // Bishop on a1: the long diagonal.
    let mut diag: u64 = 0;
    for i in 1..8u64 {
        diag |= 1 << (i * 9);
    }
    assert_eq!(bishop_attacks(0), diag);
    assert_eq!(queen_attacks(0), rook_attacks(0) | bishop_attacks(0));
}

#[test]
fn create_bitboard_reads_one_colour_of_one_kind() {
    let position = Position::from_fen(FEN_START);
    let white_pawns = create_bitboard(&position.board, PieceKind::Pawn, true);
    assert_eq!(white_pawns, 0x000000000000FF00);
    let black_pawns = create_bitboard(&position.board, PieceKind::Pawn, false);
    assert_eq!(black_pawns, 0x00FF000000000000);
}

#[test]
fn view_mirrors_the_start_position() {
    let position = Position::from_fen(FEN_START);
    let v: BoardView = position.view;
    assert_eq!(v.pawns, 0x00FF00000000FF00);
    assert_eq!(v.white, 0x000000000000FFFF);
    assert_eq!(v.black, 0xFFFF000000000000);
    assert_eq!(v.kings, (1u64 << 4) | (1u64 << 60));
    assert!(v.white_to_move);
    assert!(!v.in_check);
    assert!(is_original_position(&v));
}
