use sappyduck::bitboard::{get_bit, pop_bit, popcount, set_bit};
use sappyduck::defs::{detect_game_phase, BoardView, GamePhase, PieceKind, FEN_START};
use sappyduck::eval::evaluate_board;
use sappyduck::movegen::Position;
use sappyduck::movepick::{alpha_beta_search, iterative_deepening, order_moves, pick_move, score_move, SearchParams};
use sappyduck::tables::get_piece_square_value;
use sappyduck::uci::StopToken;
use std::str::FromStr;

fn empty_view() -> BoardView {
    BoardView {
        pawns: 0,
        knights: 0,
        bishops: 0,
        rooks: 0,
        queens: 0,
        kings: 0,
        white: 0,
        black: 0,
        white_to_move: true,
        in_check: false,
    }
}

#[test]
fn bit_helpers() {
    let mut bb: u64 = 0;
    set_bit(&mut bb, 12);
    assert!(get_bit(bb, 12));
    assert!(!get_bit(bb, 11));
    pop_bit(&mut bb, 12);
    assert_eq!(bb, 0);
    assert_eq!(popcount(0), 0);
    assert_eq!(popcount(0xFF), 8);
    assert_eq!(popcount(u64::MAX), 64);
}

#[test]
fn game_phase_classification() {
    let mut v = empty_view();
    // The first twenty half-moves are the opening whatever the material.
    assert_eq!(detect_game_phase(&v, 0), GamePhase::Opening);
    assert_eq!(detect_game_phase(&v, 20), GamePhase::Opening);
    // Past the opening, queen counts decide.
    v.queens = (1 << 3) | (1 << 59);
    v.white = 1 << 3;
    v.black = 1 << 59;
    assert_eq!(detect_game_phase(&v, 21), GamePhase::Middlegame);
    v.queens = 1 << 3;
    assert_eq!(detect_game_phase(&v, 21), GamePhase::Threshold);
    // Exactly one side retaining queens is the threshold, however many.
    v.queens = (1 << 3) | (1 << 10);
    v.white = v.queens;
    v.black = 0;
    assert_eq!(detect_game_phase(&v, 21), GamePhase::Threshold);
    v.queens = 0;
    v.white = 0;
    assert_eq!(detect_game_phase(&v, 21), GamePhase::Endgame);
}

#[test]
fn piece_square_values_mirror() {
    // Middlegame pawn table, second-rank-from-top entry (index 8): 0.98
    // pawns, i.e. 98 centipawns, for White.
    assert_eq!(
        get_piece_square_value(PieceKind::Pawn, 8, true, &GamePhase::Middlegame),
        98
    );
    // Black reads the vertically mirrored square: 8 ^ 56 == 48.
    assert_eq!(
        get_piece_square_value(PieceKind::Pawn, 48, false, &GamePhase::Middlegame),
        98
    );
    // Opening and threshold phases contribute no positional value.
    assert_eq!(
        get_piece_square_value(PieceKind::Pawn, 8, true, &GamePhase::Opening),
        0
    );
    assert_eq!(
        get_piece_square_value(PieceKind::Queen, 20, true, &GamePhase::Threshold),
        0
    );
}

#[test]
fn evaluation_is_perspective_relative() {
    // The same physical position with the side to move flipped scores as
    // the exact negation.
    let position = Position::from_fen("rnbqkbnr/pppppppp/8/8/4P3/8/PPPP1PPP/RNBQKBNR b KQkq - 0 1");
    let mut flipped = position.view;
    flipped.white_to_move = !flipped.white_to_move;
    let a = evaluate_board(&position.view, position.move_count);
    let b = evaluate_board(&flipped, position.move_count);
    assert_eq!(a, -b);
}

#[test]
fn evaluation_of_bare_kings_is_zero() {
    let position = Position::from_fen("8/8/k7/8/8/K7/8/8 w - - 0 1");
    assert_eq!(evaluate_board(&position.view, position.move_count), 0);
}

#[test]
fn depth_zero_search_returns_static_evaluation() {
    let position = Position::from_fen(FEN_START);
    let mut params = SearchParams::default();
    let stop = StopToken::new();
    let (score, mv) = alpha_beta_search(&position, 0, -2000000000, 2000000000, true, &mut params, &stop);
    assert_eq!(score, evaluate_board(&position.view, position.move_count));
    assert!(mv.is_none());
    // A leaf is one node.
    assert_eq!(params.nodes, 1);
}

#[test]
fn search_counts_its_nodes() {
    // At depth one the start position visits the root and its twenty
    // children.
    let position = Position::from_fen(FEN_START);
    let mut params = SearchParams::default();
    let stop = StopToken::new();
    let _ = alpha_beta_search(&position, 1, -2000000000, 2000000000, true, &mut params, &stop);
    assert_eq!(params.nodes, 21);
}

#[test]
fn deepening_to_depth_four_exercises_the_aspiration_window() {
    // From depth four on the driver narrows the window around the
    // previous best score and re-searches when the score falls outside.
    let mut position = Position::from_fen("8/8/k7/8/8/K7/8/8 w - - 0 40");
    let stop = StopToken::new();
    let chosen = iterative_deepening(&mut position, &stop, 600000, 4).expect("moves exist");
    assert!(position.generate_legal_moves().contains(&chosen));
}

#[test]
fn checkmate_scores_below_minus_nine_thousand_pawns() {
    // White is checkmated (a fool's mate pattern): no moves, in check.
    let position = Position::from_fen("rnb1kbnr/pppp1ppp/4p3/8/6Pq/5P2/PPPPP2P/RNBQKBNR w KQkq - 0 3");
    assert!(position.generate_legal_moves().is_empty());
    let mut params = SearchParams::default();
    let stop = StopToken::new();
    let (score, mv) = alpha_beta_search(&position, 1, -2000000000, 2000000000, true, &mut params, &stop);
    assert!(score < -900000);
    assert!(mv.is_none());
}

#[test]
fn stalemate_scores_exactly_zero() {
    // Black to move has no moves and is not in check.
    let position = Position::from_fen("7k/5Q2/6K1/8/8/8/8/8 b - - 0 1");
    assert!(position.generate_legal_moves().is_empty());
    let mut params = SearchParams::default();
    let stop = StopToken::new();
    let (score, mv) = alpha_beta_search(&position, 1, -2000000000, 2000000000, false, &mut params, &stop);
    assert_eq!(score, 0);
    assert!(mv.is_none());
}

#[test]
fn pick_move_returns_a_legal_move() {
    let mut position = Position::from_fen(FEN_START);
    let stop = StopToken::new();
    let chosen = pick_move(&mut position, &stop).expect("the start position has moves");
    assert!(position.generate_legal_moves().contains(&chosen));
    // Cross-check against the board service's own generator.
    let board = chess::Board::from_str(FEN_START).unwrap();
    let legal: Vec<String> = chess::MoveGen::new_legal(&board).map(|m| m.to_string()).collect();
    assert!(legal.contains(&chosen));
}

#[test]
fn pick_move_none_only_without_moves() {
    let mut mated = Position::from_fen("rnb1kbnr/pppp1ppp/4p3/8/6Pq/5P2/PPPPP2P/RNBQKBNR w KQkq - 0 3");
    let stop = StopToken::new();
    assert!(pick_move(&mut mated, &stop).is_none());
}

#[test]
fn pick_move_with_stop_requested_still_returns_a_move() {
    let mut position = Position::from_fen(FEN_START);
    let mut stop = StopToken::new();
    stop.request_stop();
    let chosen = pick_move(&mut position, &stop).expect("fallback move is always ready");
    assert!(position.generate_legal_moves().contains(&chosen));
}

#[test]
fn move_scores_match_the_heuristic() {
    // From the start position: a pawn push to the centre earns the
    // centre bonus alone; the knight's home rank is not the development
    // rank, so its move scores nothing.
    let start = Position::from_fen(FEN_START);
    assert_eq!(score_move(&start.view, start.move_count, "e2e4"), 50);
    assert_eq!(score_move(&start.view, start.move_count, "g1f3"), 0);
    assert_eq!(score_move(&start.view, start.move_count, "not a move"), 0);
    // A pawn takes a queen on a central square: the capture term
    // 10 * 900 - 100, the centre bonus, and the opening repeat penalty.
    let capture = Position::from_fen("k7/8/8/3q4/4P3/8/8/K7 w - - 0 1");
    assert_eq!(
        score_move(&capture.view, capture.move_count, "e4d5"),
        10 * 900 - 100 + 50 - 20
    );
}

#[test]
fn queen_capture_sorts_first() {
    // The pawn on e4 can take the queen on d5; nothing else captures.
    let position = Position::from_fen("k7/8/8/3q4/4P3/8/8/K7 w - - 0 1");
    let mut moves = position.generate_legal_moves();
    assert!(moves.contains(&"e4d5".to_string()));
    order_moves(&mut moves, &position);
    assert_eq!(moves[0], "e4d5");
}

#[test]
fn ordering_is_a_permutation() {
    let position = Position::from_fen(FEN_START);
    let mut moves = position.generate_legal_moves();
    let mut expected = moves.clone();
    order_moves(&mut moves, &position);
    assert_eq!(moves.len(), expected.len());
    expected.sort();
    let mut sorted_result = moves.clone();
    sorted_result.sort();
    assert_eq!(sorted_result, expected);
}

#[test]
fn alpha_beta_equals_full_minimax() {
    // Pruning must not change the full-window value, only the effort.
    fn minimax(position: &Position, depth: i32, maximizing: bool) -> i64 {
        if depth == 0 {
            return evaluate_board(&position.view, position.move_count);
        }
        let moves = position.generate_legal_moves();
        if moves.is_empty() {
            if position.view.in_check {
                return -1000000 + 100 * (depth as i64);
            }
            return 0;
        }
        let mut best: i64 = if maximizing { -2000000000 } else { 2000000000 };
        for mv in moves {
            if let Some(child) = sappyduck::movegen::make_child(position, &mv) {
                let v = minimax(&child, depth - 1, !maximizing);
                if maximizing && v > best {
                    best = v;
                } else if !maximizing && v < best {
                    best = v;
                }
            }
        }
        best
    }

    for fen in [
        "k7/8/8/3q4/4P3/8/8/K7 w - - 0 1",
        "7k/8/5K2/8/8/8/8/6R1 w - - 0 40",
    ] {
        let position = Position::from_fen(fen);
        let mut params = SearchParams::default();
        let stop = StopToken::new();
        let maximizing = position.view.white_to_move;
        for depth in 1..=2 {
            let (score, _) = alpha_beta_search(
                &position,
                depth,
                -2000000000,
                2000000000,
                maximizing,
                &mut params,
                &stop,
            );
            assert_eq!(score, minimax(&position, depth, maximizing));
        }
    }
}
