use sappyduck::movegen::Position;
use sappyduck::defs::FEN_START;
use sappyduck::time_control::{pick_move_timed, GameTime};
use sappyduck::uci::{analyze_position, parse_go, StopToken};

fn fresh_clock() -> GameTime {
    GameTime { wtime: 0, btime: 0, winc: 0, binc: 0, movestogo: None }
}

#[test]
fn allocation_spreads_the_clock_over_thirty_moves() {
    // round((10000 - 100) * 0.8 / 30) = 264 ms.
    let gt = GameTime { wtime: 10000, btime: 10000, winc: 0, binc: 0, movestogo: None };
    assert_eq!(gt.calculate_time(true), 264);
    assert_eq!(gt.calculate_time(false), 264);
}

#[test]
fn allocation_is_zero_when_clock_cannot_cover_the_safeguard() {
    // base_time = 50 - 100 <= 0 and no increment.
    let gt = GameTime { wtime: 50, btime: 50, winc: 0, binc: 0, movestogo: None };
    assert_eq!(gt.calculate_time(true), 0);
    assert_eq!(gt.calculate_time(false), 0);
}

#[test]
fn allocation_falls_back_to_the_increment() {
    // base_time <= 0 with an increment: round(1000 * 0.8) = 800 ms.
    let gt = GameTime { wtime: 50, btime: 50, winc: 1000, binc: 250, movestogo: None };
    assert_eq!(gt.calculate_time(true), 800);
    assert_eq!(gt.calculate_time(false), 200);
}

#[test]
fn allocation_honours_moves_to_go() {
    // round((10000 - 100) * 0.8 / 40) = 198 ms.
    let gt = GameTime { wtime: 10000, btime: 10000, winc: 0, binc: 0, movestogo: Some(40) };
    assert_eq!(gt.calculate_time(true), 198);
}

#[test]
fn allocation_rounds_to_nearest() {
    // (1000 - 100) * 0.8 / 30 = 24.0; (1044 - 100) * 0.8 / 30 = 25.17…
    let gt = GameTime { wtime: 1000, btime: 1044, winc: 0, binc: 0, movestogo: None };
    assert_eq!(gt.calculate_time(true), 24);
    assert_eq!(gt.calculate_time(false), 25);
}

#[test]
fn allocation_with_zero_moves_to_go_exhausts_the_budget_type() {
    let gt = GameTime { wtime: 10000, btime: 10000, winc: 0, binc: 0, movestogo: Some(0) };
    assert_eq!(gt.calculate_time(true), u128::MAX);
}

#[test]
fn parse_go_reads_all_clock_fields() {
    let mut gt = fresh_clock();
    parse_go("go wtime 10000 btime 9000 winc 10 binc 20 movestogo 40", &mut gt);
    assert_eq!(gt.wtime, 10000);
    assert_eq!(gt.btime, 9000);
    assert_eq!(gt.winc, 10);
    assert_eq!(gt.binc, 20);
    assert_eq!(gt.movestogo, Some(40));
}

#[test]
fn parse_go_unreadable_numbers_become_zero() {
    let mut gt = fresh_clock();
    gt.wtime = 77;
    parse_go("go wtime abc movestogo -3", &mut gt);
    assert_eq!(gt.wtime, 0);
    assert_eq!(gt.movestogo, Some(0));
}

#[test]
fn parse_go_ignores_a_trailing_keyword_without_value() {
    let mut gt = fresh_clock();
    gt.btime = 5;
    parse_go("go btime", &mut gt);
    assert_eq!(gt.btime, 5);
}

#[test]
fn parse_go_matches_rust_integer_parsing_at_the_edges() {
    let mut gt = fresh_clock();
    parse_go("go wtime 170141183460469231731687303715884105727", &mut gt);
    assert_eq!(gt.wtime, i128::MAX);
    // One past the type's range is unreadable and becomes zero.
    parse_go("go wtime 170141183460469231731687303715884105728", &mut gt);
    assert_eq!(
        gt.wtime,
        "170141183460469231731687303715884105728".parse::<i128>().unwrap_or(0)
    );
    parse_go("go wtime -170141183460469231731687303715884105728", &mut gt);
    assert_eq!(gt.wtime, i128::MIN);
    parse_go("go wtime +5", &mut gt);
    assert_eq!(gt.wtime, 5);
    parse_go("go movestogo +7", &mut gt);
    assert_eq!(gt.movestogo, Some("+7".parse::<u32>().unwrap_or(0)));
}

#[test]
fn parse_go_splits_on_any_whitespace() {
    let mut gt = fresh_clock();
    parse_go("go \t wtime \t 42", &mut gt);
    assert_eq!(gt.wtime, 42);
}

#[test]
fn fen_move_count_is_read_even_when_the_board_falls_back() {
    let position = Position::from_fen("bad fen string x y 7");
    assert_eq!(position.move_count, 14);
    assert_eq!(position.generate_legal_moves().len(), 20);
}

#[test]
fn parse_go_reads_negative_clocks() {
    let mut gt = fresh_clock();
    parse_go("go wtime -500", &mut gt);
    assert_eq!(gt.wtime, -500);
}

#[test]
fn fen_carries_the_half_move_count() {
    let position = Position::from_fen(FEN_START);
    // Fullmove number 1, counted in half-moves.
    assert_eq!(position.move_count, 2);
    let later = Position::from_fen("8/8/k7/8/8/K7/8/8 w - - 0 30");
    assert_eq!(later.move_count, 60);
}

#[test]
fn malformed_fen_falls_back_to_the_start_position() {
    let position = Position::from_fen("this is not a fen");
    let moves = position.generate_legal_moves();
    assert_eq!(moves.len(), 20);
    assert!(moves.contains(&"e2e4".to_string()));
}

#[test]
fn make_move_applies_legal_moves_and_rejects_the_rest() {
    let mut position = Position::from_fen(FEN_START);
    let before = position.move_count;
    assert!(position.make_move("e2e4"));
    assert_eq!(position.move_count, before + 1);
    assert!(!position.white_to_move());
    // Unparseable text leaves the position alone.
    assert!(!position.make_move("xyz"));
    assert_eq!(position.move_count, before + 1);
    // A parseable but illegal move is refused as well.
    assert!(!position.make_move("e2e4"));
    assert_eq!(position.move_count, before + 1);
}

#[test]
fn is_capture_sees_the_occupied_destination() {
    let position = Position::from_fen("k7/8/8/3q4/4P3/8/8/K7 w - - 0 1");
    assert!(position.is_capture("e4d5"));
    assert!(!position.is_capture("e4e5"));
    assert!(!position.is_capture("nonsense"));
}

#[test]
fn timed_pick_always_completes_depth_one() {
    // A zero budget still produces a move: depth one is always finished.
    let mut position = Position::from_fen(FEN_START);
    let stop = StopToken::new();
    let start = std::time::Instant::now();
    let chosen = pick_move_timed(&mut position, 0, &stop).expect("a move is always ready");
    assert!(position.generate_legal_moves().contains(&chosen));
    // The budget bounds the search up to one depth iteration's overrun.
    assert!(start.elapsed().as_secs() < 10);
}

#[test]
fn analyze_position_returns_a_legal_move() {
    let mut position = Position::from_fen(FEN_START);
    let stop = StopToken::new();
    let chosen = analyze_position(&mut position, 2, &stop).expect("moves exist");
    assert!(position.generate_legal_moves().contains(&chosen));
    // A zero requested depth still yields the fallback first move.
    let fallback = analyze_position(&mut position, 0, &stop).expect("moves exist");
    assert!(position.generate_legal_moves().contains(&fallback));
}

#[test]
fn stop_token_round_trip() {
    let mut stop = StopToken::new();
    assert!(!stop.stop_requested);
    stop.request_stop();
    assert!(stop.stop_requested);
    stop.clear();
    assert!(!stop.stop_requested);
}
