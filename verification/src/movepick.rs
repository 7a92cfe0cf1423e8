//! The move orderer and the search engine: a per-move heuristic score
//! with a stable descending sort, depth-limited minimax with alpha-beta
//! pruning, and the iterative-deepening driver with aspiration windows.

use vstd::prelude::*;

use crate::bitboard::spec_get_bit;
use crate::bitboard::get_bit;
use crate::defs::BoardView;
use crate::defs::PieceKind;
use crate::eval::spec_evaluate_board;
use crate::eval::evaluate_board;
use crate::interop::elapsed_millis;
use crate::interop::instant_now;
use crate::interop::print_info;
use crate::interop::print_search_start;
use crate::movegen::LegalMove;
use crate::movegen::Position;
use crate::movegen::make_child;
use crate::strutil::spec_move_parse_ok;
use crate::strutil::spec_square_of;
use crate::strutil::parse_move_squares;
use crate::uci::StopToken;
use crate::uci::should_stop;

verus! {

/// Sentinel beyond every reachable score, standing in for an infinite
/// window bound.
pub const SCORE_INF: i64 = 2000000000;

/// Centipawn value of the fastest forced mate; shallower mates score
/// closer to it.
pub const MATE_SCORE: i64 = -1000000;

/// Every search score stays within this bound.
pub const SCORE_BOUND: i64 = 300000000000;

/// The maximum depth the engine's own drivers are configured to search.
pub const DEFAULT_MAX_DEPTH: i32 = 1;

/// Ephemeral per-search bookkeeping: current depth, the moment the
/// iteration started, the wall-clock budget in milliseconds, and a node
/// counter.
pub struct SearchParams {
    pub depth: i32,
    pub start_time: std::time::Instant,
    pub max_time: u128,
    pub nodes: u64,
}

impl Default for SearchParams {
    /// A fresh record: depth zero, the clock read now, a five-second
    /// budget, no nodes.
    fn default() -> (r: SearchParams)
        ensures
            r.depth == 0,
            r.max_time == 5000,
            r.nodes == 0,
    {
        SearchParams { depth: 0, start_time: instant_now(), max_time: 5000, nodes: 0 }
    }
}

/// Fixed centipawn piece weights for capture ordering.
pub open spec fn spec_mvv_value(piece: PieceKind) -> int {
    match piece {
        PieceKind::Pawn => 100,
        PieceKind::Knight => 320,
        PieceKind::Bishop => 330,
        PieceKind::Rook => 500,
        PieceKind::Queen => 900,
        PieceKind::King => 20000,
    }
}

fn get_piece_value(piece: PieceKind) -> (r: i64)
    ensures
        r == spec_mvv_value(piece),
        100 <= r <= 20000,
{
    match piece {
        PieceKind::Pawn => 100,
        PieceKind::Knight => 320,
        PieceKind::Bishop => 330,
        PieceKind::Rook => 500,
        PieceKind::Queen => 900,
        PieceKind::King => 20000,
    }
}

/// The piece kind standing on `sq`, the kinds checked in a fixed order;
/// `None` for an empty square.
pub open spec fn spec_piece_kind_on(v: BoardView, sq: usize) -> Option<PieceKind> {
    if spec_get_bit(v.pawns, sq) {
        Some(PieceKind::Pawn)
    } else if spec_get_bit(v.knights, sq) {
        Some(PieceKind::Knight)
    } else if spec_get_bit(v.bishops, sq) {
        Some(PieceKind::Bishop)
    } else if spec_get_bit(v.rooks, sq) {
        Some(PieceKind::Rook)
    } else if spec_get_bit(v.queens, sq) {
        Some(PieceKind::Queen)
    } else if spec_get_bit(v.kings, sq) {
        Some(PieceKind::King)
    } else {
        None
    }
}

fn piece_kind_on(v: &BoardView, sq: usize) -> (r: Option<PieceKind>)
    requires
        sq < 64,
    ensures
        r == spec_piece_kind_on(*v, sq),
{
    if get_bit(v.pawns, sq) {
        Some(PieceKind::Pawn)
    } else if get_bit(v.knights, sq) {
        Some(PieceKind::Knight)
    } else if get_bit(v.bishops, sq) {
        Some(PieceKind::Bishop)
    } else if get_bit(v.rooks, sq) {
        Some(PieceKind::Rook)
    } else if get_bit(v.queens, sq) {
        Some(PieceKind::Queen)
    } else if get_bit(v.kings, sq) {
        Some(PieceKind::King)
    } else {
        None
    }
}

/// A minor piece moving off the side to move's home rank develops.
pub open spec fn spec_is_development(v: BoardView, piece: PieceKind, from: usize) -> bool {
    (piece == PieceKind::Knight || piece == PieceKind::Bishop) && (if v.white_to_move {
        from / 8 == 1
    } else {
        from / 8 == 6
    })
}

fn is_development_move(v: &BoardView, piece: PieceKind, from: usize) -> (r: bool)
    ensures
        r == spec_is_development(*v, piece, from),
{
    let from_rank = from / 8;
    let is_home_rank = if v.white_to_move {
        from_rank == 1
    } else {
        from_rank == 6
    };
    (matches!(piece, PieceKind::Knight | PieceKind::Bishop)) && is_home_rank
}

/// Moving the king while in check addresses king safety.
pub open spec fn spec_is_king_safety(v: BoardView, piece: PieceKind) -> bool {
    piece == PieceKind::King && v.in_check
}

fn is_king_safety_move(v: &BoardView, piece: PieceKind) -> (r: bool)
    ensures
        r == spec_is_king_safety(*v, piece),
{
    match piece {
        PieceKind::King => v.in_check,
        _ => false,
    }
}

/// A non-king, non-queen piece already off its home rank moves again.
pub open spec fn spec_is_repeat(v: BoardView, piece: PieceKind, from: usize) -> bool {
    piece != PieceKind::King && piece != PieceKind::Queen && (if v.white_to_move {
        from / 8 > 1
    } else {
        from / 8 < 6
    })
}

fn is_repeat_move(v: &BoardView, piece: PieceKind, from: usize) -> (r: bool)
    ensures
        r == spec_is_repeat(*v, piece, from),
{
    let from_rank = from / 8;
    let not_royal = match piece {
        PieceKind::King => false,
        PieceKind::Queen => false,
        _ => true,
    };
    not_royal && (if v.white_to_move {
        from_rank > 1
    } else {
        from_rank < 6
    })
}

/// Ordering score of one move string: the capture term (most valuable
/// victim, least valuable attacker), a centre-control bonus, the opening
/// development bonus, a king-safety bonus, and the opening repeat-move
/// penalty.  A string that does not parse scores zero, as does any term
/// that would need a piece on an empty square.
pub open spec fn spec_move_score(v: BoardView, move_count: u32, s: Seq<char>) -> int {
    if !spec_move_parse_ok(s) {
        0
    } else {
        let from = spec_square_of(s[0], s[1]) as usize;
        let to = spec_square_of(s[2], s[3]) as usize;
        let src = spec_piece_kind_on(v, from);
        let victim = spec_piece_kind_on(v, to);
        let capture: int = if victim is Some && src is Some {
            10 * spec_mvv_value(victim->0) - spec_mvv_value(src->0)
        } else {
            0
        };
        let center: int = if 27 <= to <= 36 {
            50
        } else {
            0
        };
        let development: int = if move_count < 10 && src is Some && spec_is_development(
            v,
            src->0,
            from,
        ) {
            30
        } else {
            0
        };
        let king_safety: int = if src is Some && spec_is_king_safety(v, src->0) {
            40
        } else {
            0
        };
        let repeat: int = if move_count < 10 && src is Some && spec_is_repeat(v, src->0, from) {
            -20
        } else {
            0
        };
        capture + center + development + king_safety + repeat
    }
}

/// Ordering score of one move string.
pub fn score_move(v: &BoardView, move_count: u32, mv: &str) -> (r: i64)
    ensures
        r == spec_move_score(*v, move_count, mv@),
        -30000 <= r <= 300000,
{
    let (from, to) = match parse_move_squares(mv) {
        Some(p) => p,
        None => {
            return 0;
        },
    };
    let mut score: i64 = 0;
    let src = piece_kind_on(v, from);
    let victim = piece_kind_on(v, to);
    match (victim, src) {
        (Some(cap), Some(att)) => {
            score = score + 10 * get_piece_value(cap) - get_piece_value(att);
        },
        _ => {},
    }
    if 27 <= to && to <= 36 {
        score = score + 50;
    }
    match src {
        Some(piece) => {
            if move_count < 10 && is_development_move(v, piece, from) {
                score = score + 30;
            }
            if is_king_safety_move(v, piece) {
                score = score + 40;
            }
            if move_count < 10 && is_repeat_move(v, piece, from) {
                score = score - 20;
            }
        },
        None => {},
    }
    score
}

/// Insert `x` after every element scoring at least as much: the stable
/// descending insertion.
pub open spec fn spec_insert_desc(
    v: BoardView,
    move_count: u32,
    x: Seq<char>,
    s: Seq<Seq<char>>,
) -> Seq<Seq<char>>
    decreases s.len(),
{
    if s.len() == 0 {
        seq![x]
    } else if spec_move_score(v, move_count, s[0]) >= spec_move_score(v, move_count, x) {
        seq![s[0]] + spec_insert_desc(v, move_count, x, s.drop_first())
    } else {
        seq![x] + s
    }
}

/// Stable descending insertion sort by the move score.
pub open spec fn spec_sort_desc(v: BoardView, move_count: u32, s: Seq<Seq<char>>) -> Seq<Seq<char>>
    decreases s.len(),
{
    if s.len() == 0 {
        s
    } else {
        spec_insert_desc(v, move_count, s.last(), spec_sort_desc(v, move_count, s.drop_last()))
    }
}

/// Move strings in weakly descending score order.
pub open spec fn spec_sorted_desc(v: BoardView, move_count: u32, s: Seq<Seq<char>>) -> bool {
    forall|i: int, j: int|
        0 <= i < j < s.len() ==> spec_move_score(v, move_count, #[trigger] s[i]) >= spec_move_score(
            v,
            move_count,
            #[trigger] s[j],
        )
}

/// Inserting at the first position whose score is lower is what
/// `spec_insert_desc` does.
proof fn lemma_insert_desc_at(
    v: BoardView,
    move_count: u32,
    x: Seq<char>,
    s: Seq<Seq<char>>,
    idx: int,
)
    requires
        0 <= idx <= s.len(),
        forall|k: int|
            0 <= k < idx ==> spec_move_score(v, move_count, #[trigger] s[k]) >= spec_move_score(
                v,
                move_count,
                x,
            ),
        idx < s.len() ==> spec_move_score(v, move_count, s[idx]) < spec_move_score(
            v,
            move_count,
            x,
        ),
    ensures
        spec_insert_desc(v, move_count, x, s) == s.take(idx) + seq![x] + s.skip(idx),
    decreases s.len(),
{
    if s.len() == 0 {
        assert(spec_insert_desc(v, move_count, x, s) =~= s.take(0) + seq![x] + s.skip(0));
    } else if idx == 0 {
        assert(spec_insert_desc(v, move_count, x, s) =~= s.take(0) + seq![x] + s.skip(0));
    } else {
        lemma_insert_desc_at(v, move_count, x, s.drop_first(), idx - 1);
        assert(s.drop_first().take(idx - 1) =~= s.take(idx).drop_first());
        assert(s.drop_first().skip(idx - 1) =~= s.skip(idx));
        assert(seq![s[0]] + (s.drop_first().take(idx - 1) + seq![x] + s.drop_first().skip(idx - 1))
            =~= s.take(idx) + seq![x] + s.skip(idx));
    }
}

pub fn order_moves(moves: &mut Vec<String>, position: &Position)
    ensures
        final(moves)@.map_values(|s: String| s@) == spec_sort_desc(
            position.view,
            position.move_count,
            old(moves)@.map_values(|s: String| s@),
        ),
        final(moves)@.len() == old(moves)@.len(),
        spec_sorted_desc(
            position.view,
            position.move_count,
            final(moves)@.map_values(|s: String| s@),
        ),
        final(moves)@.map_values(|s: String| s@).to_multiset() == old(moves)@.map_values(
            |s: String| s@,
        ).to_multiset(),
{
    broadcast use vstd::seq_lib::group_to_multiset_ensures;

    let ghost v = position.view;
    let ghost mc = position.move_count;
    let ghost orig = moves@.map_values(|s: String| s@);
    let mut result: Vec<String> = Vec::new();
    let mut i: usize = 0;
    proof {
        assert(orig.take(0) =~= Seq::<Seq<char>>::empty());
        assert(result@.map_values(|s: String| s@) =~= spec_sort_desc(v, mc, orig.take(0)));
    }
    while i < moves.len()
        invariant
            i <= moves@.len(),
            v == position.view,
            mc == position.move_count,
            orig == moves@.map_values(|s: String| s@),
            result@.map_values(|s: String| s@) == spec_sort_desc(v, mc, orig.take(i as int)),
            spec_sorted_desc(v, mc, result@.map_values(|s: String| s@)),
            result@.map_values(|s: String| s@).to_multiset() == orig.take(i as int).to_multiset(),
            result@.len() == i,
        decreases moves@.len() - i,
    {
        broadcast use vstd::seq_lib::group_to_multiset_ensures;

        let x = moves[i].clone();
        let key = score_move(&position.view, position.move_count, x.as_str());
        let ghost before = result@.map_values(|s: String| s@);
        let mut idx: usize = 0;
        let mut found_lower = false;
        while idx < result.len() && !found_lower
            invariant
                idx <= result@.len(),
                v == position.view,
                mc == position.move_count,
                key == spec_move_score(v, mc, x@),
                before == result@.map_values(|s: String| s@),
                forall|k: int|
                    0 <= k < idx ==> spec_move_score(v, mc, #[trigger] before[k]) >= key,
                found_lower ==> idx < result@.len() && spec_move_score(v, mc, before[idx as int])
                    < key,
            decreases result@.len() - idx, (if found_lower {
                0int
            } else {
                1int
            }),
        {
            let s_score = score_move(&position.view, position.move_count, result[idx].as_str());
            if s_score < key {
                found_lower = true;
            } else {
                idx = idx + 1;
            }
        }
        result.insert(idx, x);
        proof {
            lemma_insert_desc_at(v, mc, x@, before, idx as int);
            assert(result@.map_values(|s: String| s@) =~= before.take(idx as int) + seq![x@]
                + before.skip(idx as int));
            assert(result@.map_values(|s: String| s@) == spec_insert_desc(v, mc, x@, before));
            // The sorted prefix shifts around the inserted element.
            let after = result@.map_values(|s: String| s@);
            assert forall|a: int, b: int| 0 <= a < b < after.len() implies spec_move_score(
                v,
                mc,
                #[trigger] after[a],
            ) >= spec_move_score(v, mc, #[trigger] after[b]) by {
                let ia = idx as int;
                if a < ia {
                    assert(after[a] == before[a]);
                } else if a == ia {
                    assert(after[a] == x@);
                } else {
                    assert(after[a] == before[a - 1]);
                }
                if b < ia {
                    assert(after[b] == before[b]);
                } else if b == ia {
                    assert(after[b] == x@);
                } else {
                    assert(after[b] == before[b - 1]);
                }
                if a < ia {
                    assert(spec_move_score(v, mc, before[a]) >= key);
                }
                if b > ia && ia < before.len() {
                    assert(spec_move_score(v, mc, before[ia]) < key);
                    if ia < b - 1 {
                        assert(spec_move_score(v, mc, before[ia]) >= spec_move_score(
                            v,
                            mc,
                            before[b - 1],
                        ));
                    }
                }
                if 0 <= a - 1 && a - 1 < b - 1 && b - 1 < before.len() {
                    assert(spec_move_score(v, mc, before[a - 1]) >= spec_move_score(
                        v,
                        mc,
                        before[b - 1],
                    ));
                }
                if 0 <= a && a < b - 1 && b - 1 < before.len() {
                    assert(spec_move_score(v, mc, before[a]) >= spec_move_score(
                        v,
                        mc,
                        before[b - 1],
                    ));
                }
            }
            // Step the sort of the processed prefix.
            assert(orig.take(i + 1).drop_last() =~= orig.take(i as int));
            assert(orig.take(i + 1).last() == orig[i as int]);
            assert(orig[i as int] == x@);
            assert(spec_sort_desc(v, mc, orig.take(i + 1)) == spec_insert_desc(
                v,
                mc,
                x@,
                spec_sort_desc(v, mc, orig.take(i as int)),
            ));
            // Multisets: the inserted sequence adds exactly one element.
            assert(before.take(idx as int) + seq![x@] + before.skip(idx as int)
                =~= (before.take(idx as int) + seq![x@]) + before.skip(idx as int));
            vstd::seq_lib::lemma_multiset_commutative(
                before.take(idx as int) + seq![x@],
                before.skip(idx as int),
            );
            vstd::seq_lib::lemma_multiset_commutative(before.take(idx as int), seq![x@]);
            assert(before.take(idx as int) + before.skip(idx as int) =~= before);
            vstd::seq_lib::lemma_multiset_commutative(
                before.take(idx as int),
                before.skip(idx as int),
            );
            assert(after.to_multiset() =~= before.to_multiset().insert(x@));
            assert(orig.take(i + 1) =~= orig.take(i as int).push(x@));
            assert(orig.take(i + 1).to_multiset() =~= orig.take(i as int).to_multiset().insert(
                x@,
            ));
        }
        i = i + 1;
    }
    proof {
        assert(orig.take(moves@.len() as int) =~= orig);
    }
    *moves = result;
}

/// A pawn capturing a queen outscores every move that captures nothing:
/// the capture term alone overwhelms all positional bonuses, so the
/// descending order puts such a capture ahead of every quiet move.
pub proof fn lemma_queen_capture_outscores(v: BoardView, move_count: u32, cap: Seq<char>, quiet: Seq<char>)
    requires
        spec_move_parse_ok(cap),
        spec_piece_kind_on(v, spec_square_of(cap[0], cap[1]) as usize) == Some(PieceKind::Pawn),
        spec_piece_kind_on(v, spec_square_of(cap[2], cap[3]) as usize) == Some(PieceKind::Queen),
        spec_move_parse_ok(quiet),
        spec_piece_kind_on(v, spec_square_of(quiet[2], quiet[3]) as usize) is None,
    ensures
        spec_move_score(v, move_count, cap) > spec_move_score(v, move_count, quiet),
{
    assert(spec_move_score(v, move_count, cap) >= 10 * 900 - 100 - 20);
    assert(spec_move_score(v, move_count, quiet) <= 50 + 30 + 40);
}

/// Score of a node with no legal moves: mate against the side to move,
/// preferring the shallower mate, or a stalemate's draw score.
pub open spec fn spec_terminal_score(depth: i32, in_check: bool) -> int {
    if in_check {
        MATE_SCORE + 100 * (depth as int)
    } else {
        0
    }
}

/// Within any practical depth, a mate's terminal score stays below
/// minus nine thousand pawns, and a stalemate's is exactly zero.
pub proof fn lemma_terminal_score_extreme(depth: i32)
    requires
        0 < depth < 1000,
    ensures
        spec_terminal_score(depth, true) < -900000,
        spec_terminal_score(depth, false) == 0,
{
}

/// Depth-limited minimax with alpha-beta pruning.  At depth zero the
/// static evaluation is returned with no move; with no legal moves the
/// terminal score.  Any move returned is one of the position's legal
/// moves.  A requested stop makes a node return its static evaluation.
pub fn alpha_beta_search(
    position: &Position,
    depth: i32,
    alpha: i64,
    beta: i64,
    is_maximizing: bool,
    params: &mut SearchParams,
    stop: &StopToken,
) -> (r: (i64, Option<String>))
    requires
        depth >= 0,
    ensures
        depth == 0 ==> r.0 == spec_evaluate_board(position.view, position.move_count) && r.1
            is None,
        depth > 0 && position.moves@.len() == 0 ==> r.1 is None && r.0 == spec_terminal_score(
            depth,
            position.view.in_check,
        ),
        r.1 is Some ==> exists|j: int|
            0 <= j < position.moves@.len() && (#[trigger] position.moves@[j]).text@ == r.1->0@,
        -SCORE_BOUND <= r.0 <= SCORE_BOUND,
        final(params).depth == old(params).depth,
        final(params).start_time == old(params).start_time,
        final(params).max_time == old(params).max_time,
        final(params).nodes >= old(params).nodes,
    decreases depth,
{
    broadcast use vstd::seq_lib::group_to_multiset_ensures;

    if params.nodes < u64::MAX {
        params.nodes = params.nodes + 1;
    }

    if depth == 0 {
        return (evaluate_board(&position.view, position.move_count), None);
    }

    let mut moves = position.generate_legal_moves();
    let ghost texts = position.moves@.map_values(|m: LegalMove| m.text@);
    order_moves(&mut moves, position);
    if moves.is_empty() {
        proof {
            assert(texts.len() == 0);
        }
        if position.view.in_check {
            return (MATE_SCORE + 100 * (depth as i64), None);
        }
        return (0, None);
    }
    if should_stop(stop) {
        return (evaluate_board(&position.view, position.move_count), None);
    }

    let mut best_move: Option<String> = None;
    let mut best_value: i64 = if is_maximizing {
        -SCORE_INF
    } else {
        SCORE_INF
    };
    let mut alpha = alpha;
    let mut beta = beta;

    let mut i: usize = 0;
    let mut pruned = false;
    while i < moves.len() && !pruned
        invariant
            i <= moves@.len(),
            moves@.map_values(|s: String| s@).to_multiset() == texts.to_multiset(),
            texts == position.moves@.map_values(|m: LegalMove| m.text@),
            -SCORE_BOUND <= best_value <= SCORE_BOUND,
            best_move is Some ==> exists|j: int|
                0 <= j < position.moves@.len() && (#[trigger] position.moves@[j]).text@
                    == best_move->0@,
            depth >= 1,
            params.depth == old(params).depth,
            params.start_time == old(params).start_time,
            params.max_time == old(params).max_time,
            params.nodes >= old(params).nodes,
        decreases moves@.len() - i, (if pruned {
            0int
        } else {
            1int
        }),
    {
        broadcast use vstd::seq_lib::group_to_multiset_ensures;

        let mv = moves[i].clone();
        match make_child(position, mv.as_str()) {
            Some(child) => {
                let (eval, _) = alpha_beta_search(
                    &child,
                    depth - 1,
                    alpha,
                    beta,
                    !is_maximizing,
                    params,
                    stop,
                );
                if is_maximizing && eval > best_value {
                    best_value = eval;
                    proof {
                        let views = moves@.map_values(|s: String| s@);
                        assert(views[i as int] == mv@);
                        assert(views.contains(mv@));
                        assert(texts.to_multiset().count(mv@) > 0);
                        assert(texts.contains(mv@));
                    }
                    best_move = Some(mv);
                    if eval > alpha {
                        alpha = eval;
                    }
                } else if !is_maximizing && eval < best_value {
                    best_value = eval;
                    proof {
                        let views = moves@.map_values(|s: String| s@);
                        assert(views[i as int] == mv@);
                        assert(views.contains(mv@));
                        assert(texts.to_multiset().count(mv@) > 0);
                        assert(texts.contains(mv@));
                    }
                    best_move = Some(mv);
                    if eval < beta {
                        beta = eval;
                    }
                }
                if beta <= alpha {
                    pruned = true;
                }
            },
            None => {},
        }
        i = i + 1;
    }

    (best_value, best_move)
}

/// Pick a move by iterative deepening with aspiration windows, searching
/// to the depth the engine is configured to (`DEFAULT_MAX_DEPTH`) within
/// a five-second budget: `None` exactly when the position has no legal
/// move, otherwise some legal move of the position, with the first legal
/// move held as a fallback from the start.
pub fn pick_move(position: &mut Position, stop: &StopToken) -> (r: Option<String>)
    ensures
        r is None <==> old(position).moves@.len() == 0,
        r is Some ==> exists|j: int|
            0 <= j < old(position).moves@.len() && (#[trigger] old(position).moves@[j]).text@
                == r->0@,
        *final(position) == *old(position),
{
    iterative_deepening(position, stop, 5000, DEFAULT_MAX_DEPTH)
}

/// The iterative-deepening driver: the full alpha-beta search is re-run
/// at each depth from one up to `max_depth`.  From depth four on, the
/// window is half a pawn around the previous best score, widened to the
/// sentinel on whichever side the score fell outside, and the depth
/// re-searched.  One progress line (depth, centipawn score, nodes,
/// elapsed milliseconds, best move) is emitted per resolved depth; the
/// budget and the stop token are observed between depths, and depth one
/// always completes.
#[verifier::rlimit(60)]
pub fn iterative_deepening(
    position: &mut Position,
    stop: &StopToken,
    max_time: u128,
    max_depth: i32,
) -> (r: Option<String>)
    requires
        max_depth >= 1,
    ensures
        r is None <==> old(position).moves@.len() == 0,
        r is Some ==> exists|j: int|
            0 <= j < old(position).moves@.len() && (#[trigger] old(position).moves@[j]).text@
                == r->0@,
        *final(position) == *old(position),
{
    let mut params = SearchParams::default();
    params.max_time = max_time;
    let mut best_move: Option<String> = None;
    let mut best_score: i64 = -SCORE_INF;
    let window_size: i64 = 50;

    print_search_start(position.move_count);

    let legal_moves = position.generate_legal_moves();
    let ghost texts = position.moves@.map_values(|m: LegalMove| m.text@);
    if legal_moves.is_empty() {
        proof {
            assert(texts.len() == 0);
        }
        return None;
    }

    proof {
        assert(texts.len() == position.moves@.len());
        assert(legal_moves@.map_values(|s: String| s@).len() == legal_moves@.len());
        assert(legal_moves@.len() > 0);
        assert(legal_moves@.map_values(|s: String| s@)[0] == texts[0]);
        assert(texts[0] == position.moves@[0].text@);
    }
    best_move = Some(legal_moves[0].clone());
    proof {
        assert(best_move->0@ == position.moves@[0].text@);
    }

    let mut depth: i32 = 1;
    while depth <= max_depth
        invariant
            1 <= depth <= max_depth + 1,
            window_size == 50,
            -SCORE_BOUND <= best_score || best_score == -SCORE_INF,
            best_score <= SCORE_BOUND || best_score == -SCORE_INF,
            best_move is Some,
            exists|j: int|
                0 <= j < position.moves@.len() && (#[trigger] position.moves@[j]).text@
                    == best_move->0@,
            *position == *old(position),
        decreases max_depth + 1 - depth,
    {
        params.depth = depth;
        params.start_time = instant_now();

        let mut alpha: i64 = if depth >= 4 {
            best_score - window_size
        } else {
            -SCORE_INF
        };
        let mut beta: i64 = if depth >= 4 {
            best_score + window_size
        } else {
            SCORE_INF
        };

        let mut research_needed = true;
        while research_needed
            invariant
                best_move is Some,
                exists|j: int|
                    0 <= j < position.moves@.len() && (#[trigger] position.moves@[j]).text@
                        == best_move->0@,
                -SCORE_BOUND <= best_score || best_score == -SCORE_INF,
                best_score <= SCORE_BOUND || best_score == -SCORE_INF,
                *position == *old(position),
                depth >= 1,
            decreases (if alpha != -SCORE_INF {
                1int
            } else {
                0int
            }) + (if beta != SCORE_INF {
                1int
            } else {
                0int
            }) + (if research_needed {
                1int
            } else {
                0int
            }),
        {
            let (score, mv) = alpha_beta_search(
                position,
                depth,
                alpha,
                beta,
                position.view.white_to_move,
                &mut params,
                stop,
            );

            if score <= alpha && alpha != -SCORE_INF {
                alpha = -SCORE_INF;
            } else if score >= beta && beta != SCORE_INF {
                beta = SCORE_INF;
            } else {
                research_needed = false;

                if mv.is_some() {
                    if score > best_score || best_move.is_none() {
                        best_move = mv;
                        best_score = score;
                    }
                }

                let pv: &str = match &best_move {
                    Some(s) => s.as_str(),
                    None => "(none)",
                };
                print_info(
                    depth,
                    best_score,
                    params.nodes,
                    elapsed_millis(&params.start_time),
                    pv,
                );
            }
        }

        if elapsed_millis(&params.start_time) >= params.max_time || should_stop(stop) {
            break;
        }
        if depth == max_depth {
            break;
        }
        depth = depth + 1;
    }

    best_move
}

} // verus!
