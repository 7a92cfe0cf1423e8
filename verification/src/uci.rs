//! Engine-side pieces of the text protocol: the cancellation token the
//! search polls, the `go` command's clock-field parser, and the
//! fixed-depth analysis entry.  The console loop itself lives outside
//! the library.

use vstd::prelude::*;

use crate::interop::print_analysis_start;
use crate::interop::print_no_legal_moves;
use crate::interop::print_info;
use crate::interop::instant_now;
use crate::interop::elapsed_millis;
use crate::movegen::LegalMove;
use crate::movegen::Position;
use crate::movepick::SearchParams;
use crate::movepick::SCORE_INF;
use crate::movepick::alpha_beta_search;
use crate::strutil::spec_parse_int;
use crate::strutil::spec_split_ws;
use crate::strutil::parse_i128;
use crate::strutil::parse_u32;
use crate::strutil::split_ws;
use crate::time_control::GameTime;

verus! {

/// Explicit cancellation token, passed into the search call tree and
/// observed at depth boundaries and at each node's terminal check.
pub struct StopToken {
    pub stop_requested: bool,
}

impl StopToken {
    pub fn new() -> (r: StopToken)
        ensures
            !r.stop_requested,
    {
        StopToken { stop_requested: false }
    }

    /// Ask the running search to wind down.
    pub fn request_stop(&mut self)
        ensures
            final(self).stop_requested,
    {
        self.stop_requested = true;
    }

    /// Clear the request before a new search.
    pub fn clear(&mut self)
        ensures
            !final(self).stop_requested,
    {
        self.stop_requested = false;
    }
}

/// Whether a stop has been requested on the token.
pub fn should_stop(token: &StopToken) -> (r: bool)
    ensures
        r == token.stop_requested,
{
    token.stop_requested
}

/// The integer a `go` clock field carries, with zero for an unreadable
/// field.
pub open spec fn spec_clock_field(t: Seq<char>) -> int {
    let p = spec_parse_int(t, true, i128::MIN as int, i128::MAX as int);
    if p is Some {
        p->0
    } else {
        0
    }
}

/// The moves-to-go count a `go` field carries, with zero for an
/// unreadable field.
pub open spec fn spec_mtg_field(t: Seq<char>) -> int {
    let p = spec_parse_int(t, false, 0, u32::MAX as int);
    if p is Some {
        p->0
    } else {
        0
    }
}

/// One step of reading a `go` command: the token at `i` may name a clock
/// field, whose value then stands in the following token.
pub open spec fn spec_go_update(toks: Seq<Seq<char>>, i: int, gt: GameTime) -> GameTime {
    if i + 1 < toks.len() {
        if toks[i] == "wtime"@ {
            GameTime { wtime: spec_clock_field(toks[i + 1]) as i128, ..gt }
        } else if toks[i] == "btime"@ {
            GameTime { btime: spec_clock_field(toks[i + 1]) as i128, ..gt }
        } else if toks[i] == "winc"@ {
            GameTime { winc: spec_clock_field(toks[i + 1]) as i128, ..gt }
        } else if toks[i] == "binc"@ {
            GameTime { binc: spec_clock_field(toks[i + 1]) as i128, ..gt }
        } else if toks[i] == "movestogo"@ {
            GameTime { movestogo: Some(spec_mtg_field(toks[i + 1]) as u32), ..gt }
        } else {
            gt
        }
    } else {
        gt
    }
}

/// Reading a `go` command from token `i` on, two tokens at a time.
pub open spec fn spec_go_from(toks: Seq<Seq<char>>, i: int, gt: GameTime) -> GameTime
    decreases toks.len() + 2 - i,
{
    if i < 0 || i >= toks.len() {
        gt
    } else {
        spec_go_from(toks, i + 2, spec_go_update(toks, i, gt))
    }
}

/// What `parse_go` leaves in the clock state: the `go` command's fields,
/// read at the odd token positions, over the previous state.
pub open spec fn spec_parse_go(cmd: Seq<char>, gt: GameTime) -> GameTime {
    spec_go_from(spec_split_ws(cmd), 1, gt)
}

fn token_is(t: &Vec<char>, kw: &str) -> (r: bool)
    ensures
        r == (t@ == kw@),
{
    let n = kw.unicode_len();
    if t.len() != n {
        proof {
            assert(t@.len() != kw@.len());
        }
        return false;
    }
    let mut i: usize = 0;
    while i < n
        invariant
            i <= n,
            n == kw@.len(),
            t@.len() == n,
            forall|k: int| 0 <= k < i ==> t@[k] == kw@[k],
        decreases n - i,
    {
        if t[i] != kw.get_char(i) {
            return false;
        }
        i = i + 1;
    }
    proof {
        assert(t@ =~= kw@);
    }
    true
}

/// Read the clock fields of a `go` command into the clock state.
pub fn parse_go(cmd: &str, game_time: &mut GameTime)
    ensures
        *final(game_time) == spec_parse_go(cmd@, *old(game_time)),
{
    let tokens = split_ws(cmd);
    let ghost toks = tokens@.map_values(|t: Vec<char>| t@);
    let ghost goal = spec_go_from(toks, 1, *old(game_time));
    let mut i: usize = 1;
    while i < tokens.len()
        invariant_except_break
            i >= 1,
            spec_go_from(toks, i as int, *game_time) == goal,
        invariant
            toks == tokens@.map_values(|t: Vec<char>| t@),
        ensures
            *game_time == goal,
        decreases tokens@.len() - i,
    {
        let ghost before = *game_time;
        if i + 1 < tokens.len() {
            if token_is(&tokens[i], "wtime") {
                let v = match parse_i128(&tokens[i + 1]) {
                    Some(x) => x,
                    None => 0,
                };
                game_time.wtime = v;
            } else if token_is(&tokens[i], "btime") {
                let v = match parse_i128(&tokens[i + 1]) {
                    Some(x) => x,
                    None => 0,
                };
                game_time.btime = v;
            } else if token_is(&tokens[i], "winc") {
                let v = match parse_i128(&tokens[i + 1]) {
                    Some(x) => x,
                    None => 0,
                };
                game_time.winc = v;
            } else if token_is(&tokens[i], "binc") {
                let v = match parse_i128(&tokens[i + 1]) {
                    Some(x) => x,
                    None => 0,
                };
                game_time.binc = v;
            } else if token_is(&tokens[i], "movestogo") {
                let v = match parse_u32(&tokens[i + 1]) {
                    Some(x) => x,
                    None => 0,
                };
                game_time.movestogo = Some(v);
            }
        }
        proof {
            assert(toks[i as int] == tokens@[i as int]@);
            if i + 1 < tokens@.len() {
                assert(toks[i + 1] == tokens@[i + 1]@);
            }
            assert(*game_time == spec_go_update(toks, i as int, before));
            assert(spec_go_from(toks, i + 2, *game_time) == goal);
        }
        if tokens.len() - i <= 2 {
            proof {
                assert(i + 2 >= toks.len());
                assert(*game_time == goal);
            }
            break;
        }
        i = i + 2;
    }
}

/// Analyse the position with full-window searches at depths one up to
/// the requested depth, keeping the deepest search's move: `None`
/// exactly when no legal move exists, otherwise some legal move of the
/// position, with the first legal move held as a fallback.
pub fn analyze_position(position: &mut Position, depth: u32, stop: &StopToken) -> (r: Option<
    String,
>)
    ensures
        r is None <==> old(position).moves@.len() == 0,
        r is Some ==> exists|j: int|
            0 <= j < old(position).moves@.len() && (#[trigger] old(position).moves@[j]).text@
                == r->0@,
        *final(position) == *old(position),
{
    let mut params = SearchParams::default();
    params.max_time = 300000;

    let max_depth: i32 = if depth > i32::MAX as u32 {
        i32::MAX
    } else {
        depth as i32
    };
    let mut best_move: Option<String> = None;

    print_analysis_start(max_depth);

    let legal_moves = position.generate_legal_moves();
    let ghost texts = position.moves@.map_values(|m: LegalMove| m.text@);
    if legal_moves.is_empty() {
        proof {
            assert(texts.len() == 0);
        }
        print_no_legal_moves();
        return None;
    }
    proof {
        assert(texts.len() == position.moves@.len());
        assert(legal_moves@.map_values(|s: String| s@).len() == legal_moves@.len());
        assert(legal_moves@.len() > 0);
        assert(legal_moves@.map_values(|s: String| s@)[0] == texts[0]);
        assert(texts[0] == position.moves@[0].text@);
    }
    best_move = Some(legal_moves[0].clone());
    proof {
        assert(best_move->0@ == position.moves@[0].text@);
    }

    let mut current_depth: i32 = 1;
    while current_depth <= max_depth
        invariant
            1 <= current_depth,
            best_move is Some,
            exists|j: int|
                0 <= j < position.moves@.len() && (#[trigger] position.moves@[j]).text@
                    == best_move->0@,
            *position == *old(position),
        decreases max_depth + 1 - current_depth,
    {
        params.depth = current_depth;
        params.start_time = instant_now();

        let (score, mv) = alpha_beta_search(
            position,
            current_depth,
            -SCORE_INF,
            SCORE_INF,
            position.view.white_to_move,
            &mut params,
            stop,
        );

        if mv.is_some() {
            best_move = mv;
            let pv: &str = match &best_move {
                Some(s) => s.as_str(),
                None => "(none)",
            };
            print_info(
                current_depth,
                score,
                params.nodes,
                elapsed_millis(&params.start_time),
                pv,
            );
        }
        if current_depth == max_depth {
            break;
        }
        current_depth = current_depth + 1;
    }

    best_move
}

} // verus!
