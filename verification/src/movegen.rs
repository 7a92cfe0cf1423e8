//! The engine's position: the outside board service's state paired with a
//! plain-value view of everything the verified logic reads, the legal
//! moves of the position, and the half-move counter.

use vstd::prelude::*;

use crate::defs::BoardView;
use crate::defs::PieceKind;
use crate::interop::apply_move;
use crate::interop::board_default;
use crate::interop::board_from_fen;
use crate::interop::checkers_mask;
use crate::interop::color_mask;
use crate::interop::legal_moves_raw;
use crate::interop::move_text;
use crate::interop::parse_move;
use crate::interop::pieces_mask;
use crate::interop::side_to_move_white;
use crate::bitboard::spec_get_bit;
use crate::strutil::spec_move_parse_ok;
use crate::strutil::spec_parse_int;
use crate::strutil::spec_split_ws;
use crate::strutil::parse_move_squares;
use crate::strutil::parse_u32;
use crate::strutil::split_ws;

verus! {

/// One legal move: its coordinate-notation text and the board service's
/// own descriptor, kept so the move can be applied without re-parsing.
pub struct LegalMove {
    pub text: String,
    pub mv: chess::ChessMove,
}

/// A position: the board service's state, the plain view the evaluation
/// and ordering logic read, the legal moves, and the half-move counter.
/// Every search branch builds an independent child position; nothing is
/// rolled back.
pub struct Position {
    pub board: chess::Board,
    pub view: BoardView,
    pub moves: Vec<LegalMove>,
    pub move_count: u32,
}

impl Position {
    /// Every stored move text has the coordinate-notation shape the
    /// orderer and the appliers read: this is what the constructors
    /// establish and every applied move preserves.
    pub open spec fn wf(self) -> bool {
        forall|i: int|
            0 <= i < self.moves@.len() ==> spec_move_parse_ok((#[trigger] self.moves@[i]).text@)
    }
}

/// The half-move counter after one more move: it increases until the
/// counter type is exhausted, where it stays put.
pub open spec fn spec_next_count(c: u32) -> u32 {
    if c < u32::MAX {
        (c + 1) as u32
    } else {
        c
    }
}

/// Half-move count a FEN string carries: twice its sixth
/// (whitespace-separated) field, read as a decimal number with 1 for an
/// unreadable field; zero when the field is missing.
pub open spec fn spec_fen_move_count(s: Seq<char>) -> int {
    let toks = spec_split_ws(s);
    if toks.len() > 5 {
        let p = spec_parse_int(toks[5], false, 0, u32::MAX as int);
        let full = if p is Some {
            p->0
        } else {
            1
        };
        (2 * full) % 0x100000000
    } else {
        0
    }
}

fn fen_move_count(fen: &str) -> (r: u32)
    ensures
        r == spec_fen_move_count(fen@),
{
    let tokens = split_ws(fen);
    if tokens.len() > 5 {
        let full: u32 = match parse_u32(&tokens[5]) {
            Some(v) => v,
            None => 1,
        };
        proof {
            assert(tokens@.map_values(|t: Vec<char>| t@)[5] == tokens@[5]@);
        }
        let prod: u64 = (full as u64) * 2;
        (prod % 0x100000000) as u32
    } else {
        0
    }
}

/// Assemble a position around a board state: extract the plain view and
/// generate the legal move list.
fn position_from_board(board: chess::Board, move_count: u32) -> (r: Position)
    ensures
        r.move_count == move_count,
        r.wf(),
{
    let pawns = pieces_mask(&board, PieceKind::Pawn);
    let knights = pieces_mask(&board, PieceKind::Knight);
    let bishops = pieces_mask(&board, PieceKind::Bishop);
    let rooks = pieces_mask(&board, PieceKind::Rook);
    let queens = pieces_mask(&board, PieceKind::Queen);
    let kings = pieces_mask(&board, PieceKind::King);
    let white = color_mask(&board, true);
    let black = color_mask(&board, false);
    let white_to_move = side_to_move_white(&board);
    let in_check = checkers_mask(&board) != 0;
    let view = BoardView {
        pawns,
        knights,
        bishops,
        rooks,
        queens,
        kings,
        white,
        black,
        white_to_move,
        in_check,
    };

    let mut raw = legal_moves_raw(&board);
    let mut rev: Vec<LegalMove> = Vec::new();
    loop
        invariant
            forall|i: int|
                0 <= i < rev@.len() ==> spec_move_parse_ok((#[trigger] rev@[i]).text@),
        decreases raw@.len(),
    {
        match raw.pop() {
            Some(m) => {
                let text = move_text(&m);
                proof {
                    assert(spec_move_parse_ok(text@));
                }
                rev.push(LegalMove { text, mv: m });
            },
            None => {
                break;
            },
        }
    }
    let mut moves: Vec<LegalMove> = Vec::new();
    loop
        invariant
            forall|i: int|
                0 <= i < rev@.len() ==> spec_move_parse_ok((#[trigger] rev@[i]).text@),
            forall|i: int|
                0 <= i < moves@.len() ==> spec_move_parse_ok((#[trigger] moves@[i]).text@),
        decreases rev@.len(),
    {
        match rev.pop() {
            Some(x) => {
                moves.push(x);
            },
            None => {
                break;
            },
        }
    }

    Position { board, view, moves, move_count }
}

impl Position {
    /// Build a position from a FEN string; malformed input falls back to
    /// the standard starting position.  The half-move counter is read
    /// from the FEN's fullmove field.
    pub fn from_fen(fen: &str) -> (r: Position)
        ensures
            r.move_count == spec_fen_move_count(fen@),
            r.wf(),
    {
        let board = match board_from_fen(fen) {
            Some(b) => b,
            None => board_default(),
        };
        let move_count = fen_move_count(fen);
        position_from_board(board, move_count)
    }

    /// Apply a move given in coordinate notation, replacing the board
    /// state and stepping the half-move counter.  On an unparseable or
    /// illegal move the position is left unchanged and `false` returned.
    pub fn make_move(&mut self, mv: &str) -> (r: bool)
        ensures
            r ==> final(self).move_count == spec_next_count(old(self).move_count),
            r ==> final(self).wf(),
            !r ==> *final(self) == *old(self),
            vstd::string::is_ascii(mv) && !spec_move_parse_ok(mv@) ==> !r,
    {
        let child = match make_child(self, mv) {
            Some(p) => p,
            None => {
                return false;
            },
        };
        *self = child;
        true
    }

    /// The legal moves of the position, in coordinate notation, in the
    /// board service's generation order.
    pub fn generate_legal_moves(&self) -> (r: Vec<String>)
        ensures
            r@.map_values(|s: String| s@) == self.moves@.map_values(|m: LegalMove| m.text@),
            self.wf() ==> forall|i: int|
                0 <= i < r@.len() ==> spec_move_parse_ok((#[trigger] r@[i])@),
    {
        let mut out: Vec<String> = Vec::new();
        let mut i: usize = 0;
        while i < self.moves.len()
            invariant
                i <= self.moves@.len(),
                out@.map_values(|s: String| s@) =~= self.moves@.map_values(
                    |m: LegalMove| m.text@,
                ).take(i as int),
            decreases self.moves@.len() - i,
        {
            let ghost old_out = out@;
            out.push(self.moves[i].text.clone());
            proof {
                assert(out@.map_values(|s: String| s@) =~= old_out.map_values(|s: String| s@)
                    + seq![self.moves@[i as int].text@]);
                assert(out@.map_values(|s: String| s@) =~= self.moves@.map_values(
                    |m: LegalMove| m.text@,
                ).take(i + 1));
            }
            i = i + 1;
        }
        proof {
            assert(self.moves@.map_values(|m: LegalMove| m.text@).take(
                self.moves@.len() as int,
            ) =~= self.moves@.map_values(|m: LegalMove| m.text@));
            if self.wf() {
                assert forall|j: int| 0 <= j < out@.len() implies spec_move_parse_ok(
                    (#[trigger] out@[j])@,
                ) by {
                    assert(out@.map_values(|s: String| s@)[j] == out@[j]@);
                    assert(self.moves@.map_values(|m: LegalMove| m.text@)[j]
                        == self.moves@[j].text@);
                }
            }
        }
        out
    }

    /// Whether a move lands on an occupied square.
    pub fn is_capture(&self, mv: &str) -> (r: bool)
        ensures
            r == (spec_move_parse_ok(mv@) && spec_get_bit(
                self.view.white | self.view.black,
                crate::strutil::spec_square_of(mv@[2], mv@[3]) as usize,
            )),
    {
        match parse_move_squares(mv) {
            Some((_, to)) => crate::bitboard::get_bit(self.view.white | self.view.black, to),
            None => false,
        }
    }

    /// Whether White is to move.
    pub fn white_to_move(&self) -> (r: bool)
        ensures
            r == self.view.white_to_move,
    {
        self.view.white_to_move
    }
}

/// The occupancy mask of one piece kind of one colour, read off the
/// board service's state.
pub fn create_bitboard(board: &chess::Board, piece: PieceKind, white: bool) -> u64 {
    pieces_mask(board, piece) & color_mask(board, white)
}

/// The position after one move of `pos`, as an independent value; `None`
/// when the text does not parse or the move is not legal here.
pub fn make_child(pos: &Position, mv: &str) -> (r: Option<Position>)
    ensures
        r is Some ==> r->0.move_count == spec_next_count(pos.move_count),
        r is Some ==> r->0.wf(),
        vstd::string::is_ascii(mv) && !spec_move_parse_ok(mv@) ==> r is None,
{
    let parsed = match parse_move(mv) {
        Some(m) => m,
        None => {
            return None;
        },
    };
    let next_board = match apply_move(&pos.board, &parsed) {
        Some(b) => b,
        None => {
            return None;
        },
    };
    let next_count = if pos.move_count < u32::MAX {
        pos.move_count + 1
    } else {
        pos.move_count
    };
    Some(position_from_board(next_board, next_count))
}

} // verus!
