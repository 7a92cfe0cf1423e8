//! The trusted interface: declarations of the outside board service's
//! types and thin wrappers around its calls, plus the few std calls
//! (clock, console, character class) the engine needs.  Nothing in this
//! module is verified; each wrapper's doc comment names the outside
//! function relied on and what of it the contract states.

use std::str::FromStr;
use std::io::Write;
use vstd::prelude::*;

verus! {

#[verifier::external_type_specification]
#[verifier::external_body]
pub struct ExBoard(chess::Board);

#[verifier::external_type_specification]
#[verifier::external_body]
pub struct ExChessMove(chess::ChessMove);

#[verifier::external_type_specification]
#[verifier::external_body]
pub struct ExInstant(std::time::Instant);

/// Whether a character has the Unicode `White_Space` property.
pub uninterp spec fn spec_is_whitespace(c: char) -> bool;

/// Relies on char::is_whitespace: true exactly for characters with the
/// Unicode `White_Space` property.  The documentation lists ASCII space
/// and the controls tab through carriage return as white space; digits,
/// ASCII letters and the two sign characters are not listed.
#[verifier::external_body]
pub(crate) fn is_whitespace_char(c: char) -> (r: bool)
    ensures
        r == spec_is_whitespace(c),
        c == ' ' ==> r,
        c == '\t' ==> r,
        c == '\n' ==> r,
        c == '\r' ==> r,
        '0' <= c && c <= '9' ==> !r,
        'a' <= c && c <= 'z' ==> !r,
        'A' <= c && c <= 'Z' ==> !r,
        c == '-' || c == '+' ==> !r,
{
    c.is_whitespace()
}

/// Relies on chess::Board::default: the standard starting position.
#[verifier::external_body]
pub(crate) fn board_default() -> chess::Board {
    chess::Board::default()
}

/// Relies on chess::Board::from_str, which accepts a FEN string and
/// returns `Err` on malformed input.
#[verifier::external_body]
pub(crate) fn board_from_fen(fen: &str) -> Option<chess::Board> {
    chess::Board::from_str(fen).ok()
}

/// Relies on chess::Board::side_to_move.
#[verifier::external_body]
pub(crate) fn side_to_move_white(board: &chess::Board) -> bool {
    match board.side_to_move() {
        chess::Color::White => true,
        chess::Color::Black => false,
    }
}

/// Relies on chess::Board::pieces: the occupancy mask of one piece kind,
/// both colours combined.
#[verifier::external_body]
pub(crate) fn pieces_mask(board: &chess::Board, kind: crate::defs::PieceKind) -> u64 {
    board.pieces(
        match kind {
            crate::defs::PieceKind::Pawn => chess::Piece::Pawn,
            crate::defs::PieceKind::Knight => chess::Piece::Knight,
            crate::defs::PieceKind::Bishop => chess::Piece::Bishop,
            crate::defs::PieceKind::Rook => chess::Piece::Rook,
            crate::defs::PieceKind::Queen => chess::Piece::Queen,
            crate::defs::PieceKind::King => chess::Piece::King,
        },
    ).0
}

/// Relies on chess::Board::color_combined: the occupancy mask of one
/// colour.
#[verifier::external_body]
pub(crate) fn color_mask(board: &chess::Board, white: bool) -> u64 {
    board.color_combined(
        if white {
            chess::Color::White
        } else {
            chess::Color::Black
        },
    ).0
}

/// Relies on chess::Board::checkers: the mask of pieces giving check to
/// the side to move.
#[verifier::external_body]
pub(crate) fn checkers_mask(board: &chess::Board) -> u64 {
    board.checkers().0
}

/// Relies on chess::MoveGen::new_legal: every strictly legal move of the
/// position, as the crate's move descriptors.
#[verifier::external_body]
pub(crate) fn legal_moves_raw(board: &chess::Board) -> Vec<chess::ChessMove> {
    chess::MoveGen::new_legal(board).collect::<Vec<chess::ChessMove>>()
}

/// Relies on chess::ChessMove's Display impl: the source square as a file
/// letter `a..h` and rank digit `1..8`, the destination square the same
/// way, and for a promotion one trailing piece letter.  The crate's safe
/// constructors only build squares on the board, which keeps the
/// characters in these ranges; and this crate hands in only moves from
/// the crate's generator or parser, both of which promote solely to
/// queen, rook, knight or bishop.
#[verifier::external_body]
pub(crate) fn move_text(mv: &chess::ChessMove) -> (r: String)
    ensures
        r@.len() == 4 || r@.len() == 5,
        'a' <= r@[0] && r@[0] <= 'h',
        '1' <= r@[1] && r@[1] <= '8',
        'a' <= r@[2] && r@[2] <= 'h',
        '1' <= r@[3] && r@[3] <= '8',
        r@.len() == 5 ==> (r@[4] == 'q' || r@[4] == 'r' || r@[4] == 'n' || r@[4] == 'b'),
{
    mv.to_string()
}

/// Relies on chess::ChessMove::from_str: it accepts a string whose first
/// four characters name two squares, with a fifth character, when the
/// string has exactly five, naming a promotion piece; longer strings are
/// read by their first four characters.  The source slices bytes, so the
/// equivalence with the character-level shape is stated for ASCII input.
#[verifier::external_body]
pub(crate) fn parse_move(s: &str) -> (r: Option<chess::ChessMove>)
    ensures
        vstd::string::is_ascii(s) ==> (r is Some <==> crate::strutil::spec_move_parse_ok(s@)),
{
    chess::ChessMove::from_str(s).ok()
}

/// Relies on chess::Board::legal and chess::Board::make_move_new.  The
/// legality test works on unsanitised input and guards the application,
/// which the crate documents to panic when fed an illegal move (for one,
/// a move from an empty square).
#[verifier::external_body]
pub(crate) fn apply_move(board: &chess::Board, mv: &chess::ChessMove) -> Option<chess::Board> {
    if board.legal(*mv) {
        Some(board.make_move_new(*mv))
    } else {
        None
    }
}

/// Relies on std::time::Instant::now.
#[verifier::external_body]
pub(crate) fn instant_now() -> std::time::Instant {
    std::time::Instant::now()
}

/// Relies on std::time::Instant::elapsed: the wall-clock time since
/// `start`, here in whole milliseconds.
#[verifier::external_body]
pub(crate) fn elapsed_millis(start: &std::time::Instant) -> u128 {
    start.elapsed().as_millis()
}

/// Relies on writeln to standard output: the search progress line the
/// text protocol expects.
#[verifier::external_body]
pub(crate) fn print_info(depth: i32, score_cp: i64, nodes: u64, time_ms: u128, pv: &str) {
    let _ = writeln!(
        std::io::stdout(),
        "info depth {} score cp {} nodes {} time {} pv {}",
        depth,
        score_cp,
        nodes,
        time_ms,
        pv,
    );
}

/// Relies on writeln to standard output: the line announcing a
/// fixed-depth analysis.
#[verifier::external_body]
pub(crate) fn print_analysis_start(max_depth: i32) {
    let _ = writeln!(
        std::io::stdout(),
        "info string starting analysis at depth {}",
        max_depth,
    );
}

/// Relies on writeln to standard output: the note that the position has
/// no legal moves.
#[verifier::external_body]
pub(crate) fn print_no_legal_moves() {
    let _ = writeln!(std::io::stdout(), "info string no legal moves in position");
}

/// Relies on writeln to standard output: the informational line printed
/// when a search begins.
#[verifier::external_body]
pub(crate) fn print_search_start(move_count: u32) {
    let _ = writeln!(
        std::io::stdout(),
        "info string starting search at position with {} moves",
        move_count,
    );
}

} // verus!
