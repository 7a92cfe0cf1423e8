//! Verified text helpers: whitespace tokenisation, decimal integer
//! parsing with Rust's `from_str` semantics, and coordinate-notation
//! square extraction.

use vstd::prelude::*;

use crate::interop::spec_is_whitespace;
use crate::interop::is_whitespace_char;

verus! {

/// Longest whitespace-free prefix of `s`.
pub open spec fn leading_token(s: Seq<char>) -> Seq<char>
    decreases s.len(),
{
    if s.len() == 0 || spec_is_whitespace(s[0]) {
        Seq::empty()
    } else {
        seq![s[0]] + leading_token(s.drop_first())
    }
}

/// The whitespace-separated tokens of `s`, in order.
pub open spec fn spec_split_ws(s: Seq<char>) -> Seq<Seq<char>>
    decreases s.len(),
    via spec_split_ws_decreases
{
    if s.len() == 0 {
        Seq::empty()
    } else if spec_is_whitespace(s[0]) {
        spec_split_ws(s.drop_first())
    } else {
        seq![leading_token(s)] + spec_split_ws(s.skip(leading_token(s).len() as int))
    }
}

#[via_fn]
proof fn spec_split_ws_decreases(s: Seq<char>) {
    if s.len() > 0 && !spec_is_whitespace(s[0]) {
        assert(leading_token(s) == seq![s[0]] + leading_token(s.drop_first()));
        assert(leading_token(s).len() >= 1);
        lemma_leading_token_len(s);
    }
}

proof fn lemma_leading_token_len(s: Seq<char>)
    ensures
        leading_token(s).len() <= s.len(),
    decreases s.len(),
{
    if s.len() > 0 && !spec_is_whitespace(s[0]) {
        lemma_leading_token_len(s.drop_first());
    }
}

/// Split a string into its whitespace-separated tokens.
pub fn split_ws(s: &str) -> (r: Vec<Vec<char>>)
    ensures
        r@.map_values(|t: Vec<char>| t@) == spec_split_ws(s@),
{
    let n = s.unicode_len();
    let mut tokens: Vec<Vec<char>> = Vec::new();
    let mut i: usize = 0;
    proof {
        assert(s@.skip(0) =~= s@);
    }
    while i < n
        invariant
            i <= n,
            n == s@.len(),
            tokens@.map_values(|t: Vec<char>| t@) + spec_split_ws(s@.skip(i as int)) == spec_split_ws(s@),
        decreases n - i,
    {
        let c = s.get_char(i);
        if is_whitespace_char(c) {
            proof {
                assert(s@.skip(i as int).drop_first() =~= s@.skip(i + 1));
            }
            i = i + 1;
        } else {
            let ghost start = i as int;
            let mut tok: Vec<char> = Vec::new();
            tok.push(c);
            proof {
                assert(s@.skip(start).subrange(0, 1) =~= seq![s@[start]]);
            }
            let mut j: usize = i + 1;
            let mut hit_ws = false;
            while j < n && !hit_ws
                invariant
                    (i as int) < j <= n,
                    n == s@.len(),
                    start == i as int,
                    tok@ =~= s@.subrange(start, j as int),
                    forall|k: int| start <= k < j ==> !spec_is_whitespace(s@[k]),
                    hit_ws ==> j < n && spec_is_whitespace(s@[j as int]),
                decreases n - j, (if hit_ws { 0int } else { 1int }),
            {
                let c2 = s.get_char(j);
                if is_whitespace_char(c2) {
                    hit_ws = true;
                } else {
                    tok.push(c2);
                    proof {
                        assert(s@.subrange(start, j as int) + seq![s@[j as int]] =~= s@.subrange(
                            start,
                            j + 1,
                        ));
                    }
                    j = j + 1;
                }
            }
            proof {
                assert(j == n || spec_is_whitespace(s@[j as int]));
                lemma_leading_token_shape(s@, start, j as int);
                assert(leading_token(s@.skip(start)) =~= s@.subrange(start, j as int));
                assert(s@.skip(start).skip(leading_token(s@.skip(start)).len() as int) =~= s@.skip(
                    j as int,
                ));
                assert(spec_split_ws(s@.skip(start)) == seq![leading_token(s@.skip(start))]
                    + spec_split_ws(s@.skip(j as int)));
            }
            let ghost old_tokens = tokens@;
            tokens.push(tok);
            proof {
                assert(tokens@.map_values(|t: Vec<char>| t@) =~= old_tokens.map_values(
                    |t: Vec<char>| t@,
                ) + seq![tok@]);
            }
            i = j;
        }
    }
    proof {
        assert(s@.skip(n as int) =~= Seq::<char>::empty());
        assert(tokens@.map_values(|t: Vec<char>| t@) =~= spec_split_ws(s@));
    }
    tokens
}

/// Within `s`, the run `start..j` is whitespace-free and `j` is the end
/// of the string or a whitespace position, so the leading token of
/// `s.skip(start)` is exactly that run.
proof fn lemma_leading_token_shape(s: Seq<char>, start: int, j: int)
    requires
        0 <= start < j <= s.len(),
        forall|k: int| start <= k < j ==> !spec_is_whitespace(s[k]),
        j == s.len() || spec_is_whitespace(s[j]),
    ensures
        leading_token(s.skip(start)) =~= s.subrange(start, j),
    decreases j - start,
{
    let t = s.skip(start);
    assert(t[0] == s[start]);
    assert(!spec_is_whitespace(t[0]));
    assert(leading_token(t) == seq![t[0]] + leading_token(t.drop_first()));
    assert(t.drop_first() =~= s.skip(start + 1));
    if start + 1 == j {
        if j == s.len() {
            assert(s.skip(start + 1).len() == 0);
        } else {
            assert(s.skip(start + 1)[0] == s[j]);
        }
        assert(leading_token(s.skip(start + 1)) =~= Seq::<char>::empty());
    } else {
        lemma_leading_token_shape(s, start + 1, j);
    }
}

/// Whether every character of `t` is a decimal digit.
pub open spec fn all_digits(t: Seq<char>) -> bool {
    forall|i: int| 0 <= i < t.len() ==> '0' <= #[trigger] t[i] && t[i] <= '9'
}

pub open spec fn spec_digit(c: char) -> int {
    c as int - '0' as int
}

/// Left fold of decimal digits from index `i` onward onto `acc`.
pub open spec fn digits_fold(t: Seq<char>, i: int, acc: int) -> int
    decreases t.len() - i,
{
    if i < 0 || i >= t.len() {
        acc
    } else {
        digits_fold(t, i + 1, acc * 10 + spec_digit(t[i]))
    }
}

/// The integer `t` denotes with Rust's `from_str` semantics for an
/// integer type with range `min..=max`: an optional sign (a minus only
/// where the type is signed), then at least one digit, and a value within
/// the range; anything else is `None`.
pub open spec fn spec_parse_int(t: Seq<char>, neg_allowed: bool, min: int, max: int) -> Option<
    int,
> {
    if t.len() == 0 {
        None
    } else {
        let neg = t[0] == '-';
        let body = if t[0] == '-' || t[0] == '+' {
            t.drop_first()
        } else {
            t
        };
        if neg && !neg_allowed {
            None
        } else if body.len() == 0 || !all_digits(body) {
            None
        } else {
            let v = if neg {
                -digits_fold(body, 0, 0)
            } else {
                digits_fold(body, 0, 0)
            };
            if min <= v && v <= max {
                Some(v)
            } else {
                None
            }
        }
    }
}

proof fn lemma_digits_fold_lower(t: Seq<char>, i: int, acc: int)
    requires
        0 <= i <= t.len(),
        acc >= 0,
        all_digits(t),
    ensures
        digits_fold(t, i, acc) >= acc,
        i < t.len() ==> digits_fold(t, i, acc) >= 10 * acc,
    decreases t.len() - i,
{
    if i < t.len() {
        assert('0' <= t[i] && t[i] <= '9');
        lemma_digits_fold_lower(t, i + 1, acc * 10 + spec_digit(t[i]));
    }
}

/// Accumulate the digit magnitude of `body`; `None` when a non-digit
/// appears or the magnitude is certainly outside `max_mag`.
fn digits_magnitude(body: &Vec<char>, max_mag: Ghost<int>) -> (r: Option<u128>)
    requires
        max_mag@ <= 170141183460469231731687303715884105728int,
        max_mag@ >= 0,
    ensures
        match r {
            Some(mag) => all_digits(body@) && body@.len() > 0 && mag == digits_fold(body@, 0, 0),
            None => body@.len() == 0 || !all_digits(body@) || digits_fold(body@, 0, 0) > max_mag@,
        },
{
    if body.len() == 0 {
        return None;
    }
    let mut mag: u128 = 0;
    let mut k: usize = 0;
    while k < body.len()
        invariant
            0 <= k <= body@.len(),
            0 <= max_mag@ <= 170141183460469231731687303715884105728int,
            forall|x: int| 0 <= x < k ==> '0' <= #[trigger] body@[x] && body@[x] <= '9',
            digits_fold(body@, k as int, mag as int) == digits_fold(body@, 0, 0),
        decreases body@.len() - k,
    {
        let c = body[k];
        if c < '0' || c > '9' {
            proof {
                assert(!('0' <= body@[k as int] && body@[k as int] <= '9'));
            }
            return None;
        }
        let d: u128 = (c as u32 - '0' as u32) as u128;
        if mag > 34028236692093846346337460743176821144u128 {
            proof {
                assert(mag as int >= 34028236692093846346337460743176821145int);
                assert(10 * (mag as int) >= 340282366920938463463374607431768211450int)
                    by (nonlinear_arith)
                    requires
                        mag as int >= 34028236692093846346337460743176821145int,
                ;
                assert(10 * (mag as int) > max_mag@);
                if all_digits(body@) {
                    lemma_digits_fold_lower(body@, k as int, mag as int);
                    assert(digits_fold(body@, 0, 0) >= 10 * (mag as int));
                    assert(digits_fold(body@, 0, 0) > max_mag@);
                }
            }
            return None;
        }
        mag = mag * 10 + d;
        k = k + 1;
    }
    proof {
        assert(all_digits(body@));
    }
    Some(mag)
}

/// Parse a signed 128-bit integer, with Rust's `from_str` semantics.
pub fn parse_i128(t: &Vec<char>) -> (r: Option<i128>)
    ensures
        match r {
            Some(v) => spec_parse_int(t@, true, i128::MIN as int, i128::MAX as int) == Some(
                v as int,
            ),
            None => spec_parse_int(t@, true, i128::MIN as int, i128::MAX as int) is None,
        },
{
    if t.len() == 0 {
        return None;
    }
    let first = t[0];
    let neg = first == '-';
    let mut body: Vec<char> = Vec::new();
    let mut idx: usize = if first == '-' || first == '+' {
        1
    } else {
        0
    };
    let ghost base = idx as int;
    while idx < t.len()
        invariant
            base <= idx <= t@.len(),
            base == 0 || base == 1,
            body@ =~= t@.subrange(base, idx as int),
        decreases t@.len() - idx,
    {
        let c = t[idx];
        body.push(c);
        proof {
            assert(t@.subrange(base, idx as int) + seq![t@[idx as int]] =~= t@.subrange(
                base,
                idx + 1,
            ));
        }
        idx = idx + 1;
    }
    proof {
        if base == 1 {
            assert(body@ =~= t@.drop_first());
        } else {
            assert(body@ =~= t@);
        }
    }
    let mag = match digits_magnitude(&body, Ghost(0x80000000000000000000000000000000int)) {
        Some(m) => m,
        None => {
            return None;
        },
    };
    if neg {
        if mag > 0x80000000000000000000000000000000u128 {
            None
        } else if mag == 0x80000000000000000000000000000000u128 {
            Some(i128::MIN)
        } else {
            Some(-(mag as i128))
        }
    } else {
        if mag > i128::MAX as u128 {
            None
        } else {
            Some(mag as i128)
        }
    }
}

/// Parse an unsigned 32-bit integer, with Rust's `from_str` semantics.
pub fn parse_u32(t: &Vec<char>) -> (r: Option<u32>)
    ensures
        match r {
            Some(v) => spec_parse_int(t@, false, 0, u32::MAX as int) == Some(v as int),
            None => spec_parse_int(t@, false, 0, u32::MAX as int) is None,
        },
{
    if t.len() == 0 {
        return None;
    }
    let first = t[0];
    if first == '-' {
        return None;
    }
    let mut body: Vec<char> = Vec::new();
    let mut idx: usize = if first == '+' {
        1
    } else {
        0
    };
    let ghost base = idx as int;
    while idx < t.len()
        invariant
            base <= idx <= t@.len(),
            base == 0 || base == 1,
            body@ =~= t@.subrange(base, idx as int),
        decreases t@.len() - idx,
    {
        let c = t[idx];
        body.push(c);
        proof {
            assert(t@.subrange(base, idx as int) + seq![t@[idx as int]] =~= t@.subrange(
                base,
                idx + 1,
            ));
        }
        idx = idx + 1;
    }
    proof {
        if base == 1 {
            assert(body@ =~= t@.drop_first());
        } else {
            assert(body@ =~= t@);
        }
    }
    let mag = match digits_magnitude(&body, Ghost(u32::MAX as int)) {
        Some(m) => m,
        None => {
            return None;
        },
    };
    if mag > u32::MAX as u128 {
        None
    } else {
        Some(mag as u32)
    }
}

pub open spec fn valid_file_char(c: char) -> bool {
    'a' <= c && c <= 'h'
}

pub open spec fn valid_rank_char(c: char) -> bool {
    '1' <= c && c <= '8'
}

/// Square index a file letter and rank digit denote.
pub open spec fn spec_square_of(file_c: char, rank_c: char) -> int {
    (rank_c as int - '1' as int) * 8 + (file_c as int - 'a' as int)
}

/// Whether a move string parses in coordinate notation: two squares, and
/// for a five-character string a promotion piece letter.  Longer strings
/// are read by their first four characters.
pub open spec fn spec_move_parse_ok(s: Seq<char>) -> bool {
    s.len() >= 4 && valid_file_char(s[0]) && valid_rank_char(s[1]) && valid_file_char(s[2])
        && valid_rank_char(s[3]) && (s.len() == 5 ==> (s[4] == 'q' || s[4] == 'r' || s[4] == 'n'
        || s[4] == 'b'))
}

/// Source and destination squares of a coordinate-notation move string.
pub fn parse_move_squares(s: &str) -> (r: Option<(usize, usize)>)
    ensures
        r is Some <==> spec_move_parse_ok(s@),
        r is Some ==> {
            let (from, to) = r->0;
            from == spec_square_of(s@[0], s@[1]) && to == spec_square_of(s@[2], s@[3]) && from < 64
                && to < 64
        },
{
    let n = s.unicode_len();
    if n < 4 {
        return None;
    }
    let c0 = s.get_char(0);
    let c1 = s.get_char(1);
    let c2 = s.get_char(2);
    let c3 = s.get_char(3);
    if !(c0 >= 'a' && c0 <= 'h' && c1 >= '1' && c1 <= '8' && c2 >= 'a' && c2 <= 'h' && c3 >= '1'
        && c3 <= '8') {
        return None;
    }
    if n == 5 {
        let c4 = s.get_char(4);
        if !(c4 == 'q' || c4 == 'r' || c4 == 'n' || c4 == 'b') {
            return None;
        }
    }
    let from = ((c1 as u32 - '1' as u32) * 8 + (c0 as u32 - 'a' as u32)) as usize;
    let to = ((c3 as u32 - '1' as u32) * 8 + (c2 as u32 - 'a' as u32)) as usize;
    Some((from, to))
}

} // verus!
