//! The pruning law of the search engine, stated over an abstract game
//! tree: alpha-beta with a full window computes exactly the minimax
//! value.  `spec_alpha_beta` mirrors `alpha_beta_search`'s loop — the
//! running best value, the raising of alpha (lowering of beta), and the
//! cut once the window closes — while `spec_minimax` folds over every
//! child.  Pruning changes the effort, never the full-window value.

use vstd::prelude::*;

use crate::movepick::SCORE_INF;

verus! {

/// A game tree: a leaf carries the static score of its position, a node
/// the subtrees its moves lead to, in search order.
pub enum GameTree {
    Leaf(int),
    Node(TreeList),
}

/// The children of a node.
pub enum TreeList {
    Nil,
    Cons(Box<GameTree>, Box<TreeList>),
}

pub open spec fn spec_max2(a: int, b: int) -> int {
    if a > b {
        a
    } else {
        b
    }
}

pub open spec fn spec_min2(a: int, b: int) -> int {
    if a < b {
        a
    } else {
        b
    }
}

/// Full minimax: every child is folded into the running best value.
pub open spec fn spec_minimax(t: GameTree, maximizing: bool) -> int
    decreases t,
{
    match t {
        GameTree::Leaf(v) => v,
        GameTree::Node(l) => spec_minimax_list(
            l,
            if maximizing {
                -SCORE_INF as int
            } else {
                SCORE_INF as int
            },
            maximizing,
        ),
    }
}

pub open spec fn spec_minimax_list(l: TreeList, best: int, maximizing: bool) -> int
    decreases l,
{
    match l {
        TreeList::Nil => best,
        TreeList::Cons(t, rest) => {
            let v = spec_minimax(*t, !maximizing);
            let best2 = if maximizing && v > best {
                v
            } else if !maximizing && v < best {
                v
            } else {
                best
            };
            spec_minimax_list(*rest, best2, maximizing)
        },
    }
}

/// Alpha-beta: the same fold, except that an improvement raises alpha
/// (lowers beta) and the remaining children are cut once `beta <= alpha`.
pub open spec fn spec_alpha_beta(t: GameTree, alpha: int, beta: int, maximizing: bool) -> int
    decreases t,
{
    match t {
        GameTree::Leaf(v) => v,
        GameTree::Node(l) => spec_ab_list(
            l,
            if maximizing {
                -SCORE_INF as int
            } else {
                SCORE_INF as int
            },
            alpha,
            beta,
            maximizing,
        ),
    }
}

pub open spec fn spec_ab_list(
    l: TreeList,
    best: int,
    alpha: int,
    beta: int,
    maximizing: bool,
) -> int
    decreases l,
{
    match l {
        TreeList::Nil => best,
        TreeList::Cons(t, rest) => {
            let v = spec_alpha_beta(*t, alpha, beta, !maximizing);
            if maximizing && v > best {
                let a2 = spec_max2(alpha, v);
                if beta <= a2 {
                    v
                } else {
                    spec_ab_list(*rest, v, a2, beta, maximizing)
                }
            } else if !maximizing && v < best {
                let b2 = spec_min2(beta, v);
                if b2 <= alpha {
                    v
                } else {
                    spec_ab_list(*rest, v, alpha, b2, maximizing)
                }
            } else {
                if beta <= alpha {
                    best
                } else {
                    spec_ab_list(*rest, best, alpha, beta, maximizing)
                }
            }
        },
    }
}

/// The running minimax fold never falls below (rises above) its
/// accumulator.
proof fn lemma_mm_list_acc_bound(l: TreeList, best: int, maximizing: bool)
    ensures
        maximizing ==> spec_minimax_list(l, best, maximizing) >= best,
        !maximizing ==> spec_minimax_list(l, best, maximizing) <= best,
    decreases l,
{
    match l {
        TreeList::Nil => {},
        TreeList::Cons(t, rest) => {
            let v = spec_minimax(*t, !maximizing);
            let best2 = if maximizing && v > best {
                v
            } else if !maximizing && v < best {
                v
            } else {
                best
            };
            lemma_mm_list_acc_bound(*rest, best2, maximizing);
        },
    }
}

/// The alpha-beta fold never falls below (rises above) its accumulator.
proof fn lemma_ab_list_acc_bound(l: TreeList, best: int, alpha: int, beta: int, maximizing: bool)
    ensures
        maximizing ==> spec_ab_list(l, best, alpha, beta, maximizing) >= best,
        !maximizing ==> spec_ab_list(l, best, alpha, beta, maximizing) <= best,
    decreases l,
{
    match l {
        TreeList::Nil => {},
        TreeList::Cons(t, rest) => {
            let v = spec_alpha_beta(*t, alpha, beta, !maximizing);
            if maximizing && v > best {
                let a2 = spec_max2(alpha, v);
                if beta <= a2 {
                } else {
                    lemma_ab_list_acc_bound(*rest, v, a2, beta, maximizing);
                }
            } else if !maximizing && v < best {
                let b2 = spec_min2(beta, v);
                if b2 <= alpha {
                } else {
                    lemma_ab_list_acc_bound(*rest, v, alpha, b2, maximizing);
                }
            } else {
                if beta <= alpha {
                } else {
                    lemma_ab_list_acc_bound(*rest, best, alpha, beta, maximizing);
                }
            }
        },
    }
}

/// Raising the accumulator of the minimax fold takes the maximum with it
/// (symmetrically for the minimizer).
proof fn lemma_mm_list_shift(l: TreeList, a: int, b: int, maximizing: bool)
    requires
        maximizing ==> a <= b,
        !maximizing ==> a >= b,
    ensures
        maximizing ==> spec_minimax_list(l, b, maximizing) == spec_max2(
            b,
            spec_minimax_list(l, a, maximizing),
        ),
        !maximizing ==> spec_minimax_list(l, b, maximizing) == spec_min2(
            b,
            spec_minimax_list(l, a, maximizing),
        ),
    decreases l,
{
    match l {
        TreeList::Nil => {},
        TreeList::Cons(t, rest) => {
            let v = spec_minimax(*t, !maximizing);
            if maximizing {
                let a2 = if v > a {
                    v
                } else {
                    a
                };
                let b2 = if v > b {
                    v
                } else {
                    b
                };
                lemma_mm_list_shift(*rest, a2, b2, maximizing);
                lemma_mm_list_acc_bound(*rest, a2, maximizing);
            } else {
                let a2 = if v < a {
                    v
                } else {
                    a
                };
                let b2 = if v < b {
                    v
                } else {
                    b
                };
                lemma_mm_list_shift(*rest, a2, b2, maximizing);
                lemma_mm_list_acc_bound(*rest, a2, maximizing);
            }
        },
    }
}

/// The window soundness of the pruned fold: within the window the pruned
/// value is the exact minimax value; outside it, the pruned value fails
/// on the same side.
proof fn lemma_ab(t: GameTree, alpha: int, beta: int, maximizing: bool)
    requires
        -SCORE_INF <= alpha < beta <= SCORE_INF,
    ensures
        ({
            let mval = spec_minimax(t, maximizing);
            let r = spec_alpha_beta(t, alpha, beta, maximizing);
            &&& (mval <= alpha ==> r <= alpha)
            &&& (mval >= beta ==> r >= beta)
            &&& (alpha < mval < beta ==> r == mval)
        }),
    decreases t,
{
    match t {
        GameTree::Leaf(v) => {},
        GameTree::Node(l) => {
            if maximizing {
                lemma_ab_list(l, -SCORE_INF as int, alpha, beta, maximizing);
            } else {
                lemma_ab_list(l, SCORE_INF as int, alpha, beta, maximizing);
            }
        },
    }
}

proof fn lemma_ab_list(l: TreeList, best: int, alpha: int, beta: int, maximizing: bool)
    requires
        -SCORE_INF <= alpha < beta <= SCORE_INF,
        maximizing ==> best <= alpha,
        !maximizing ==> best >= beta,
    ensures
        ({
            let mval = spec_minimax_list(l, best, maximizing);
            let r = spec_ab_list(l, best, alpha, beta, maximizing);
            &&& (mval <= alpha ==> r <= alpha)
            &&& (mval >= beta ==> r >= beta)
            &&& (alpha < mval < beta ==> r == mval)
        }),
    decreases l,
{
    match l {
        TreeList::Nil => {},
        TreeList::Cons(t, rest) => {
            let v_ab = spec_alpha_beta(*t, alpha, beta, !maximizing);
            let v_mm = spec_minimax(*t, !maximizing);
            lemma_ab(*t, alpha, beta, !maximizing);
            if maximizing {
                let best2 = if v_mm > best {
                    v_mm
                } else {
                    best
                };
                lemma_mm_list_acc_bound(*rest, best2, maximizing);
                if v_ab > best {
                    let a2 = spec_max2(alpha, v_ab);
                    if beta <= a2 {
                        // A cut: the child already fails high, and so does
                        // the whole node.
                        assert(v_ab >= beta);
                        assert(v_mm >= beta);
                        assert(best2 >= beta);
                    } else {
                        if alpha < v_mm < beta {
                            // The child is exact, so the accumulators agree.
                            assert(v_ab == v_mm);
                            assert(best2 == v_ab);
                            lemma_ab_list(*rest, v_ab, a2, beta, maximizing);
                            lemma_ab_list_acc_bound(*rest, v_ab, a2, beta, maximizing);
                            lemma_mm_list_acc_bound(*rest, v_ab, maximizing);
                        } else {
                            // The child fails low; both accumulators stay at
                            // or below alpha.
                            assert(v_mm <= alpha && v_ab <= alpha);
                            assert(a2 == alpha);
                            lemma_ab_list(*rest, v_ab, alpha, beta, maximizing);
                            if v_ab <= best2 {
                                lemma_mm_list_shift(*rest, v_ab, best2, maximizing);
                            } else {
                                lemma_mm_list_shift(*rest, best2, v_ab, maximizing);
                            }
                        }
                    }
                } else {
                    // No improvement: the window is unchanged.
                    assert(!(beta <= alpha));
                    lemma_ab_list(*rest, best, alpha, beta, maximizing);
                    if v_mm > best {
                        // The child failed low while improving the pure fold.
                        assert(v_mm <= alpha);
                        lemma_mm_list_shift(*rest, best, best2, maximizing);
                    }
                }
            } else {
                let best2 = if v_mm < best {
                    v_mm
                } else {
                    best
                };
                lemma_mm_list_acc_bound(*rest, best2, maximizing);
                if v_ab < best {
                    let b2 = spec_min2(beta, v_ab);
                    if b2 <= alpha {
                        assert(v_ab <= alpha);
                        assert(v_mm <= alpha);
                        assert(best2 <= alpha);
                    } else {
                        if alpha < v_mm < beta {
                            assert(v_ab == v_mm);
                            assert(best2 == v_ab);
                            lemma_ab_list(*rest, v_ab, alpha, b2, maximizing);
                            lemma_ab_list_acc_bound(*rest, v_ab, alpha, b2, maximizing);
                            lemma_mm_list_acc_bound(*rest, v_ab, maximizing);
                        } else {
                            assert(v_mm >= beta && v_ab >= beta);
                            assert(b2 == beta);
                            lemma_ab_list(*rest, v_ab, alpha, beta, maximizing);
                            if v_ab >= best2 {
                                lemma_mm_list_shift(*rest, v_ab, best2, maximizing);
                            } else {
                                lemma_mm_list_shift(*rest, best2, v_ab, maximizing);
                            }
                        }
                    }
                } else {
                    assert(!(beta <= alpha));
                    lemma_ab_list(*rest, best, alpha, beta, maximizing);
                    if v_mm < best {
                        assert(v_mm >= beta);
                        lemma_mm_list_shift(*rest, best, best2, maximizing);
                    }
                }
            }
        },
    }
}

/// Every leaf score lies strictly inside the sentinel window, and no
/// node is childless (the search turns childless positions into terminal
/// leaves before any fold).
pub open spec fn spec_tree_bounded(t: GameTree) -> bool
    decreases t,
{
    match t {
        GameTree::Leaf(v) => -SCORE_INF < v < SCORE_INF,
        GameTree::Node(l) => !(l is Nil) && spec_list_bounded(l),
    }
}

pub open spec fn spec_list_bounded(l: TreeList) -> bool
    decreases l,
{
    match l {
        TreeList::Nil => true,
        TreeList::Cons(t, rest) => spec_tree_bounded(*t) && spec_list_bounded(*rest),
    }
}

proof fn lemma_mm_bounded(t: GameTree, maximizing: bool)
    requires
        spec_tree_bounded(t),
    ensures
        -SCORE_INF < spec_minimax(t, maximizing) < SCORE_INF,
    decreases t,
{
    match t {
        GameTree::Leaf(v) => {},
        GameTree::Node(l) => {
            match l {
                TreeList::Nil => {},
                TreeList::Cons(first, rest) => {
                    let v = spec_minimax(*first, !maximizing);
                    lemma_mm_bounded(*first, !maximizing);
                    lemma_mm_list_stays(*rest, v, maximizing);
                    lemma_mm_list_acc_bound(*rest, v, maximizing);
                },
            }
        },
    }
}

/// The fold either keeps its accumulator or lands on some child's
/// minimax value, which a bounded list keeps strictly inside the
/// sentinels.
proof fn lemma_mm_list_stays(l: TreeList, best: int, maximizing: bool)
    requires
        spec_list_bounded(l),
    ensures
        spec_minimax_list(l, best, maximizing) == best || -SCORE_INF < spec_minimax_list(
            l,
            best,
            maximizing,
        ) < SCORE_INF,
    decreases l,
{
    match l {
        TreeList::Nil => {},
        TreeList::Cons(t, rest) => {
            let v = spec_minimax(*t, !maximizing);
            lemma_mm_bounded(*t, !maximizing);
            let best2 = if maximizing && v > best {
                v
            } else if !maximizing && v < best {
                v
            } else {
                best
            };
            lemma_mm_list_stays(*rest, best2, maximizing);
        },
    }
}

/// Alpha-beta over the full window computes the minimax value exactly:
/// pruning changes the search effort, never the value.
pub proof fn lemma_alpha_beta_equals_minimax(t: GameTree, maximizing: bool)
    requires
        spec_tree_bounded(t),
    ensures
        spec_alpha_beta(t, -SCORE_INF as int, SCORE_INF as int, maximizing) == spec_minimax(
            t,
            maximizing,
        ),
{
    lemma_mm_bounded(t, maximizing);
    lemma_ab(t, -SCORE_INF as int, SCORE_INF as int, maximizing);
}

} // verus!
