//! Alpha-beta correctness on synthetic game trees.
//!
//! The engine's search over chess positions is heuristic by design
//! (transposition entries, extensions and reductions shape its
//! scores), so the classical alpha-beta property is stated and
//! proved here on explicit game trees: pruned search over the full
//! window returns exactly the value of exhaustive minimax, and a
//! narrowed window only ever fails low or high truthfully. Deeper
//! search can therefore never report a worse best score than
//! exhaustive minimax of the same tree.
//!
//! A tree lives in an arena: each node holds its side, a leaf score,
//! and the indices of its children, which always point forward.

use vstd::prelude::*;

use crate::constants::CHECKMATE_EVAL;

verus! {

/// One node: whether it maximizes, its score if it is a leaf, and
/// its children's arena indices.
pub struct GameNode {
    pub maximizing: bool,
    pub score: i32,
    pub kids: Vec<usize>,
}

/// A game tree in arena form.
pub struct GameTree {
    pub nodes: Vec<GameNode>,
}

impl GameTree {
    /// A node's score lies strictly inside the full window and its
    /// children all point forward into the arena.
    pub open spec fn node_ok(self, i: int) -> bool {
        &&& -CHECKMATE_EVAL < self.nodes@[i].score < CHECKMATE_EVAL
        &&& forall|j: int|
            0 <= j < self.nodes@[i].kids@.len() ==> i < #[trigger] self.nodes@[i].kids@[j]
                < self.nodes@.len()
    }

    pub open spec fn wf(self) -> bool {
        forall|i: int| 0 <= i < self.nodes@.len() ==> self.node_ok(i)
    }
}

/// The minimax value of the `j`-th child of node `i` (guarded so the
/// definition is total even on malformed trees).
pub open spec fn child_value_spec(t: GameTree, i: int, j: int) -> int
    decreases t.nodes@.len() - i, 0int, j,
{
    let k = t.nodes@[i].kids@[j] as int;
    if i < k < t.nodes@.len() {
        minimax_spec(t, k)
    } else {
        0
    }
}

/// The maximum minimax value among the first `j` children of node
/// `i`, starting from the full window's low end.
pub open spec fn prefix_best_spec(t: GameTree, i: int, j: int) -> int
    decreases t.nodes@.len() - i, 0int, j,
{
    if j <= 0 {
        -CHECKMATE_EVAL as int
    } else {
        let prev = prefix_best_spec(t, i, j - 1);
        let c = child_value_spec(t, i, j - 1);
        if c > prev {
            c
        } else {
            prev
        }
    }
}

/// The minimum minimax value among the first `j` children of node
/// `i`, starting from the full window's high end.
pub open spec fn prefix_worst_spec(t: GameTree, i: int, j: int) -> int
    decreases t.nodes@.len() - i, 0int, j,
{
    if j <= 0 {
        CHECKMATE_EVAL as int
    } else {
        let prev = prefix_worst_spec(t, i, j - 1);
        let c = child_value_spec(t, i, j - 1);
        if c < prev {
            c
        } else {
            prev
        }
    }
}

/// Exhaustive, unpruned minimax: a leaf's own score, or the best
/// (worst) child value for a maximizing (minimizing) node.
pub open spec fn minimax_spec(t: GameTree, i: int) -> int
    decreases t.nodes@.len() - i, 1int, 0int,
{
    if t.nodes@[i].kids@.len() == 0 {
        t.nodes@[i].score as int
    } else if t.nodes@[i].maximizing {
        prefix_best_spec(t, i, t.nodes@[i].kids@.len() as int)
    } else {
        prefix_worst_spec(t, i, t.nodes@[i].kids@.len() as int)
    }
}

pub proof fn lemma_prefix_best_monotone(t: GameTree, i: int, a: int, b: int)
    requires
        0 <= a <= b,
    ensures
        prefix_best_spec(t, i, a) <= prefix_best_spec(t, i, b),
    decreases b - a,
{
    if a < b {
        lemma_prefix_best_monotone(t, i, a, b - 1);
    }
}

pub proof fn lemma_prefix_worst_monotone(t: GameTree, i: int, a: int, b: int)
    requires
        0 <= a <= b,
    ensures
        prefix_worst_spec(t, i, a) >= prefix_worst_spec(t, i, b),
    decreases b - a,
{
    if a < b {
        lemma_prefix_worst_monotone(t, i, a, b - 1);
    }
}

/// Every minimax value of a well-formed tree lies strictly inside
/// the full window.
pub proof fn lemma_minimax_bounds(t: GameTree, i: int)
    requires
        t.wf(),
        0 <= i < t.nodes@.len(),
    ensures
        -CHECKMATE_EVAL < minimax_spec(t, i) < CHECKMATE_EVAL,
    decreases t.nodes@.len() - i, 1int, 0int,
{
    assert(t.node_ok(i));
    let n = t.nodes@[i].kids@.len() as int;
    if n > 0 {
        if t.nodes@[i].maximizing {
            lemma_prefix_best_bounds(t, i, n);
        } else {
            lemma_prefix_worst_bounds(t, i, n);
        }
    }
}

pub proof fn lemma_prefix_best_bounds(t: GameTree, i: int, j: int)
    requires
        t.wf(),
        0 <= i < t.nodes@.len(),
        0 <= j <= t.nodes@[i].kids@.len(),
    ensures
        -CHECKMATE_EVAL <= prefix_best_spec(t, i, j) < CHECKMATE_EVAL,
        j >= 1 ==> -CHECKMATE_EVAL < prefix_best_spec(t, i, j),
    decreases t.nodes@.len() - i, 0int, j,
{
    if j > 0 {
        lemma_prefix_best_bounds(t, i, j - 1);
        assert(t.node_ok(i));
        let k = t.nodes@[i].kids@[j - 1] as int;
        assert(i < k < t.nodes@.len());
        lemma_minimax_bounds(t, k);
        assert(child_value_spec(t, i, j - 1) == minimax_spec(t, k));
        assert(-CHECKMATE_EVAL < child_value_spec(t, i, j - 1) < CHECKMATE_EVAL);
    }
}

pub proof fn lemma_prefix_worst_bounds(t: GameTree, i: int, j: int)
    requires
        t.wf(),
        0 <= i < t.nodes@.len(),
        0 <= j <= t.nodes@[i].kids@.len(),
    ensures
        -CHECKMATE_EVAL < prefix_worst_spec(t, i, j) <= CHECKMATE_EVAL,
        j >= 1 ==> prefix_worst_spec(t, i, j) < CHECKMATE_EVAL,
    decreases t.nodes@.len() - i, 0int, j,
{
    if j > 0 {
        lemma_prefix_worst_bounds(t, i, j - 1);
        assert(t.node_ok(i));
        let k = t.nodes@[i].kids@[j - 1] as int;
        assert(i < k < t.nodes@.len());
        lemma_minimax_bounds(t, k);
        assert(child_value_spec(t, i, j - 1) == minimax_spec(t, k));
        assert(-CHECKMATE_EVAL < child_value_spec(t, i, j - 1) < CHECKMATE_EVAL);
    }
}

/// Alpha-beta search of one node. A result inside the window is
/// exactly the minimax value; a result at or outside a bound is a
/// truthful fail-low or fail-high.
pub fn alpha_beta(t: &GameTree, i: usize, alpha: i32, beta: i32) -> (r: i32)
    requires
        t.wf(),
        (i as int) < t.nodes@.len(),
        -CHECKMATE_EVAL <= alpha < beta <= CHECKMATE_EVAL,
    ensures
        minimax_spec(*t, i as int) <= alpha ==> r <= alpha,
        minimax_spec(*t, i as int) >= beta ==> r >= beta,
        alpha < minimax_spec(*t, i as int) < beta ==> r == minimax_spec(*t, i as int),
        -CHECKMATE_EVAL <= r <= CHECKMATE_EVAL,
    decreases t.nodes@.len() - i,
{
    proof {
        assert(t.node_ok(i as int));
    }
    let klen = t.nodes[i].kids.len();
    if klen == 0 {
        return t.nodes[i].score;
    }
    if t.nodes[i].maximizing {
        let mut v: i32 = -CHECKMATE_EVAL;
        let mut a: i32 = alpha;
        let mut j: usize = 0;
        while j < klen
            invariant
                t.wf(),
                (i as int) < t.nodes@.len(),
                t.nodes@[i as int].maximizing,
                klen == t.nodes@[i as int].kids@.len(),
                j <= klen,
                -CHECKMATE_EVAL <= alpha < beta <= CHECKMATE_EVAL,
                a as int == (if v > alpha {
                    v as int
                } else {
                    alpha as int
                }),
                -CHECKMATE_EVAL <= v,
                v < beta,
                prefix_best_spec(*t, i as int, j as int) < beta,
                prefix_best_spec(*t, i as int, j as int) <= alpha ==> v <= alpha,
                alpha < prefix_best_spec(*t, i as int, j as int) ==> v as int == prefix_best_spec(
                    *t,
                    i as int,
                    j as int,
                ),
            decreases klen - j,
        {
            let k = t.nodes[i].kids[j];
            proof {
                assert(t.node_ok(i as int));
            }
            let s = alpha_beta(t, k, a, beta);
            proof {
                assert(child_value_spec(*t, i as int, j as int) == minimax_spec(*t, k as int));
            }
            if s > v {
                v = s;
            }
            if v > a {
                a = v;
            }
            if a >= beta {
                proof {
                    lemma_prefix_best_monotone(*t, i as int, j as int + 1, klen as int);
                }
                return v;
            }
            j = j + 1;
        }
        v
    } else {
        let mut v: i32 = CHECKMATE_EVAL;
        let mut b: i32 = beta;
        let mut j: usize = 0;
        while j < klen
            invariant
                t.wf(),
                (i as int) < t.nodes@.len(),
                !t.nodes@[i as int].maximizing,
                klen == t.nodes@[i as int].kids@.len(),
                j <= klen,
                -CHECKMATE_EVAL <= alpha < beta <= CHECKMATE_EVAL,
                b as int == (if v < beta {
                    v as int
                } else {
                    beta as int
                }),
                v <= CHECKMATE_EVAL,
                v > alpha,
                prefix_worst_spec(*t, i as int, j as int) > alpha,
                prefix_worst_spec(*t, i as int, j as int) >= beta ==> v >= beta,
                prefix_worst_spec(*t, i as int, j as int) < beta ==> v as int == prefix_worst_spec(
                    *t,
                    i as int,
                    j as int,
                ),
            decreases klen - j,
        {
            let k = t.nodes[i].kids[j];
            proof {
                assert(t.node_ok(i as int));
            }
            let s = alpha_beta(t, k, alpha, b);
            proof {
                assert(child_value_spec(*t, i as int, j as int) == minimax_spec(*t, k as int));
            }
            if s < v {
                v = s;
            }
            if v < b {
                b = v;
            }
            if b <= alpha {
                proof {
                    lemma_prefix_worst_monotone(*t, i as int, j as int + 1, klen as int);
                }
                return v;
            }
            j = j + 1;
        }
        v
    }
}

/// Pruned search over the full window returns exactly the value of
/// exhaustive minimax.
pub fn alpha_beta_full(t: &GameTree, i: usize) -> (r: i32)
    requires
        t.wf(),
        (i as int) < t.nodes@.len(),
    ensures
        r as int == minimax_spec(*t, i as int),
{
    proof {
        lemma_minimax_bounds(*t, i as int);
    }
    alpha_beta(t, i, -CHECKMATE_EVAL, CHECKMATE_EVAL)
}

} // verus!
