//! Iterative-deepening alpha-beta search.
//!
//! `choose_move` deepens from depth 1 to the fixed maximum, reusing
//! one transposition table and one move orderer across all
//! iterations, so shallow passes seed ordering and cutoffs for deeper
//! ones. The recursive `search` probes the transposition table,
//! extends forcing checks, reduces late moves, and falls into a
//! capture-only quiescence search at its horizon. Scores are
//! heuristic by design (the table may be corrupted by hash
//! collisions), so the contracts here pin down state well-formedness,
//! score bounds, termination, and — for `choose_move` — that a move
//! is returned exactly when one is legal, and is itself legal.

use vstd::prelude::*;

use crate::constants::CHECKMATE_EVAL;
use crate::constants::MAX_DEPTH;
use crate::constants::MAX_EXTENSIONS;
use crate::constants::QUIESCENCE_DEPTH;
use crate::constants::SCORE_BOUND;
use crate::evaluation::board_eval;
use crate::evaluation::board_eval_spec;
use crate::move_orderer::MoveOrderer;
use crate::rules::GameStatus;
use crate::rules::Move;
use crate::rules::apply_move;
use crate::rules::capture_moves;
use crate::rules::capture_moves_of;
use crate::rules::child_of;
use crate::rules::hash_of;
use crate::rules::in_check;
use crate::rules::legal_moves;
use crate::rules::legal_moves_of;
use crate::rules::status_of;
use crate::rules::piece_on;
use crate::rules::position_hash;
use crate::rules::status;
use crate::rules::white_to_move;
use crate::rules::white_to_move_of;
use crate::transposition_table::mate_score;
use crate::transposition_table::TranspositionTable;
use crate::transposition_table::Type;

verus! {

broadcast use vstd::seq_lib::group_to_multiset_ensures;

/// The static evaluation a quiet leaf stands pat on: the evaluation
/// of the position for the side to move as maximizing side.
pub open spec fn stand_pat_spec(b: chess::Board, move_ply: u32) -> int {
    board_eval_spec(b, white_to_move_of(b), move_ply)
}

/// A value clamped into a closed window.
pub open spec fn clamp_spec(x: int, lo: int, hi: int) -> int {
    if x < lo {
        lo
    } else if x > hi {
        hi
    } else {
        x
    }
}

/// The windowless quiescence value of a position under a recursion
/// budget: the side to move stands pat on the static evaluation or
/// takes its best capture continuation. `quiescence_search` returns
/// exactly this value clamped into its window.
pub open spec fn quiescence_value_spec(b: chess::Board, move_ply: u32, fuel: nat) -> int
    decreases fuel, 0int, 0int,
{
    if fuel == 0 {
        stand_pat_spec(b, move_ply)
    } else if white_to_move_of(b) {
        qnode_spec(
            b,
            capture_moves_of(b),
            capture_moves_of(b).len() as int,
            move_ply,
            (fuel - 1) as nat,
        )
    } else {
        qnode_min_spec(
            b,
            capture_moves_of(b),
            capture_moves_of(b).len() as int,
            move_ply,
            (fuel - 1) as nat,
        )
    }
}

/// The better, for the maximizing side, of standing pat and the best
/// of the first `j` capture continuations.
pub open spec fn qnode_spec(
    b: chess::Board,
    moves: Seq<Move>,
    j: int,
    move_ply: u32,
    fuel: nat,
) -> int
    decreases fuel, 3int, 0int,
{
    let sp = stand_pat_spec(b, move_ply);
    let best = qbest_spec(b, moves, j, move_ply, fuel);
    if best > sp {
        best
    } else {
        sp
    }
}

/// The better, for the minimizing side, of standing pat and the best
/// of the first `j` capture continuations.
pub open spec fn qnode_min_spec(
    b: chess::Board,
    moves: Seq<Move>,
    j: int,
    move_ply: u32,
    fuel: nat,
) -> int
    decreases fuel, 3int, 0int,
{
    let sp = stand_pat_spec(b, move_ply);
    let worst = qworst_spec(b, moves, j, move_ply, fuel);
    if worst < sp {
        worst
    } else {
        sp
    }
}

/// The highest quiescence value among the first `j` capture moves,
/// folded up from a sentinel below every reachable score.
pub open spec fn qbest_spec(
    b: chess::Board,
    moves: Seq<Move>,
    j: int,
    move_ply: u32,
    fuel: nat,
) -> int
    decreases fuel, 2int, j,
{
    if j <= 0 {
        -1000000000
    } else {
        let prev = qbest_spec(b, moves, j - 1, move_ply, fuel);
        let c = quiescence_value_spec(child_of(b, moves[j - 1]), ((move_ply + 1) as u32), fuel);
        if c > prev {
            c
        } else {
            prev
        }
    }
}

/// The lowest quiescence value among the first `j` capture moves,
/// folded down from a sentinel above every reachable score.
pub open spec fn qworst_spec(
    b: chess::Board,
    moves: Seq<Move>,
    j: int,
    move_ply: u32,
    fuel: nat,
) -> int
    decreases fuel, 2int, j,
{
    if j <= 0 {
        1000000000
    } else {
        let prev = qworst_spec(b, moves, j - 1, move_ply, fuel);
        let c = quiescence_value_spec(child_of(b, moves[j - 1]), ((move_ply + 1) as u32), fuel);
        if c < prev {
            c
        } else {
            prev
        }
    }
}

/// Any explored capture's value bounds the running best from below.
proof fn lemma_qbest_element(
    b: chess::Board,
    moves: Seq<Move>,
    j: int,
    i: int,
    move_ply: u32,
    fuel: nat,
)
    requires
        0 <= i < j,
    ensures
        qbest_spec(b, moves, j, move_ply, fuel) >= quiescence_value_spec(
            child_of(b, moves[i]),
            ((move_ply + 1) as u32),
            fuel,
        ),
    decreases j,
{
    if i < j - 1 {
        lemma_qbest_element(b, moves, j - 1, i, move_ply, fuel);
    }
}

/// Any explored capture's value bounds the running worst from above.
proof fn lemma_qworst_element(
    b: chess::Board,
    moves: Seq<Move>,
    j: int,
    i: int,
    move_ply: u32,
    fuel: nat,
)
    requires
        0 <= i < j,
    ensures
        qworst_spec(b, moves, j, move_ply, fuel) <= quiescence_value_spec(
            child_of(b, moves[i]),
            ((move_ply + 1) as u32),
            fuel,
        ),
    decreases j,
{
    if i < j - 1 {
        lemma_qworst_element(b, moves, j - 1, i, move_ply, fuel);
    }
}

/// The folds read only the first `j` moves.
proof fn lemma_qfold_congruence(
    b: chess::Board,
    s: Seq<Move>,
    t: Seq<Move>,
    j: int,
    move_ply: u32,
    fuel: nat,
)
    requires
        forall|k: int| 0 <= k < j ==> s[k] == t[k],
    ensures
        qbest_spec(b, s, j, move_ply, fuel) == qbest_spec(b, t, j, move_ply, fuel),
        qworst_spec(b, s, j, move_ply, fuel) == qworst_spec(b, t, j, move_ply, fuel),
    decreases j,
{
    if j > 0 {
        lemma_qfold_congruence(b, s, t, j - 1, move_ply, fuel);
    }
}

/// Removing one move splits a fold into that move's value and the
/// fold of the remaining moves.
proof fn lemma_qfold_remove(b: chess::Board, s: Seq<Move>, i: int, move_ply: u32, fuel: nat)
    requires
        0 <= i < s.len(),
    ensures
        ({
            let c = quiescence_value_spec(child_of(b, s[i]), ((move_ply + 1) as u32), fuel);
            let rest = qbest_spec(b, s.remove(i), s.len() - 1, move_ply, fuel);
            qbest_spec(b, s, s.len() as int, move_ply, fuel) == if c > rest {
                c
            } else {
                rest
            }
        }),
        ({
            let c = quiescence_value_spec(child_of(b, s[i]), ((move_ply + 1) as u32), fuel);
            let rest = qworst_spec(b, s.remove(i), s.len() - 1, move_ply, fuel);
            qworst_spec(b, s, s.len() as int, move_ply, fuel) == if c < rest {
                c
            } else {
                rest
            }
        }),
    decreases s.len(),
{
    let n = s.len() as int;
    s.remove_ensures(i);
    if i == n - 1 {
        lemma_qfold_congruence(b, s, s.remove(i), n - 1, move_ply, fuel);
    } else {
        let u = s.subrange(0, n - 1);
        lemma_qfold_congruence(b, s, u, n - 1, move_ply, fuel);
        lemma_qfold_remove(b, u, i, move_ply, fuel);
        u.remove_ensures(i);
        assert(forall|k: int| 0 <= k < n - 2 ==> u.remove(i)[k] == s.remove(i)[k]);
        lemma_qfold_congruence(b, u.remove(i), s.remove(i), n - 2, move_ply, fuel);
        assert(s.remove(i)[n - 2] == s[n - 1]);
    }
}

/// Folds over the same capture moves in any order agree: the
/// quiescence value does not depend on exploration order.
proof fn lemma_qfold_permutation(
    b: chess::Board,
    s: Seq<Move>,
    t: Seq<Move>,
    move_ply: u32,
    fuel: nat,
)
    requires
        s.to_multiset() == t.to_multiset(),
    ensures
        qbest_spec(b, s, s.len() as int, move_ply, fuel) == qbest_spec(
            b,
            t,
            t.len() as int,
            move_ply,
            fuel,
        ),
        qworst_spec(b, s, s.len() as int, move_ply, fuel) == qworst_spec(
            b,
            t,
            t.len() as int,
            move_ply,
            fuel,
        ),
    decreases s.len(),
{
    assert(s.len() == s.to_multiset().len());
    assert(t.len() == t.to_multiset().len());
    if s.len() > 0 {
        let n = s.len() as int;
        let x = s[n - 1];
        assert(s.contains(x));
        assert(s.to_multiset().count(x) > 0);
        assert(t.contains(x));
        let i = choose|i: int| 0 <= i < t.len() && t[i] == x;
        lemma_qfold_remove(b, t, i, move_ply, fuel);
        let u = s.subrange(0, n - 1);
        lemma_qfold_congruence(b, s, u, n - 1, move_ply, fuel);
        assert(u.push(x) =~= s);
        assert(s.to_multiset() =~= u.to_multiset().insert(x));
        assert(u.to_multiset() =~= t.remove(i).to_multiset()) by {
            assert(forall|m: Move| #[trigger]
                u.to_multiset().count(m) == s.to_multiset().count(m) - (if m == x {
                    1int
                } else {
                    0int
                }));
            assert(forall|m: Move| #[trigger]
                t.remove(i).to_multiset().count(m) == t.to_multiset().count(m) - (if m == x {
                    1int
                } else {
                    0int
                }));
        }
        lemma_qfold_permutation(b, u, t.remove(i), move_ply, fuel);
    }
}

/// Capture-only search from a quiet leaf: stand pat on the static
/// evaluation, then explore only captures within the same window,
/// so tactically unstable leaves are not misjudged. The result is
/// exactly the windowless quiescence value of the position clamped
/// into the window — in particular, with no captures available, the
/// static evaluation clamped into the window.
pub fn quiescence_search(
    board: &chess::Board,
    alpha: i32,
    beta: i32,
    move_orderer: &MoveOrderer,
    ply_searched: u8,
    move_ply: u32,
    fuel: u8,
) -> (r: i32)
    requires
        move_orderer.wf(),
        alpha <= beta,
        (ply_searched as int) + (fuel as int) <= 255,
        (move_ply as int) + (fuel as int) <= u32::MAX,
    ensures
        alpha <= r <= beta,
        // the full functional contract: the result is exactly the
        // windowless quiescence value clamped into the window
        r as int == clamp_spec(
            quiescence_value_spec(*board, move_ply, fuel as nat),
            alpha as int,
            beta as int,
        ),
        capture_moves_of(*board).len() == 0 ==> r as int == clamp_spec(
            stand_pat_spec(*board, move_ply),
            alpha as int,
            beta as int,
        ),
        // in particular, at a quiet leaf whose static evaluation lies
        // inside the window, quiescence is exactly static evaluation
        (capture_moves_of(*board).len() == 0 && alpha <= stand_pat_spec(*board, move_ply) <= beta)
            ==> r as int == stand_pat_spec(*board, move_ply),
        // the stand-pat cutoff: a static evaluation already meeting
        // the side to move's bound cuts off at that bound outright
        white_to_move_of(*board) && stand_pat_spec(*board, move_ply) >= beta ==> r == beta,
        !white_to_move_of(*board) && stand_pat_spec(*board, move_ply) <= alpha ==> r == alpha,
    decreases fuel,
{
    let maximizing_player = white_to_move(board);
    let evaluation = board_eval(board, maximizing_player, move_ply);
    if maximizing_player {
        if evaluation >= beta {
            return beta;
        }
        let mut alpha_cur = alpha;
        if evaluation > alpha_cur {
            alpha_cur = evaluation;
        }
        if fuel == 0 {
            return alpha_cur;
        }
        let caps = capture_moves(board);
        let moves = move_orderer.order_moves(caps, board, ply_searched);
        let mut idx: usize = 0;
        while idx < moves.len()
            invariant
                move_orderer.wf(),
                white_to_move_of(*board),
                alpha <= alpha_cur <= beta,
                evaluation < beta,
                evaluation as int == stand_pat_spec(*board, move_ply),
                -640300 <= evaluation <= 640300,
                idx <= moves@.len(),
                moves@.len() == capture_moves_of(*board).len(),
                moves@.to_multiset() == capture_moves_of(*board).to_multiset(),
                alpha_cur as int == clamp_spec(
                    qnode_spec(*board, moves@, idx as int, move_ply, (fuel - 1) as nat),
                    alpha as int,
                    beta as int,
                ),
                qnode_spec(*board, moves@, idx as int, move_ply, (fuel - 1) as nat) < beta,
                moves@.len() == 0 ==> alpha_cur as int == (if evaluation > alpha {
                    evaluation as int
                } else {
                    alpha as int
                }),
                forall|j: int|
                    0 <= j < moves@.len() ==> (#[trigger] moves@[j]).wf() && legal_moves_of(
                        *board,
                    ).contains(moves@[j]),
                (ply_searched as int) + (fuel as int) <= 255,
                (move_ply as int) + (fuel as int) <= u32::MAX,
                fuel >= 1,
            decreases moves@.len() - idx,
        {
            let capture_move = moves[idx];
            let child = apply_move(board, &capture_move);
            let v = quiescence_search(
                &child,
                alpha_cur,
                beta,
                move_orderer,
                ply_searched + 1,
                move_ply + 1,
                fuel - 1,
            );
            if v >= beta {
                proof {
                    lemma_qbest_element(
                        *board,
                        moves@,
                        moves@.len() as int,
                        idx as int,
                        move_ply,
                        (fuel - 1) as nat,
                    );
                    lemma_qfold_permutation(
                        *board,
                        moves@,
                        capture_moves_of(*board),
                        move_ply,
                        (fuel - 1) as nat,
                    );
                }
                return beta;
            }
            if v > alpha_cur {
                alpha_cur = v;
            }
            idx = idx + 1;
        }
        proof {
            lemma_qfold_permutation(
                *board,
                moves@,
                capture_moves_of(*board),
                move_ply,
                (fuel - 1) as nat,
            );
        }
        alpha_cur
    } else {
        if evaluation <= alpha {
            return alpha;
        }
        let mut beta_cur = beta;
        if evaluation < beta_cur {
            beta_cur = evaluation;
        }
        if fuel == 0 {
            return beta_cur;
        }
        let caps = capture_moves(board);
        let moves = move_orderer.order_moves(caps, board, ply_searched);
        let mut idx: usize = 0;
        while idx < moves.len()
            invariant
                move_orderer.wf(),
                !white_to_move_of(*board),
                alpha <= beta_cur <= beta,
                evaluation > alpha,
                evaluation as int == stand_pat_spec(*board, move_ply),
                -640300 <= evaluation <= 640300,
                idx <= moves@.len(),
                moves@.len() == capture_moves_of(*board).len(),
                moves@.to_multiset() == capture_moves_of(*board).to_multiset(),
                beta_cur as int == clamp_spec(
                    qnode_min_spec(*board, moves@, idx as int, move_ply, (fuel - 1) as nat),
                    alpha as int,
                    beta as int,
                ),
                qnode_min_spec(*board, moves@, idx as int, move_ply, (fuel - 1) as nat) > alpha,
                moves@.len() == 0 ==> beta_cur as int == (if evaluation < beta {
                    evaluation as int
                } else {
                    beta as int
                }),
                forall|j: int|
                    0 <= j < moves@.len() ==> (#[trigger] moves@[j]).wf() && legal_moves_of(
                        *board,
                    ).contains(moves@[j]),
                (ply_searched as int) + (fuel as int) <= 255,
                (move_ply as int) + (fuel as int) <= u32::MAX,
                fuel >= 1,
            decreases moves@.len() - idx,
        {
            let capture_move = moves[idx];
            let child = apply_move(board, &capture_move);
            let v = quiescence_search(
                &child,
                alpha,
                beta_cur,
                move_orderer,
                ply_searched + 1,
                move_ply + 1,
                fuel - 1,
            );
            if v <= alpha {
                proof {
                    lemma_qworst_element(
                        *board,
                        moves@,
                        moves@.len() as int,
                        idx as int,
                        move_ply,
                        (fuel - 1) as nat,
                    );
                    lemma_qfold_permutation(
                        *board,
                        moves@,
                        capture_moves_of(*board),
                        move_ply,
                        (fuel - 1) as nat,
                    );
                }
                return alpha;
            }
            if v < beta_cur {
                beta_cur = v;
            }
            idx = idx + 1;
        }
        proof {
            lemma_qfold_permutation(
                *board,
                moves@,
                capture_moves_of(*board),
                move_ply,
                (fuel - 1) as nat,
            );
        }
        beta_cur
    }
}

/// Recursive alpha-beta search of one node: probe the transposition
/// table, evaluate terminal and horizon positions (descending into
/// quiescence when the game goes on), otherwise explore the ordered
/// legal moves with check extensions and late-move reductions,
/// recording cutoff moves as killers and boosting their history
/// scores.
pub fn search(
    board: &chess::Board,
    transposition_table: &mut TranspositionTable,
    move_orderer: &mut MoveOrderer,
    ply_remaining: u8,
    ply_searched: u8,
    num_extensions: u8,
    alpha: i32,
    beta: i32,
    move_ply: u32,
) -> (r: (i32, Option<Move>))
    requires
        old(transposition_table).wf(),
        old(move_orderer).wf(),
        num_extensions <= MAX_EXTENSIONS,
        (ply_searched as int) + (ply_remaining as int) + ((MAX_EXTENSIONS - num_extensions) as int)
            <= 200,
        -SCORE_BOUND <= alpha <= beta <= SCORE_BOUND,
        (move_ply as int) + 300 - (ply_searched as int) <= u32::MAX,
    ensures
        final(transposition_table).wf(),
        final(move_orderer).wf(),
        -SCORE_BOUND <= r.0 <= SCORE_BOUND,
        // a usable transposition entry is returned as it stands
        match old(transposition_table).lookup_spec(
            hash_of(*board),
            ply_remaining,
            ply_searched,
            alpha,
            beta,
        ) {
            Option::Some(pair) => r == pair && *final(transposition_table) == *old(
                transposition_table,
            ) && *final(move_orderer) == *old(move_orderer),
            Option::None => {
                // on a miss, terminal positions score exactly: a mate
                // biased by the ply reached, a stalemate zero
                &&& status_of(*board) == GameStatus::Checkmate ==> r.0 as int == mate_score(
                    !white_to_move_of(*board),
                    ply_searched as int,
                ) && r.1 is None
                &&& status_of(*board) == GameStatus::Stalemate ==> r.0 == 0 && r.1 is None
                // at the horizon of an ongoing game the result is the
                // quiescence value clamped into the window — never the
                // raw static evaluation
                &&& (status_of(*board) == GameStatus::Ongoing && ply_remaining == 0) ==> {
                    &&& r.1 is None
                    &&& r.0 as int == clamp_spec(
                        quiescence_value_spec(*board, move_ply, QUIESCENCE_DEPTH as nat),
                        alpha as int,
                        beta as int,
                    )
                    &&& capture_moves_of(*board).len() == 0 ==> r.0 as int == clamp_spec(
                        stand_pat_spec(*board, move_ply),
                        alpha as int,
                        beta as int,
                    )
                }
            },
        },
    decreases (ply_remaining as int) + ((MAX_EXTENSIONS - num_extensions) as int),
{
    let mut cur_alpha = alpha;
    let mut cur_beta = beta;
    let maximizing_player = white_to_move(board);
    let hash = position_hash(board);

    if let Option::Some(evaluation_move_pair) = transposition_table.get(
        hash,
        ply_remaining,
        ply_searched,
        alpha,
        beta,
    ) {
        return evaluation_move_pair;
    }

    let st = status(board);
    if ply_remaining == 0 || !(st == GameStatus::Ongoing) {
        let evaluation: i32 = if st == GameStatus::Checkmate && maximizing_player {
            -CHECKMATE_EVAL + (ply_searched as i32)
        } else if st == GameStatus::Checkmate {
            CHECKMATE_EVAL - (ply_searched as i32)
        } else if st == GameStatus::Stalemate {
            0
        } else {
            quiescence_search(
                board,
                alpha,
                beta,
                move_orderer,
                ply_searched,
                move_ply,
                QUIESCENCE_DEPTH,
            )
        };
        // a quiescence result clamped at the window is only a bound
        // on the true value, and must not be stored as exact
        let leaf_type = if evaluation <= alpha && !(st == GameStatus::Checkmate) && !(st
            == GameStatus::Stalemate) {
            Type::UpperBound
        } else if evaluation >= beta && !(st == GameStatus::Checkmate) && !(st
            == GameStatus::Stalemate) {
            Type::LowerBound
        } else {
            Type::Exact
        };
        transposition_table.add(
            hash,
            evaluation,
            ply_remaining,
            leaf_type,
            Option::None,
            ply_searched,
        );
        return (evaluation, Option::None);
    }

    let moves_unordered = legal_moves(board);
    let moves = move_orderer.order_moves(moves_unordered, board, ply_searched);

    let mut best_val: i32 = if maximizing_player {
        -CHECKMATE_EVAL
    } else {
        CHECKMATE_EVAL
    };
    let mut best_move: Option<Move> = Option::None;
    let mut i: usize = 0;
    while i < moves.len()
        invariant
            transposition_table.wf(),
            move_orderer.wf(),
            num_extensions <= MAX_EXTENSIONS,
            ply_remaining >= 1,
            (ply_searched as int) + (ply_remaining as int) + ((MAX_EXTENSIONS
                - num_extensions) as int) <= 200,
            (move_ply as int) + 300 - (ply_searched as int) <= u32::MAX,
            -SCORE_BOUND <= alpha <= beta <= SCORE_BOUND,
            -SCORE_BOUND <= cur_alpha <= cur_beta <= SCORE_BOUND,
            -SCORE_BOUND <= best_val <= SCORE_BOUND,
            status_of(*board) == GameStatus::Ongoing,
            old(transposition_table).lookup_spec(
                hash_of(*board),
                ply_remaining,
                ply_searched,
                alpha,
                beta,
            ) is None,
            forall|j: int|
                0 <= j < moves@.len() ==> (#[trigger] moves@[j]).wf() && legal_moves_of(
                    *board,
                ).contains(moves@[j]),
        decreases moves@.len() - i,
    {
        let legal_move = moves[i];
        let board_with_move = apply_move(board, &legal_move);
        let mut curr_extension: u8 = 0;
        // forcing replies are few, so checking moves earn a deeper look
        if in_check(&board_with_move) && num_extensions < MAX_EXTENSIONS {
            curr_extension = 1;
        }
        // moves ranked late by the orderer are searched a ply shallower
        let search_minimization: u8 = if i >= 3 && ply_remaining > 1 {
            1
        } else {
            0
        };
        let child = search(
            &board_with_move,
            transposition_table,
            move_orderer,
            ply_remaining - 1 + curr_extension - search_minimization,
            ply_searched + 1,
            num_extensions + curr_extension,
            cur_alpha,
            cur_beta,
            move_ply + 1,
        );
        let evaluation = child.0;

        if maximizing_player {
            if evaluation > best_val {
                best_val = evaluation;
                best_move = Option::Some(legal_move);
            }
            if evaluation > cur_alpha {
                cur_alpha = evaluation;
            }
        } else {
            if evaluation < best_val {
                best_val = evaluation;
                best_move = Option::Some(legal_move);
            }
            if evaluation < cur_beta {
                cur_beta = evaluation;
            }
        }

        if cur_alpha >= cur_beta {
            transposition_table.add(
                hash,
                evaluation,
                ply_remaining,
                Type::LowerBound,
                best_move,
                ply_searched,
            );
            // a quiet cutoff move becomes a killer, and its history
            // score grows with the square of the remaining depth, so
            // cutoffs found early in the tree weigh more
            let is_capture_move = piece_on(board, legal_move.dest).is_some();
            if !is_capture_move {
                move_orderer.add_killer_move(legal_move, ply_searched);
                proof {
                    assert((ply_remaining as int) * (ply_remaining as int) <= 65025)
                        by (nonlinear_arith)
                        requires
                            ply_remaining <= 255,
                    ;
                }
                let squared: u32 = (ply_remaining as u32) * (ply_remaining as u32);
                let history_score: u8 = if squared > 255 {
                    255
                } else {
                    squared as u8
                };
                move_orderer.add_history(legal_move, maximizing_player, history_score);
            }
            return (best_val, best_move);
        }
        i = i + 1;
    }
    // a best value that never rose strictly above the original alpha
    // may itself be a clamped fail-low, so it is only an upper bound
    let entry_type = if best_val <= alpha {
        Type::UpperBound
    } else {
        Type::Exact
    };
    transposition_table.add(hash, best_val, ply_remaining, entry_type, best_move, ply_searched);
    (best_val, best_move)
}

/// One fixed-depth search from a fresh transposition table and move
/// orderer, with a full window. A terminal root scores exactly: the
/// mate constant against the side to move on checkmate, zero on
/// stalemate.
pub fn search_root(board: &chess::Board, depth: u8, move_ply: u32) -> (r: (i32, Option<Move>))
    requires
        1 <= depth <= MAX_DEPTH,
        move_ply < 4000000000,
    ensures
        -SCORE_BOUND <= r.0 <= SCORE_BOUND,
        status_of(*board) == GameStatus::Checkmate ==> r.0 as int == mate_score(
            !white_to_move_of(*board),
            0,
        ) && r.1 is None,
        status_of(*board) == GameStatus::Stalemate ==> r.0 == 0 && r.1 is None,
{
    let mut transposition_table = TranspositionTable::new();
    let mut move_orderer = MoveOrderer::new();
    proof {
        assert(transposition_table.lookup_spec(
            hash_of(*board),
            depth,
            0,
            (-CHECKMATE_EVAL) as i32,
            CHECKMATE_EVAL,
        ) is None);
    }
    search(
        board,
        &mut transposition_table,
        &mut move_orderer,
        depth,
        0,
        0,
        -CHECKMATE_EVAL,
        CHECKMATE_EVAL,
        move_ply,
    )
}

/// Choose a move for the side to move by iterative deepening. A move
/// is returned exactly when the position has a legal move, and the
/// returned move is always one of them: if the deepest iteration
/// names no trustworthy move, the first legal move stands in.
pub fn choose_move(board: &chess::Board, move_ply: u32) -> (r: Option<Move>)
    requires
        move_ply < 4000000000,
    ensures
        r is None <==> legal_moves_of(*board).len() == 0,
        match r {
            Option::Some(m) => legal_moves_of(*board).contains(m) && m.wf(),
            Option::None => true,
        },
{
    let mut transposition_table = TranspositionTable::new();
    let mut move_orderer = MoveOrderer::new();
    let mut ai_move: Option<Move> = Option::None;
    let mut depth: u8 = 1;
    while depth <= MAX_DEPTH
        invariant
            transposition_table.wf(),
            move_orderer.wf(),
            1 <= depth <= MAX_DEPTH + 1,
            move_ply < 4000000000,
        decreases MAX_DEPTH + 1 - depth,
    {
        let result = search(
            board,
            &mut transposition_table,
            &mut move_orderer,
            depth,
            0,
            0,
            -CHECKMATE_EVAL,
            CHECKMATE_EVAL,
            move_ply,
        );
        ai_move = result.1;
        depth = depth + 1;
    }

    let legal = legal_moves(board);
    if let Option::Some(m) = ai_move {
        let mut i: usize = 0;
        let mut found = false;
        while i < legal.len()
            invariant
                i <= legal@.len(),
                legal@ == legal_moves_of(*board),
                found <==> exists|j: int| 0 <= j < i && legal@[j] == m,
            decreases legal@.len() - i,
        {
            if legal[i] == m {
                found = true;
            }
            i = i + 1;
        }
        if found {
            proof {
                let j = choose|j: int| 0 <= j < legal@.len() && legal@[j] == m;
                assert(legal_moves_of(*board)[j].wf());
            }
            return Option::Some(m);
        }
    }
    if legal.len() > 0 {
        Option::Some(legal[0])
    } else {
        Option::None
    }
}

} // verus!
