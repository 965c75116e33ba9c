//! A fixed-capacity, hash-indexed cache of search results.
//!
//! Slots are indexed by `hash mod capacity` and silently overwritten
//! on collision: the table is a probabilistic cache, not a
//! correctness-critical store. An entry is trusted only when its
//! stored depth is at least the depth currently requested.
//!
//! Mate scores are stored relative to the root of the whole search
//! (the current ply is added at store time) and rebased back to the
//! consulting ply at read time (the current ply is subtracted), so a
//! faster mate always beats a slower one wherever the value is
//! reused.

use vstd::prelude::*;

use crate::constants::CHECKMATE_EVAL;
use crate::constants::MATE_MARGIN;
use crate::constants::SCORE_LIMIT;
use crate::constants::TT_CAPACITY;
use crate::rules::Move;

verus! {

/// How a stored score bounds the true value of its position.
#[derive(Clone, Copy, Debug, PartialEq, Eq, Structural)]
pub enum Type {
    Exact,
    UpperBound,
    LowerBound,
}

/// One stored search result, keyed by the full position hash.
#[derive(Clone, Copy, Debug)]
pub struct Entry {
    pub hash: u64,
    pub evaluation: i32,
    pub best_move: Option<Move>,
    pub entry_type: Type,
    pub depth: u8,
}

/// A score qualifies as a forced-mate score when its magnitude
/// exceeds the mate constant minus a small margin.
pub open spec fn is_mate_eval_spec(eval: int) -> bool {
    eval > CHECKMATE_EVAL - MATE_MARGIN || eval < -(CHECKMATE_EVAL - MATE_MARGIN)
}

/// A mate score as stored: rebased from the consulting ply to the
/// root by adding the ply count toward its own sign.
pub open spec fn store_mate_spec(eval: int, ply_searched: int) -> int {
    if is_mate_eval_spec(eval) {
        if eval >= 0 {
            eval + ply_searched
        } else {
            eval - ply_searched
        }
    } else {
        eval
    }
}

/// A mate score as retrieved: rebased from the root back to the
/// consulting ply by subtracting the ply count toward zero.
pub open spec fn retrieve_mate_spec(eval: int, ply_searched: int) -> int {
    if is_mate_eval_spec(eval) {
        if eval >= 0 {
            eval - ply_searched
        } else {
            eval + ply_searched
        }
    } else {
        eval
    }
}

pub fn is_mate_eval(eval: i32) -> (r: bool)
    ensures
        r == is_mate_eval_spec(eval as int),
{
    eval > CHECKMATE_EVAL - MATE_MARGIN || eval < -(CHECKMATE_EVAL - MATE_MARGIN)
}

pub fn store_optimized_mate_score(eval: i32, ply_searched: u8) -> (r: i32)
    requires
        -SCORE_LIMIT <= eval <= SCORE_LIMIT,
    ensures
        r == store_mate_spec(eval as int, ply_searched as int),
        -SCORE_LIMIT - 255 <= r <= SCORE_LIMIT + 255,
{
    if is_mate_eval(eval) {
        if eval >= 0 {
            eval + (ply_searched as i32)
        } else {
            eval - (ply_searched as i32)
        }
    } else {
        eval
    }
}

pub fn get_optimized_mate_score(eval: i32, ply_searched: u8) -> (r: i32)
    requires
        -SCORE_LIMIT - 255 <= eval <= SCORE_LIMIT + 255,
    ensures
        r == retrieve_mate_spec(eval as int, ply_searched as int),
        -SCORE_LIMIT - 510 <= r <= SCORE_LIMIT + 510,
{
    if is_mate_eval(eval) {
        if eval >= 0 {
            eval - (ply_searched as i32)
        } else {
            eval + (ply_searched as i32)
        }
    } else {
        eval
    }
}

/// Mate-score rebasing round trip: a mate score stored at ply `p1`
/// and retrieved at ply `p2` loses exactly `p2 - p1` in magnitude,
/// with its sign preserved.
pub proof fn lemma_mate_rebase_round_trip(v: int, p1: int, p2: int)
    requires
        is_mate_eval_spec(v),
        -SCORE_LIMIT <= v <= SCORE_LIMIT,
        0 <= p1 <= 255,
        0 <= p2 <= 255,
    ensures
        v >= 0 ==> retrieve_mate_spec(store_mate_spec(v, p1), p2) == v - (p2 - p1),
        v < 0 ==> retrieve_mate_spec(store_mate_spec(v, p1), p2) == v + (p2 - p1),
        retrieve_mate_spec(store_mate_spec(v, p1), p2) >= 0 <==> v >= 0,
{
}

/// The score of a forced mate delivered after `plies` plies, from
/// the point of view of the side delivering it; a faster mate always
/// compares as strictly better for that side.
pub open spec fn mate_score(white_delivers: bool, plies: int) -> int {
    if white_delivers {
        CHECKMATE_EVAL - plies
    } else {
        -(CHECKMATE_EVAL as int) + plies
    }
}

/// A mate in fewer plies scores strictly better, for the side that
/// delivers it, than a mate in more plies.
pub proof fn lemma_faster_mate_preferred(white_delivers: bool, k1: int, k2: int)
    requires
        0 <= k1 < k2 < MATE_MARGIN,
    ensures
        is_mate_eval_spec(mate_score(white_delivers, k1)),
        is_mate_eval_spec(mate_score(white_delivers, k2)),
        white_delivers ==> mate_score(white_delivers, k1) > mate_score(white_delivers, k2),
        !white_delivers ==> mate_score(white_delivers, k1) < mate_score(white_delivers, k2),
{
}

/// The mate-score round trip through the table itself: an exact mate
/// entry stored at ply `p1` (as `add` stores it for scores within the
/// storable range) and consulted at ply `p2` at sufficient depth
/// comes back with its magnitude shrunk by exactly `p2 - p1`, its
/// sign preserved, and its move intact.
pub proof fn lemma_table_mate_round_trip(
    t: TranspositionTable,
    hash: u64,
    v: int,
    d: u8,
    m: Option<Move>,
    p1: u8,
    p2: u8,
    depth: u8,
    alpha: i32,
    beta: i32,
)
    requires
        t.wf(),
        is_mate_eval_spec(v),
        -SCORE_LIMIT <= v <= SCORE_LIMIT,
        t.slots@[TranspositionTable::slot_of(hash)] == Option::Some(
            (Entry {
                hash: hash,
                evaluation: store_mate_spec(v, p1 as int) as i32,
                best_move: m,
                entry_type: Type::Exact,
                depth: d,
            }),
        ),
        depth <= d,
    ensures
        t.lookup_spec(hash, depth, p2, alpha, beta) == Option::Some(
            ((if v >= 0 {
                v - (p2 - p1)
            } else {
                v + (p2 - p1)
            }) as i32, m),
        ),
{
    lemma_mate_rebase_round_trip(v, p1 as int, p2 as int);
}

/// A score clamped into the table's storable range; no reachable
/// chess score comes anywhere near the range's ends.
pub open spec fn clamp_score_spec(e: int) -> int {
    if e > SCORE_LIMIT {
        SCORE_LIMIT as int
    } else if e < -SCORE_LIMIT {
        -(SCORE_LIMIT as int)
    } else {
        e
    }
}

/// The fixed-capacity transposition table. Stored evaluations stay
/// within the rebasing-safe score range.
pub struct TranspositionTable {
    pub slots: Vec<Option<Entry>>,
}

impl TranspositionTable {
    /// The slot a hash is stored in.
    pub open spec fn slot_of(hash: u64) -> int {
        hash as int % (TT_CAPACITY as int)
    }

    /// Capacity is fixed and every stored evaluation is bounded.
    pub open spec fn wf(self) -> bool {
        &&& self.slots@.len() == TT_CAPACITY
        &&& forall|i: int|
            0 <= i < self.slots@.len() ==> match #[trigger] self.slots@[i] {
                Option::Some(e) => -SCORE_LIMIT - 255 <= e.evaluation <= SCORE_LIMIT + 255,
                Option::None => true,
            }
    }

    /// What a lookup returns: the slot entry, if it carries the full
    /// hash, was computed at sufficient depth, and its bound kind
    /// allows its (rebased) score to answer the current window.
    pub open spec fn lookup_spec(
        self,
        hash: u64,
        depth: u8,
        ply_searched: u8,
        alpha: i32,
        beta: i32,
    ) -> Option<(i32, Option<Move>)> {
        match self.slots@[Self::slot_of(hash)] {
            Option::Some(e) => {
                if e.hash == hash && e.depth >= depth {
                    let corrected = retrieve_mate_spec(e.evaluation as int, ply_searched as int);
                    if e.entry_type == Type::Exact || (e.entry_type == Type::UpperBound
                        && corrected <= alpha as int) || (e.entry_type == Type::LowerBound
                        && corrected >= beta as int) {
                        Option::Some((corrected as i32, e.best_move))
                    } else {
                        Option::None
                    }
                } else {
                    Option::None
                }
            },
            Option::None => Option::None,
        }
    }

    /// A fresh table with every slot empty.
    pub fn new() -> (r: TranspositionTable)
        ensures
            r.wf(),
            forall|i: int| 0 <= i < TT_CAPACITY ==> r.slots@[i] is None,
    {
        let mut slots: Vec<Option<Entry>> = Vec::new();
        while slots.len() < TT_CAPACITY
            invariant
                slots@.len() <= TT_CAPACITY,
                forall|i: int| 0 <= i < slots@.len() ==> slots@[i] is None,
            decreases TT_CAPACITY - slots@.len(),
        {
            slots.push(Option::None);
        }
        TranspositionTable { slots }
    }

    /// Consult the table. Returns exactly what `lookup_spec` says: a
    /// usable entry's rebased score and stored move, or nothing.
    pub fn get(
        &self,
        zobrist_hash: u64,
        depth: u8,
        ply_searched: u8,
        alpha: i32,
        beta: i32,
    ) -> (r: Option<(i32, Option<Move>)>)
        requires
            self.wf(),
        ensures
            r == self.lookup_spec(zobrist_hash, depth, ply_searched, alpha, beta),
    {
        let idx = (zobrist_hash % (TT_CAPACITY as u64)) as usize;
        match &self.slots[idx] {
            Option::Some(e) => {
                if e.hash == zobrist_hash && e.depth >= depth {
                    let corrected = get_optimized_mate_score(e.evaluation, ply_searched);
                    if e.entry_type == Type::Exact || (e.entry_type == Type::UpperBound
                        && corrected <= alpha) || (e.entry_type == Type::LowerBound && corrected
                        >= beta) {
                        Option::Some((corrected, e.best_move))
                    } else {
                        Option::None
                    }
                } else {
                    Option::None
                }
            },
            Option::None => Option::None,
        }
    }

    /// Store a result, clamping it into the storable range and
    /// rebasing mate scores to the root; the slot's previous
    /// occupant, if any, is silently overwritten.
    pub fn add(
        &mut self,
        zobrist_hash: u64,
        evaluation: i32,
        depth: u8,
        entry_type: Type,
        best_move: Option<Move>,
        ply_searched: u8,
    )
        requires
            old(self).wf(),
        ensures
            final(self).wf(),
            final(self).slots@ == old(self).slots@.update(
                Self::slot_of(zobrist_hash),
                Option::Some(
                    Entry {
                        hash: zobrist_hash,
                        evaluation: store_mate_spec(
                            clamp_score_spec(evaluation as int),
                            ply_searched as int,
                        ) as i32,
                        best_move: best_move,
                        entry_type: entry_type,
                        depth: depth,
                    },
                ),
            ),
    {
        let clamped = if evaluation > SCORE_LIMIT {
            SCORE_LIMIT
        } else if evaluation < -SCORE_LIMIT {
            -SCORE_LIMIT
        } else {
            evaluation
        };
        let stored = store_optimized_mate_score(clamped, ply_searched);
        let idx = (zobrist_hash % (TT_CAPACITY as u64)) as usize;
        self.slots.set(
            idx,
            Option::Some(
                Entry {
                    hash: zobrist_hash,
                    evaluation: stored,
                    best_move: best_move,
                    entry_type: entry_type,
                    depth: depth,
                },
            ),
        );
    }
}

} // verus!
