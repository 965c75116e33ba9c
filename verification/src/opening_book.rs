//! A position-hash-indexed opening book with weighted-random
//! sampling.
//!
//! The book maps position hashes to lists of candidate moves with
//! positive integer weights; the host's loader validates and hands
//! over the lists. On a hit one move is drawn with probability
//! proportional to its weight: a uniform number below the total
//! weight is drawn from the random source, and the verified cursor
//! walk picks the unique entry whose cumulative-weight interval
//! contains it. On a miss the caller falls back to the search
//! engine.

use vstd::prelude::*;

use crate::rules::Move;

verus! {

/// A candidate book move with its positive selection weight.
#[derive(Clone, Copy, Debug)]
pub struct WeightedChessMove {
    pub chess_move: Move,
    pub weight: u32,
}

impl WeightedChessMove {
    pub fn new(chess_move: Move, weight: u32) -> (r: Self)
        ensures
            r.chess_move == chess_move,
            r.weight == weight,
    {
        Self { chess_move, weight }
    }
}

/// The candidate moves known for one position hash.
pub struct BookEntry {
    pub hash: u64,
    pub moves: Vec<WeightedChessMove>,
}

/// The sum of the weights of the first `k` moves.
pub open spec fn prefix_weight_spec(moves: Seq<WeightedChessMove>, k: int) -> int
    decreases k,
{
    if k <= 0 {
        0
    } else {
        prefix_weight_spec(moves, k - 1) + moves[k - 1].weight
    }
}

pub proof fn lemma_prefix_weight_bound(moves: Seq<WeightedChessMove>, k: int)
    requires
        0 <= k,
    ensures
        0 <= prefix_weight_spec(moves, k) <= k * 0xFFFF_FFFF,
    decreases k,
{
    if k > 0 {
        lemma_prefix_weight_bound(moves, k - 1);
        assert((k - 1) * 0xFFFF_FFFF + 0xFFFF_FFFF == k * 0xFFFF_FFFF) by (nonlinear_arith);
    }
}

pub proof fn lemma_prefix_weight_lower(moves: Seq<WeightedChessMove>, k: int)
    requires
        0 <= k <= moves.len(),
        forall|i: int| 0 <= i < moves.len() ==> (#[trigger] moves[i]).weight >= 1,
    ensures
        prefix_weight_spec(moves, k) >= k,
    decreases k,
{
    if k > 0 {
        lemma_prefix_weight_lower(moves, k - 1);
    }
}

/// The index whose cumulative-weight interval contains the draw `r`:
/// the unique `idx` with `prefix(idx) <= r < prefix(idx + 1)`.
pub fn get_weighted_index(moves: &Vec<WeightedChessMove>, r: u64) -> (idx: usize)
    requires
        moves@.len() >= 1,
        moves@.len() <= 0xFFFF_FFFF,
        (r as int) < prefix_weight_spec(moves@, moves@.len() as int),
    ensures
        (idx as int) < moves@.len(),
        prefix_weight_spec(moves@, idx as int) <= r as int,
        (r as int) < prefix_weight_spec(moves@, idx as int + 1),
{
    proof {
        lemma_prefix_weight_bound(moves@, moves@.len() as int);
    }
    let mut acc: u64 = 0;
    let mut i: usize = 0;
    while i < moves.len()
        invariant
            i <= moves@.len(),
            moves@.len() <= 0xFFFF_FFFF,
            acc == prefix_weight_spec(moves@, i as int),
            acc <= r,
            (r as int) < prefix_weight_spec(moves@, moves@.len() as int),
            prefix_weight_spec(moves@, moves@.len() as int) <= 0xFFFF_FFFF * 0xFFFF_FFFF,
        decreases moves@.len() - i,
    {
        proof {
            lemma_prefix_weight_bound(moves@, i as int);
            assert(prefix_weight_spec(moves@, moves@.len() as int) - prefix_weight_spec(
                moves@,
                i as int,
            ) >= 0) by {
                lemma_prefix_monotone(moves@, i as int, moves@.len() as int);
            }
        }
        let next = acc + (moves[i].weight as u64);
        if r < next {
            return i;
        }
        acc = next;
        i = i + 1;
    }
    proof {
        assert(false);
    }
    0
}

/// Prefix weights never decrease as the prefix grows.
pub proof fn lemma_prefix_monotone(moves: Seq<WeightedChessMove>, a: int, b: int)
    requires
        0 <= a <= b,
    ensures
        prefix_weight_spec(moves, a) <= prefix_weight_spec(moves, b),
    decreases b - a,
{
    if a < b {
        lemma_prefix_monotone(moves, a, b - 1);
    }
}

/// Relies on rand::random through the thread-local generator, which
/// is seeded per process; nothing is promised of the value drawn.
#[verifier::external_body]
fn random_u64() -> u64 {
    rand::random::<u64>()
}

/// Draw one move from a weighted list: nothing from an empty list,
/// otherwise some listed move, chosen with probability proportional
/// to its weight.
pub fn get_weighted_move(moves: &Vec<WeightedChessMove>) -> (r: Option<Move>)
    requires
        moves@.len() <= 0xFFFF_FFFF,
        forall|i: int| 0 <= i < moves@.len() ==> (#[trigger] moves@[i]).weight >= 1,
    ensures
        r is None <==> moves@.len() == 0,
        match r {
            Option::Some(m) => exists|i: int|
                0 <= i < moves@.len() && moves@[i].chess_move == m,
            Option::None => true,
        },
{
    if moves.len() == 0 {
        return Option::None;
    }
    proof {
        lemma_prefix_weight_bound(moves@, moves@.len() as int);
        lemma_prefix_weight_lower(moves@, moves@.len() as int);
    }
    let mut total: u64 = 0;
    let mut i: usize = 0;
    while i < moves.len()
        invariant
            i <= moves@.len(),
            moves@.len() <= 0xFFFF_FFFF,
            total == prefix_weight_spec(moves@, i as int),
            prefix_weight_spec(moves@, moves@.len() as int) <= 0xFFFF_FFFF * 0xFFFF_FFFF,
        decreases moves@.len() - i,
    {
        proof {
            lemma_prefix_weight_bound(moves@, i as int);
            lemma_prefix_monotone(moves@, i as int + 1, moves@.len() as int);
        }
        total = total + (moves[i].weight as u64);
        i = i + 1;
    }
    let draw = random_u64() % total;
    let idx = get_weighted_index(moves, draw);
    Option::Some(moves[idx].chess_move)
}

/// The whole book: one entry per known position hash.
pub struct OpeningBook {
    pub entries: Vec<BookEntry>,
}

/// The index of the first entry for a hash, if the book knows it.
pub open spec fn find_entry_spec(entries: Seq<BookEntry>, target: u64) -> Option<int>
    decreases entries.len(),
{
    if entries.len() == 0 {
        Option::None
    } else if entries[0].hash == target {
        Option::Some(0int)
    } else {
        match find_entry_spec(entries.drop_first(), target) {
            Option::Some(i) => Option::Some(i + 1),
            Option::None => Option::None,
        }
    }
}

pub proof fn lemma_find_entry_spec(entries: Seq<BookEntry>, target: u64, i: int)
    requires
        0 <= i <= entries.len(),
        forall|j: int| 0 <= j < i ==> (#[trigger] entries[j]).hash != target,
        i < entries.len() ==> entries[i].hash == target,
    ensures
        i < entries.len() ==> find_entry_spec(entries, target) == Option::Some(i),
        i == entries.len() ==> find_entry_spec(entries, target) is None,
    decreases entries.len(),
{
    if entries.len() > 0 && entries[0].hash != target {
        assert(forall|j: int|
            0 <= j < i - 1 ==> (#[trigger] entries.drop_first()[j]).hash != target);
        lemma_find_entry_spec(entries.drop_first(), target, if i == 0 {
            0
        } else {
            i - 1
        });
    }
}

/// A validated move list: bounded, with positive weights only.
pub open spec fn entry_wf(e: BookEntry) -> bool {
    e.moves@.len() <= 0xFFFF_FFFF && forall|j: int|
        0 <= j < e.moves@.len() ==> (#[trigger] e.moves@[j]).weight >= 1
}

impl OpeningBook {
    /// Every entry's move list is validated.
    pub open spec fn wf(self) -> bool {
        forall|i: int| 0 <= i < self.entries@.len() ==> entry_wf(#[trigger] self.entries@[i])
    }

    /// An empty book.
    pub fn new() -> (r: OpeningBook)
        ensures
            r.wf(),
            r.entries@.len() == 0,
    {
        OpeningBook { entries: Vec::new() }
    }

    /// Append one position's move list, rejecting a malformed one (a
    /// zero weight or an oversized list) without changing the book.
    pub fn add_line(&mut self, hash: u64, moves: Vec<WeightedChessMove>) -> (ok: bool)
        requires
            old(self).wf(),
        ensures
            final(self).wf(),
            ok <==> (moves@.len() <= 0xFFFF_FFFF && (forall|j: int|
                0 <= j < moves@.len() ==> (#[trigger] moves@[j]).weight >= 1)),
            ok ==> final(self).entries@ == old(self).entries@.push(
                (BookEntry { hash: hash, moves: moves }),
            ),
            !ok ==> *final(self) == *old(self),
    {
        if moves.len() as u64 > 0xFFFF_FFFFu64 {
            return false;
        }
        let mut j: usize = 0;
        while j < moves.len()
            invariant
                *self == *old(self),
                old(self).wf(),
                moves@.len() <= 0xFFFF_FFFF,
                j <= moves@.len(),
                forall|k: int| 0 <= k < j ==> (#[trigger] moves@[k]).weight >= 1,
            decreases moves@.len() - j,
        {
            if moves[j].weight == 0 {
                return false;
            }
            j = j + 1;
        }
        self.entries.push(BookEntry { hash, moves });
        true
    }
}

/// Look a position hash up in the book: on a hit, draw one of its
/// weighted moves; on a miss (or an empty move list), nothing, and
/// the caller falls back to the search engine.
pub fn opening_book_move(book: &OpeningBook, target: u64) -> (r: Option<Move>)
    requires
        book.wf(),
    ensures
        match find_entry_spec(book.entries@, target) {
            Option::Some(i) => {
                &&& (r is None <==> book.entries@[i].moves@.len() == 0)
                &&& match r {
                    Option::Some(m) => exists|j: int|
                        0 <= j < book.entries@[i].moves@.len() && book.entries@[i].moves@[j].chess_move
                            == m,
                    Option::None => true,
                }
            },
            Option::None => r is None,
        },
{
    let mut i: usize = 0;
    while i < book.entries.len()
        invariant
            i <= book.entries@.len(),
            book.wf(),
            forall|j: int| 0 <= j < i ==> (#[trigger] book.entries@[j]).hash != target,
        decreases book.entries@.len() - i,
    {
        if book.entries[i].hash == target {
            proof {
                lemma_find_entry_spec(book.entries@, target, i as int);
            }
            return get_weighted_move(&book.entries[i].moves);
        }
        i = i + 1;
    }
    proof {
        lemma_find_entry_spec(book.entries@, target, book.entries@.len() as int);
    }
    Option::None
}

} // verus!
