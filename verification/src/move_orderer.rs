//! Heuristic move ordering.
//!
//! Candidate moves are ranked by a cheap static score so that
//! alpha-beta cutoffs come early: checking moves, promotions and
//! winning captures first, then killer moves and history-favored
//! quiet moves. The killer and history tables are fixed-capacity
//! state owned by one top-level search call.

use vstd::prelude::*;

use crate::constants::BAD_CAPTURE_BONUS;
use crate::constants::CHECK_BONUS;
use crate::constants::GOOD_CAPTURE_BONUS;
use crate::constants::KILLER_BONUS;
use crate::constants::MAX_KILLER_MOVE_PLY;
use crate::constants::PROMOTION_BONUS;
use crate::constants::RECAPTURE_PENALTY;
use crate::evaluation::get_count_of_piece;
use crate::evaluation::piece_value_spec;
use crate::rules::Move;
use crate::rules::Piece;
use crate::rules::apply_move;
use crate::rules::capture_moves;
use crate::rules::capture_moves_of;
use crate::rules::captured_piece_spec;
use crate::rules::child_of;
use crate::rules::en_passant;
use crate::rules::in_check;
use crate::rules::in_check_of;
use crate::rules::legal_moves_of;
use crate::rules::piece_on;
use crate::rules::piece_on_of;
use crate::rules::white_to_move;
use crate::rules::white_to_move_of;

verus! {

broadcast use vstd::seq_lib::group_to_multiset_ensures;

/// Up to two quiet moves that caused a cutoff at one ply; slot 0 is
/// the most recent.
#[derive(Clone, Copy, Debug)]
pub struct KillerMoveEntry {
    pub first_move: Option<Move>,
    pub second_move: Option<Move>,
}

impl KillerMoveEntry {
    /// Record a killer move: a repeat of slot 0 is a no-op, anything
    /// else shifts slot 0 into slot 1 and evicts the old slot 1.
    pub fn add_move(&mut self, new_killer_move: Move)
        ensures
            old(self).first_move == Option::Some(new_killer_move) ==> *final(self) == *old(self),
            old(self).first_move != Option::Some(new_killer_move) ==> final(self).first_move
                == Option::Some(new_killer_move) && final(self).second_move == old(
                self,
            ).first_move,
    {
        let replace = match &self.first_move {
            Option::Some(f) => !(*f == new_killer_move),
            Option::None => true,
        };
        if replace {
            self.second_move = self.first_move;
            self.first_move = Option::Some(new_killer_move);
        }
    }

    /// Whether either slot holds this move.
    pub fn contains_move(&self, chess_move: Move) -> (r: bool)
        ensures
            r == (self.first_move == Option::Some(chess_move) || self.second_move == Option::Some(
                chess_move,
            )),
    {
        let in_first = match &self.first_move {
            Option::Some(f) => *f == chess_move,
            Option::None => false,
        };
        let in_second = match &self.second_move {
            Option::Some(s) => *s == chess_move,
            Option::None => false,
        };
        in_first || in_second
    }
}

/// The flat index of a (source, destination, side) cell of the
/// history table.
pub open spec fn history_index_spec(source: u8, dest: u8, white: bool) -> int {
    (source as int * 64 + dest as int) * 2 + if white {
        0int
    } else {
        1int
    }
}

/// Whether the opponent, after the move, has a capture landing on the
/// move's destination square.
pub open spec fn recapturable_spec(b: chess::Board, m: Move) -> bool {
    exists|i: int|
        0 <= i < capture_moves_of(child_of(b, m)).len() && capture_moves_of(child_of(b, m))[i].dest
            == m.dest
}

/// The value of the moving piece, or zero if the source square is
/// unexpectedly empty.
pub open spec fn attacker_value_spec(b: chess::Board, m: Move) -> int {
    match piece_on_of(b, m.source) {
        Option::Some(p) => piece_value_spec(p),
        Option::None => 0,
    }
}

/// Killer and history heuristic state, created fresh for each
/// top-level move choice.
pub struct MoveOrderer {
    pub history: Vec<u8>,
    pub killer_moves: Vec<KillerMoveEntry>,
}

impl MoveOrderer {
    /// Both tables have their fixed capacity.
    pub open spec fn wf(self) -> bool {
        self.history@.len() == 8192 && self.killer_moves@.len() == MAX_KILLER_MOVE_PLY
    }

    /// The killer bonus of a move at a ply.
    pub open spec fn killer_term_spec(self, m: Move, ply: u8) -> int {
        if (ply as int) < MAX_KILLER_MOVE_PLY && (self.killer_moves@[ply as int].first_move
            == Option::Some(m) || self.killer_moves@[ply as int].second_move == Option::Some(m)) {
            KILLER_BONUS as int
        } else {
            0
        }
    }

    /// The stored history score of a move for the side to move.
    pub open spec fn history_term_spec(self, m: Move, white: bool) -> int {
        self.history@[history_index_spec(m.source, m.dest, white)] as int
    }

    /// The heuristic ordering score of one move: a check bonus, a
    /// promotion bonus, capture scoring by victim value minus
    /// attacker value in a good or bad band, killer and history
    /// bonuses for quiet moves, and a penalty when the destination
    /// can be recaptured.
    pub open spec fn score_spec(self, b: chess::Board, m: Move, ply: u8) -> int {
        let check_term: int = if in_check_of(child_of(b, m)) {
            CHECK_BONUS as int
        } else {
            0
        };
        let promo_term: int = if m.promotion is Some {
            PROMOTION_BONUS as int
        } else {
            0
        };
        let main_term: int = match captured_piece_spec(b, m) {
            Option::Some(victim) => {
                let difference = piece_value_spec(victim) - attacker_value_spec(b, m);
                if recapturable_spec(b, m) {
                    (if difference > 0 {
                        GOOD_CAPTURE_BONUS as int
                    } else {
                        BAD_CAPTURE_BONUS as int
                    }) + difference
                } else {
                    GOOD_CAPTURE_BONUS + difference
                }
            },
            Option::None => self.killer_term_spec(m, ply) + self.history_term_spec(
                m,
                white_to_move_of(b),
            ),
        };
        let recap_term: int = if recapturable_spec(b, m) {
            -RECAPTURE_PENALTY as int
        } else {
            0
        };
        check_term + promo_term + main_term + recap_term
    }

    /// Fresh, empty heuristic tables.
    pub fn new() -> (r: MoveOrderer)
        ensures
            r.wf(),
            forall|i: int| 0 <= i < 8192 ==> r.history@[i] == 0,
            forall|i: int|
                0 <= i < MAX_KILLER_MOVE_PLY ==> (#[trigger] r.killer_moves@[i]).first_move
                    is None && r.killer_moves@[i].second_move is None,
    {
        let mut history: Vec<u8> = Vec::new();
        while history.len() < 8192
            invariant
                history@.len() <= 8192,
                forall|i: int| 0 <= i < history@.len() ==> history@[i] == 0,
            decreases 8192 - history@.len(),
        {
            history.push(0);
        }
        let mut killer_moves: Vec<KillerMoveEntry> = Vec::new();
        while killer_moves.len() < MAX_KILLER_MOVE_PLY
            invariant
                killer_moves@.len() <= MAX_KILLER_MOVE_PLY,
                forall|i: int|
                    0 <= i < killer_moves@.len() ==> (#[trigger] killer_moves@[i]).first_move
                        is None && killer_moves@[i].second_move is None,
            decreases MAX_KILLER_MOVE_PLY - killer_moves@.len(),
        {
            killer_moves.push(KillerMoveEntry { first_move: Option::None, second_move: Option::None });
        }
        MoveOrderer { history, killer_moves }
    }

    /// Record a quiet cutoff move as a killer at its ply; plies past
    /// the killer table are ignored.
    pub fn add_killer_move(&mut self, killer_move: Move, ply_searched: u8)
        requires
            old(self).wf(),
        ensures
            final(self).wf(),
            final(self).history == old(self).history,
            (ply_searched as int) >= MAX_KILLER_MOVE_PLY ==> final(self).killer_moves
                == old(self).killer_moves,
            (ply_searched as int) < MAX_KILLER_MOVE_PLY ==> {
                let e = old(self).killer_moves@[ply_searched as int];
                let e2 = final(self).killer_moves@[ply_searched as int];
                &&& final(self).killer_moves@ == old(self).killer_moves@.update(
                    ply_searched as int,
                    e2,
                )
                &&& e.first_move == Option::Some(killer_move) ==> e2 == e
                &&& e.first_move != Option::Some(killer_move) ==> e2.first_move == Option::Some(
                    killer_move,
                ) && e2.second_move == e.first_move
            },
    {
        let index = ply_searched as usize;
        if index >= self.killer_moves.len() {
            return ;
        }
        let mut entry = self.killer_moves[index];
        entry.add_move(killer_move);
        self.killer_moves.set(index, entry);
    }

    /// Raise the history score of a (source, destination, side) cell,
    /// saturating at the table's maximum.
    pub fn add_history(&mut self, chess_move: Move, maximizing_player: bool, score: u8)
        requires
            old(self).wf(),
            chess_move.wf(),
        ensures
            final(self).wf(),
            final(self).killer_moves == old(self).killer_moves,
            final(self).history@ == old(self).history@.update(
                history_index_spec(chess_move.source, chess_move.dest, maximizing_player),
                (if old(self).history@[history_index_spec(
                    chess_move.source,
                    chess_move.dest,
                    maximizing_player,
                )] + score > 255 {
                    255u8
                } else {
                    (old(self).history@[history_index_spec(
                        chess_move.source,
                        chess_move.dest,
                        maximizing_player,
                    )] + score) as u8
                }),
            ),
    {
        let player_dim: usize = if maximizing_player {
            0
        } else {
            1
        };
        let index: usize = ((chess_move.source as usize) * 64 + (chess_move.dest as usize)) * 2
            + player_dim;
        let current = self.history[index];
        let raised: u8 = if (current as u32) + (score as u32) > 255 {
            255
        } else {
            current + score
        };
        self.history.set(index, raised);
    }

    /// Compute one move's heuristic ordering score.
    pub fn score(&self, chess_move: &Move, board: &chess::Board, ply_searched: u8) -> (r: i32)
        requires
            self.wf(),
            chess_move.wf(),
            legal_moves_of(*board).contains(*chess_move),
        ensures
            r == self.score_spec(*board, *chess_move, ply_searched),
            -12000 <= r <= 12000,
    {
        let child = apply_move(board, chess_move);
        let gives_check = in_check(&child);
        let caps = capture_moves(&child);
        let mut recap = false;
        let mut k: usize = 0;
        while k < caps.len()
            invariant
                k <= caps@.len(),
                caps@ == capture_moves_of(child_of(*board, *chess_move)),
                recap <==> exists|i: int| 0 <= i < k && caps@[i].dest == chess_move.dest,
            decreases caps@.len() - k,
        {
            if caps[k].dest == chess_move.dest {
                recap = true;
            }
            k = k + 1;
        }

        let piece_at_dest = piece_on(board, chess_move.dest);
        let captured = if piece_at_dest.is_some() {
            piece_at_dest
        } else {
            match en_passant(board) {
                Option::Some(eps) => {
                    let src_is_pawn = match piece_on(board, chess_move.source) {
                        Option::Some(p) => p == Piece::Pawn,
                        Option::None => false,
                    };
                    if src_is_pawn && chess_move.source % 8 != chess_move.dest % 8 {
                        piece_on(board, eps)
                    } else {
                        Option::None
                    }
                },
                Option::None => Option::None,
            }
        };

        let mut score: i32 = 0;
        if gives_check {
            score = score + CHECK_BONUS;
        }
        if chess_move.promotion.is_some() {
            score = score + PROMOTION_BONUS;
        }
        match captured {
            Option::Some(captured_piece) => {
                let captured_value = get_count_of_piece(captured_piece) as i32;
                let our_value: i32 = match piece_on(board, chess_move.source) {
                    Option::Some(p) => get_count_of_piece(p) as i32,
                    Option::None => 0,
                };
                let difference = captured_value - our_value;
                if recap {
                    score = score + (if difference > 0 {
                        GOOD_CAPTURE_BONUS
                    } else {
                        BAD_CAPTURE_BONUS
                    }) + difference;
                } else {
                    score = score + GOOD_CAPTURE_BONUS + difference;
                }
            },
            Option::None => {
                let index = ply_searched as usize;
                let is_killer = index < self.killer_moves.len()
                    && self.killer_moves[index].contains_move(*chess_move);
                if is_killer {
                    score = score + KILLER_BONUS;
                }
                let white = white_to_move(board);
                let player_dim: usize = if white {
                    0
                } else {
                    1
                };
                let hidx: usize = ((chess_move.source as usize) * 64 + (chess_move.dest as usize))
                    * 2 + player_dim;
                score = score + (self.history[hidx] as i32);
            },
        }
        if recap {
            score = score - RECAPTURE_PENALTY;
        }
        score
    }

    /// Order candidate moves by descending heuristic score. The
    /// result is a permutation of the input; ties may fall either
    /// way.
    pub fn order_moves(&self, moves: Vec<Move>, board: &chess::Board, ply_searched: u8) -> (r: Vec<
        Move,
    >)
        requires
            self.wf(),
            forall|i: int|
                0 <= i < moves@.len() ==> (#[trigger] moves@[i]).wf() && legal_moves_of(
                    *board,
                ).contains(moves@[i]),
        ensures
            r@.to_multiset() == moves@.to_multiset(),
            r@.len() == moves@.len(),
            forall|i: int|
                0 <= i < r@.len() ==> (#[trigger] r@[i]).wf() && legal_moves_of(*board).contains(
                    r@[i],
                ),
            forall|a: int, b: int|
                0 <= a < b < r@.len() ==> self.score_spec(*board, r@[a], ply_searched)
                    >= self.score_spec(*board, r@[b], ply_searched),
    {
        let ghost orig = moves@;
        let mut rest = moves;
        let mut scores: Vec<i32> = Vec::new();
        let mut i: usize = 0;
        while i < rest.len()
            invariant
                self.wf(),
                rest@ == orig,
                i <= orig.len(),
                scores@.len() == i,
                forall|j: int|
                    0 <= j < orig.len() ==> (#[trigger] orig[j]).wf() && legal_moves_of(
                        *board,
                    ).contains(orig[j]),
                forall|j: int|
                    0 <= j < i ==> scores@[j] == self.score_spec(*board, rest@[j], ply_searched),
            decreases orig.len() - i,
        {
            let s = self.score(&rest[i], board, ply_searched);
            scores.push(s);
            i = i + 1;
        }

        let mut out: Vec<Move> = Vec::new();
        while rest.len() > 0
            invariant
                self.wf(),
                rest@.len() == scores@.len(),
                forall|j: int|
                    0 <= j < rest@.len() ==> scores@[j] == self.score_spec(
                        *board,
                        rest@[j],
                        ply_searched,
                    ),
                forall|j: int|
                    0 <= j < rest@.len() ==> (#[trigger] rest@[j]).wf() && legal_moves_of(
                        *board,
                    ).contains(rest@[j]),
                forall|j: int|
                    0 <= j < out@.len() ==> (#[trigger] out@[j]).wf() && legal_moves_of(
                        *board,
                    ).contains(out@[j]),
                out@.to_multiset().add(rest@.to_multiset()) == orig.to_multiset(),
                out@.len() + rest@.len() == orig.len(),
                forall|a: int, b: int|
                    0 <= a < b < out@.len() ==> self.score_spec(*board, out@[a], ply_searched)
                        >= self.score_spec(*board, out@[b], ply_searched),
                forall|a: int, j: int|
                    0 <= a < out@.len() && 0 <= j < rest@.len() ==> self.score_spec(
                        *board,
                        out@[a],
                        ply_searched,
                    ) >= scores@[j],
            decreases rest@.len(),
        {
            let mut best: usize = 0;
            let mut k: usize = 1;
            while k < rest.len()
                invariant
                    rest@.len() > 0,
                    best < k,
                    k <= rest@.len(),
                    forall|j: int| 0 <= j < k ==> scores@[best as int] >= scores@[j],
                    scores@.len() == rest@.len(),
                decreases rest@.len() - k,
            {
                if scores[k] > scores[best] {
                    best = k;
                }
                k = k + 1;
            }
            let ghost old_out = out@;
            let ghost old_rest = rest@;
            let mv = rest.remove(best);
            let _removed_score = scores.remove(best);
            out.push(mv);
            proof {
                old_rest.remove_ensures(best as int);
                assert(out@.to_multiset() =~= old_out.to_multiset().insert(mv));
                assert(rest@.to_multiset() =~= old_rest.to_multiset().remove(mv));
                assert(out@.to_multiset().add(rest@.to_multiset()) =~= orig.to_multiset());
            }
        }
        out
    }

    /// A winning capture (attacker worth less than the victim) always
    /// scores strictly above a losing capture (attacker worth more
    /// than the victim), when neither move gives check or promotes.
    pub proof fn lemma_winning_capture_above_losing(
        self,
        b: chess::Board,
        m1: Move,
        m2: Move,
        v1: Piece,
        a1: Piece,
        v2: Piece,
        a2: Piece,
        ply: u8,
    )
        requires
            !in_check_of(child_of(b, m1)),
            !in_check_of(child_of(b, m2)),
            m1.promotion is None,
            m2.promotion is None,
            captured_piece_spec(b, m1) == Option::Some(v1),
            piece_on_of(b, m1.source) == Option::Some(a1),
            piece_value_spec(a1) < piece_value_spec(v1),
            captured_piece_spec(b, m2) == Option::Some(v2),
            piece_on_of(b, m2.source) == Option::Some(a2),
            piece_value_spec(a2) > piece_value_spec(v2),
        ensures
            self.score_spec(b, m1, ply) > self.score_spec(b, m2, ply),
    {
    }

    /// A checking move always scores strictly above a quiet
    /// positional move of equal or lower heuristic weight (killer and
    /// history bonuses net of the recapture penalty), when neither
    /// captures or promotes.
    pub proof fn lemma_checking_move_above_quiet(self, b: chess::Board, m1: Move, m2: Move, ply: u8)
        requires
            in_check_of(child_of(b, m1)),
            !in_check_of(child_of(b, m2)),
            m1.promotion is None,
            m2.promotion is None,
            captured_piece_spec(b, m1) is None,
            captured_piece_spec(b, m2) is None,
            self.killer_term_spec(m2, ply) + self.history_term_spec(m2, white_to_move_of(b)) - (
            if recapturable_spec(b, m2) {
                RECAPTURE_PENALTY as int
            } else {
                0int
            }) <= self.killer_term_spec(m1, ply) + self.history_term_spec(m1, white_to_move_of(b))
                - (if recapturable_spec(b, m1) {
                RECAPTURE_PENALTY as int
            } else {
                0int
            }),
        ensures
            self.score_spec(b, m1, ply) > self.score_spec(b, m2, ply),
    {
    }

    /// In an ordering sorted by descending score, a move scoring
    /// strictly higher than another stands strictly before it.
    pub proof fn lemma_higher_score_ranked_first(
        self,
        b: chess::Board,
        r: Seq<Move>,
        ply: u8,
        i: int,
        j: int,
    )
        requires
            forall|a: int, c: int|
                0 <= a < c < r.len() ==> self.score_spec(b, r[a], ply) >= self.score_spec(
                    b,
                    r[c],
                    ply,
                ),
            0 <= i < r.len(),
            0 <= j < r.len(),
            self.score_spec(b, r[i], ply) > self.score_spec(b, r[j], ply),
        ensures
            i < j,
    {
        if j < i {
            assert(self.score_spec(b, r[j], ply) >= self.score_spec(b, r[i], ply));
        }
    }
}

} // verus!
