//! Tuning constants of the engine.
//!
//! The mate constant is far above any achievable material and
//! positional sum, so that mate scores always stay outside the range
//! of ordinary evaluations; scores whose magnitude lies within
//! `MATE_MARGIN` of it are treated as forced-mate scores.

use vstd::prelude::*;

verus! {

/// Score of a checkmate, before the ply adjustment that prefers
/// faster mates.
pub const CHECKMATE_EVAL: i32 = 100000;

/// Leeway under `CHECKMATE_EVAL` within which a score still counts as
/// a mate score (mate scores lose up to a ply count in magnitude).
pub const MATE_MARGIN: i32 = 100;

/// Deepest iteration of the iterative-deepening loop.
pub const MAX_DEPTH: u8 = 5;

/// Most check-extension plies granted along one search path.
pub const MAX_EXTENSIONS: u8 = 3;

/// Number of plies for which killer moves are remembered.
pub const MAX_KILLER_MOVE_PLY: usize = 64;

/// Recursion budget of the quiescence search.
pub const QUIESCENCE_DEPTH: u8 = 32;

/// Move ply from which on the game counts as an endgame.
pub const ENDGAME_PLY: u32 = 50;

/// Bonus for a side whose king has castled behind its pawns.
pub const CASTLED_BONUS: i32 = 100;

/// Penalty for a side that has permanently lost castling rights.
pub const LOST_CASTLE_PENALTY: i32 = 200;

/// Ordering bonus for a move that gives check.
pub const CHECK_BONUS: i32 = 250;

/// Ordering bonus for a pawn promotion.
pub const PROMOTION_BONUS: i32 = 800;

/// Ordering bonus for a move matching a killer slot at its ply.
pub const KILLER_BONUS: i32 = 400;

/// Ordering bonus band for a winning capture.
pub const GOOD_CAPTURE_BONUS: i32 = 600;

/// Ordering bonus band for a losing capture that can be recaptured.
pub const BAD_CAPTURE_BONUS: i32 = 200;

/// Ordering penalty when the destination square can be recaptured.
pub const RECAPTURE_PENALTY: i32 = 25;

/// Number of slots of the fixed-capacity transposition table.
pub const TT_CAPACITY: usize = 65536;

/// A bound on every score the transposition table stores; far inside
/// `i32`, so the ply arithmetic of mate-score rebasing cannot
/// overflow, and far outside any score a chess position can reach.
pub const SCORE_LIMIT: i32 = 10000000;

/// A bound on every score the search returns: the storable range
/// widened by twice the largest ply adjustment of mate-score
/// rebasing.
pub const SCORE_BOUND: i32 = 10000510;

} // verus!
