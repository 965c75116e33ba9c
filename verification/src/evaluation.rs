//! Phase-aware static evaluation of a position.
//!
//! Scores are white-positive: a positive score favors white no
//! matter whose turn it is. Terminal positions are detected first —
//! a checkmate score is biased against the side to move, the side
//! that stands mated — otherwise the score is the material balance
//! plus king-safety and castling-rights terms, which are switched
//! off once the game reaches the endgame ply. On sane boards an
//! ongoing position's score is proved to stay far below the mate
//! constant, so no ordinary evaluation is taken for a forced-mate
//! score. A per-square piece-placement term is an optional
//! refinement of such evaluations and is deliberately absent here.

use vstd::prelude::*;

use crate::constants::CASTLED_BONUS;
use crate::constants::CHECKMATE_EVAL;
use crate::constants::ENDGAME_PLY;
use crate::constants::LOST_CASTLE_PENALTY;
use crate::rules::GameStatus;
use crate::rules::Piece;
use crate::rules::color_bb;
use crate::rules::color_bb_of;
use crate::rules::king_square;
use crate::rules::king_square_of;
use crate::rules::lemma_popcount_disjoint;
use crate::rules::lemma_popcount_rec_bound;
use crate::rules::no_castle_rights_of;
use crate::rules::has_no_castle_rights;
use crate::rules::piece_on_of;
use crate::rules::piece_on;
use crate::rules::pieces_bb;
use crate::rules::sane_of;
use crate::rules::pieces_bb_of;
use crate::rules::popcount;
use crate::rules::popcount_spec;
use crate::rules::status;
use crate::rules::status_of;
use crate::rules::white_to_move;
use crate::rules::white_to_move_of;
use crate::transposition_table::is_mate_eval_spec;

verus! {

/// The fixed value of a piece kind.
pub open spec fn piece_value_spec(p: Piece) -> int {
    match p {
        Piece::Pawn => 100,
        Piece::Knight => 300,
        Piece::Bishop => 320,
        Piece::Rook => 500,
        Piece::Queen => 900,
        Piece::King => 10000,
    }
}

/// The fixed value of a piece kind (pawn 100, knight 300, bishop
/// 320, rook 500, queen 900, king 10000).
pub fn get_count_of_piece(piece: Piece) -> (r: u32)
    ensures
        r == piece_value_spec(piece),
{
    match piece {
        Piece::Pawn => 100,
        Piece::Knight => 300,
        Piece::Bishop => 320,
        Piece::Rook => 500,
        Piece::Queen => 900,
        Piece::King => 10000,
    }
}

/// White's count minus black's count of one piece kind, times its
/// value.
pub open spec fn piece_term_spec(b: chess::Board, p: Piece) -> int {
    (popcount_spec(pieces_bb_of(b, p) & color_bb_of(b, true)) - popcount_spec(
        pieces_bb_of(b, p) & color_bb_of(b, false),
    )) * piece_value_spec(p)
}

/// The material balance: the sum of the per-kind terms.
pub open spec fn material_spec(b: chess::Board) -> int {
    piece_term_spec(b, Piece::Pawn) + piece_term_spec(b, Piece::Knight) + piece_term_spec(
        b,
        Piece::Bishop,
    ) + piece_term_spec(b, Piece::Rook) + piece_term_spec(b, Piece::Queen) + piece_term_spec(
        b,
        Piece::King,
    )
}

/// The twelve kind-and-color piece sets of a position are pairwise
/// disjoint, so their bit counts sum to at most the board's 64
/// squares.
proof fn lemma_material_counts(w: u64, b: u64, p: u64, n: u64, bi: u64, r: u64, q: u64, k: u64)
    requires
        w & b == 0,
        p & n == 0,
        p & bi == 0,
        p & r == 0,
        p & q == 0,
        p & k == 0,
        n & bi == 0,
        n & r == 0,
        n & q == 0,
        n & k == 0,
        bi & r == 0,
        bi & q == 0,
        bi & k == 0,
        r & q == 0,
        r & k == 0,
        q & k == 0,
    ensures
        popcount_spec(p & w) + popcount_spec(p & b) + popcount_spec(n & w) + popcount_spec(n & b)
            + popcount_spec(bi & w) + popcount_spec(bi & b) + popcount_spec(r & w) + popcount_spec(
            r & b,
        ) + popcount_spec(q & w) + popcount_spec(q & b) + popcount_spec(k & w) + popcount_spec(
            k & b,
        ) <= 64,
{
    let u1 = (p & w) | (p & b);
    assert((p & w) & (p & b) == 0) by (bit_vector)
        requires
            w & b == 0,
    ;
    lemma_popcount_disjoint(p & w, p & b);
    let u2 = u1 | (n & w);
    assert(((p & w) | (p & b)) & (n & w) == 0) by (bit_vector)
        requires
            p & n == 0,
    ;
    lemma_popcount_disjoint(u1, n & w);
    let u3 = u2 | (n & b);
    assert((((p & w) | (p & b)) | (n & w)) & (n & b) == 0) by (bit_vector)
        requires
            p & n == 0 && w & b == 0,
    ;
    lemma_popcount_disjoint(u2, n & b);
    let u4 = u3 | (bi & w);
    assert(((((p & w) | (p & b)) | (n & w)) | (n & b)) & (bi & w) == 0) by (bit_vector)
        requires
            p & bi == 0 && n & bi == 0,
    ;
    lemma_popcount_disjoint(u3, bi & w);
    let u5 = u4 | (bi & b);
    assert((((((p & w) | (p & b)) | (n & w)) | (n & b)) | (bi & w)) & (bi & b) == 0)
        by (bit_vector)
        requires
            p & bi == 0 && n & bi == 0 && w & b == 0,
    ;
    lemma_popcount_disjoint(u4, bi & b);
    let u6 = u5 | (r & w);
    assert(((((((p & w) | (p & b)) | (n & w)) | (n & b)) | (bi & w)) | (bi & b)) & (r & w) == 0)
        by (bit_vector)
        requires
            p & r == 0 && n & r == 0 && bi & r == 0,
    ;
    lemma_popcount_disjoint(u5, r & w);
    let u7 = u6 | (r & b);
    assert((((((((p & w) | (p & b)) | (n & w)) | (n & b)) | (bi & w)) | (bi & b)) | (r & w)) & (r
        & b) == 0) by (bit_vector)
        requires
            p & r == 0 && n & r == 0 && bi & r == 0 && w & b == 0,
    ;
    lemma_popcount_disjoint(u6, r & b);
    let u8v = u7 | (q & w);
    assert(((((((((p & w) | (p & b)) | (n & w)) | (n & b)) | (bi & w)) | (bi & b)) | (r & w)) | (r
        & b)) & (q & w) == 0) by (bit_vector)
        requires
            p & q == 0 && n & q == 0 && bi & q == 0 && r & q == 0,
    ;
    lemma_popcount_disjoint(u7, q & w);
    let u9 = u8v | (q & b);
    assert((((((((((p & w) | (p & b)) | (n & w)) | (n & b)) | (bi & w)) | (bi & b)) | (r & w)) | (r
        & b)) | (q & w)) & (q & b) == 0) by (bit_vector)
        requires
            p & q == 0 && n & q == 0 && bi & q == 0 && r & q == 0 && w & b == 0,
    ;
    lemma_popcount_disjoint(u8v, q & b);
    let u10 = u9 | (k & w);
    assert(((((((((((p & w) | (p & b)) | (n & w)) | (n & b)) | (bi & w)) | (bi & b)) | (r & w)) | (
    r & b)) | (q & w)) | (q & b)) & (k & w) == 0) by (bit_vector)
        requires
            p & k == 0 && n & k == 0 && bi & k == 0 && r & k == 0 && q & k == 0,
    ;
    lemma_popcount_disjoint(u9, k & w);
    let u11 = u10 | (k & b);
    assert((((((((((((p & w) | (p & b)) | (n & w)) | (n & b)) | (bi & w)) | (bi & b)) | (r & w)) | (
    r & b)) | (q & w)) | (q & b)) | (k & w)) & (k & b) == 0) by (bit_vector)
        requires
            p & k == 0 && n & k == 0 && bi & k == 0 && r & k == 0 && q & k == 0 && w & b == 0,
    ;
    lemma_popcount_disjoint(u10, k & b);
    lemma_popcount_rec_bound(u11, 64);
}

/// The material balance of a position, white minus black. The
/// kind-and-color sets are disjoint, so at most 64 men weigh in; on
/// a sane board the kings cancel exactly and the balance stays
/// within 62 men of at most queen value.
pub fn count_material(board: &chess::Board) -> (r: i32)
    ensures
        r == material_spec(*board),
        -640000 <= r <= 640000,
        sane_of(*board) ==> -55800 <= r <= 55800,
{
    let white = color_bb(board, true);
    let black = color_bb(board, false);
    let pawns = pieces_bb(board, Piece::Pawn);
    let knights = pieces_bb(board, Piece::Knight);
    let bishops = pieces_bb(board, Piece::Bishop);
    let rooks = pieces_bb(board, Piece::Rook);
    let queens = pieces_bb(board, Piece::Queen);
    let kings = pieces_bb(board, Piece::King);
    let wp = popcount(pawns & white);
    let bp = popcount(pawns & black);
    let wn = popcount(knights & white);
    let bn = popcount(knights & black);
    let wb = popcount(bishops & white);
    let bb = popcount(bishops & black);
    let wr = popcount(rooks & white);
    let br = popcount(rooks & black);
    let wq = popcount(queens & white);
    let bq = popcount(queens & black);
    let wk = popcount(kings & white);
    let bk = popcount(kings & black);
    proof {
        lemma_material_counts(white, black, pawns, knights, bishops, rooks, queens, kings);
        if sane_of(*board) {
            assert(wk == 1 && bk == 1);
        }
    }
    ((wp as i32) - (bp as i32)) * 100 + ((wn as i32) - (bn as i32)) * 300 + ((wb as i32) - (
    bb as i32)) * 320 + ((wr as i32) - (br as i32)) * 500 + ((wq as i32) - (bq as i32)) * 900 + ((
    wk as i32) - (bk as i32)) * 10000
}

/// No rook stands on a square.
pub open spec fn rook_not_on_spec(b: chess::Board, sq: u8) -> bool {
    piece_on_of(b, sq) != Option::Some(Piece::Rook)
}

/// A side's king sits on a post-castling square and the matching
/// rook has left its home square. Squares are rank-major indices:
/// white's back rank is 0..8, black's is 56..64.
pub open spec fn castled_spec(b: chess::Board, white: bool) -> bool {
    if white {
        ((king_square_of(b, true) == 6 || king_square_of(b, true) == 7) && rook_not_on_spec(b, 7))
            || ((king_square_of(b, true) == 2 || king_square_of(b, true) == 1 || king_square_of(
            b,
            true,
        ) == 0) && rook_not_on_spec(b, 0) && rook_not_on_spec(b, 1))
    } else {
        ((king_square_of(b, false) == 62 || king_square_of(b, false) == 63) && rook_not_on_spec(
            b,
            63,
        )) || ((king_square_of(b, false) == 58 || king_square_of(b, false) == 57 || king_square_of(
            b,
            false,
        ) == 56) && rook_not_on_spec(b, 56) && rook_not_on_spec(b, 57))
    }
}

/// The king-safety term of one side: the castled bonus, signed for
/// that side, before the endgame; zero from the endgame ply on.
pub open spec fn king_safety_spec(b: chess::Board, white: bool, move_ply: u32) -> int {
    if move_ply >= ENDGAME_PLY {
        0
    } else if pieces_bb_of(b, Piece::King) & color_bb_of(b, white) == 0 {
        0
    } else if castled_spec(b, white) {
        if white {
            CASTLED_BONUS as int
        } else {
            -CASTLED_BONUS as int
        }
    } else {
        0
    }
}

fn rook_not_on(board: &chess::Board, sq: u8) -> (r: bool)
    requires
        sq < 64,
    ensures
        r == rook_not_on_spec(*board, sq),
{
    match piece_on(board, sq) {
        Option::Some(p) => !(p == Piece::Rook),
        Option::None => true,
    }
}

/// The king-safety term of one side.
pub fn evaluate_king_safety(board: &chess::Board, white: bool, move_ply: u32) -> (r: i32)
    ensures
        r == king_safety_spec(*board, white, move_ply),
        white ==> 0 <= r <= CASTLED_BONUS,
        !white ==> -CASTLED_BONUS <= r <= 0,
{
    if move_ply >= ENDGAME_PLY {
        return 0;
    }
    let kings = pieces_bb(board, Piece::King);
    let own = color_bb(board, white);
    if kings & own == 0 {
        return 0;
    }
    let k = king_square(board, white);
    let castled = if white {
        ((k == 6 || k == 7) && rook_not_on(board, 7)) || ((k == 2 || k == 1 || k == 0)
            && rook_not_on(board, 0) && rook_not_on(board, 1))
    } else {
        ((k == 62 || k == 63) && rook_not_on(board, 63)) || ((k == 58 || k == 57 || k == 56)
            && rook_not_on(board, 56) && rook_not_on(board, 57))
    };
    if castled {
        if white {
            CASTLED_BONUS
        } else {
            -CASTLED_BONUS
        }
    } else {
        0
    }
}

/// The castling-rights term of one side: a penalty, signed for that
/// side, while its rights are permanently gone and the game has not
/// reached the endgame ply.
pub open spec fn castle_penalty_spec(b: chess::Board, white: bool, move_ply: u32) -> int {
    if no_castle_rights_of(b, white) && move_ply < ENDGAME_PLY {
        if white {
            -LOST_CASTLE_PENALTY as int
        } else {
            LOST_CASTLE_PENALTY as int
        }
    } else {
        0
    }
}

/// The castling-rights term of one side.
pub fn can_castle(board: &chess::Board, white: bool, move_ply: u32) -> (r: i32)
    ensures
        r == castle_penalty_spec(*board, white, move_ply),
        white ==> -LOST_CASTLE_PENALTY <= r <= 0,
        !white ==> 0 <= r <= LOST_CASTLE_PENALTY,
{
    if has_no_castle_rights(board, white) && move_ply < ENDGAME_PLY {
        if white {
            -LOST_CASTLE_PENALTY
        } else {
            LOST_CASTLE_PENALTY
        }
    } else {
        0
    }
}

/// The full static evaluation, white-positive. A checkmate scores
/// the mate constant against the side to move (the mated side);
/// stalemate is exactly zero. The `maximizing_player` argument is
/// part of the evaluation interface but plays no role under the
/// white-positive convention, which is fixed once for the whole
/// engine.
pub open spec fn board_eval_spec(b: chess::Board, maximizing_player: bool, move_ply: u32) -> int {
    if status_of(b) == GameStatus::Checkmate {
        if white_to_move_of(b) {
            -CHECKMATE_EVAL as int
        } else {
            CHECKMATE_EVAL as int
        }
    } else if status_of(b) == GameStatus::Stalemate {
        0
    } else {
        material_spec(b) + king_safety_spec(b, true, move_ply) + king_safety_spec(b, false, move_ply)
            + castle_penalty_spec(b, true, move_ply) + castle_penalty_spec(b, false, move_ply)
    }
}

/// Statically evaluate a position: terminal detection first, then
/// material, king safety and castling rights, all white-positive.
/// On a sane ongoing position the score stays well under the mate
/// threshold, so it is never classified or rebased as a mate score.
pub fn board_eval(board: &chess::Board, _maximizing_player: bool, move_ply: u32) -> (r: i32)
    ensures
        r == board_eval_spec(*board, _maximizing_player, move_ply),
        -640300 <= r <= 640300,
        (status_of(*board) == GameStatus::Ongoing && sane_of(*board)) ==> -56100 <= r <= 56100
            && !is_mate_eval_spec(r as int),
{
    let st = status(board);
    if st == GameStatus::Checkmate {
        return if white_to_move(board) {
            -CHECKMATE_EVAL
        } else {
            CHECKMATE_EVAL
        };
    }
    if st == GameStatus::Stalemate {
        return 0;
    }
    let material_count = count_material(board);
    let king_safety = evaluate_king_safety(board, true, move_ply) + evaluate_king_safety(
        board,
        false,
        move_ply,
    );
    let castle_status = can_castle(board, true, move_ply) + can_castle(board, false, move_ply);
    material_count + king_safety + castle_status
}

} // verus!
