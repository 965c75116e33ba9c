//! The engine's interface to the external rules engine (the `chess`
//! crate).
//!
//! A position is an opaque `chess::Board` value: the engine only reads
//! from it and requests new positions by applying moves. Each
//! observation a wrapper returns is named by an uninterpreted spec
//! function of the board, so contracts elsewhere can relate separate
//! observations of the same position without restating chess rules.
//! Square indices run 0..64 in rank-major order (a1 = 0, h8 = 63),
//! matching the rules engine's own indexing.

use vstd::prelude::*;

verus! {

/// The piece kinds of chess, in the rules engine's order.
#[derive(Clone, Copy, Debug, PartialEq, Eq, Structural)]
pub enum Piece {
    Pawn,
    Knight,
    Bishop,
    Rook,
    Queen,
    King,
}

/// How the rules engine classifies a position.
#[derive(Clone, Copy, Debug, PartialEq, Eq, Structural)]
pub enum GameStatus {
    Ongoing,
    Stalemate,
    Checkmate,
}

/// A move: source square, destination square, and an optional
/// promotion piece. Equality is structural; "no move yet" is always
/// an `Option<Move>` of `None`, never a sentinel square pair.
#[derive(Clone, Copy, Debug)]
pub struct Move {
    pub source: u8,
    pub dest: u8,
    pub promotion: Option<Piece>,
}

impl Move {
    /// Both squares lie on the board.
    pub open spec fn wf(self) -> bool {
        self.source < 64 && self.dest < 64
    }
}

impl PartialEq for Move {
    fn eq(&self, other: &Move) -> (r: bool) {
        self.source == other.source && self.dest == other.dest && (match (
            self.promotion,
            other.promotion,
        ) {
            (Option::None, Option::None) => true,
            (Option::Some(p), Option::Some(q)) => p == q,
            _ => false,
        })
    }
}

impl vstd::std_specs::cmp::PartialEqSpecImpl for Move {
    open spec fn obeys_eq_spec() -> bool {
        true
    }

    open spec fn eq_spec(&self, other: &Move) -> bool {
        self.source == other.source && self.dest == other.dest && self.promotion
            == other.promotion
    }
}

#[verifier::external_type_specification]
#[verifier::external_body]
pub struct ExBoard(chess::Board);

#[verifier::external_type_specification]
#[verifier::external_body]
pub struct ExChessMove(chess::ChessMove);

/// The status the rules engine reports for a position.
pub uninterp spec fn status_of(b: chess::Board) -> GameStatus;

/// Whether white is the side to move.
pub uninterp spec fn white_to_move_of(b: chess::Board) -> bool;

/// The rules engine's 64-bit Zobrist hash of a position.
pub uninterp spec fn hash_of(b: chess::Board) -> u64;

/// Every legal move of a position, in the rules engine's order.
pub uninterp spec fn legal_moves_of(b: chess::Board) -> Seq<Move>;

/// The legal moves whose destination is occupied by the opponent, in
/// the rules engine's order.
pub uninterp spec fn capture_moves_of(b: chess::Board) -> Seq<Move>;

/// The position reached by applying a legal move.
pub uninterp spec fn child_of(b: chess::Board, m: Move) -> chess::Board;

/// Whether the side to move is in check.
pub uninterp spec fn in_check_of(b: chess::Board) -> bool;

/// The piece of either color on a square, if any.
pub uninterp spec fn piece_on_of(b: chess::Board, sq: u8) -> Option<Piece>;

/// The en-passant square (the square of the pawn that may be captured
/// in passing), if any.
pub uninterp spec fn en_passant_of(b: chess::Board) -> Option<u8>;

/// Whether a side has no castling rights left.
pub uninterp spec fn no_castle_rights_of(b: chess::Board, white: bool) -> bool;

/// The square of a side's king.
pub uninterp spec fn king_square_of(b: chess::Board, white: bool) -> u8;

/// The bitboard (bit `i` for square `i`) of one piece kind, both
/// colors combined.
pub uninterp spec fn pieces_bb_of(b: chess::Board, p: Piece) -> u64;

/// The bitboard of all pieces of one color.
pub uninterp spec fn color_bb_of(b: chess::Board, white: bool) -> u64;

/// Whether a board passes the rules engine's own structural sanity
/// check (chess::Board::is_sane), whose clauses include exactly one
/// king of each color. Boards built by the engine's constructors
/// pass it and legal moves preserve it, but the rules engine also
/// offers edits (clearing a square, for one) that yield boards which
/// do not, so facts resting on it hold only conditionally.
pub uninterp spec fn sane_of(b: chess::Board) -> bool;

/// Relies on chess::Board::status: `Ongoing`, `Stalemate` or
/// `Checkmate` as decided by the rules engine's legal move generation.
#[verifier::external_body]
pub fn status(b: &chess::Board) -> (r: GameStatus)
    ensures
        r == status_of(*b),
{
    match b.status() {
        chess::BoardStatus::Ongoing => GameStatus::Ongoing,
        chess::BoardStatus::Stalemate => GameStatus::Stalemate,
        chess::BoardStatus::Checkmate => GameStatus::Checkmate,
    }
}

/// Relies on chess::Board::side_to_move.
#[verifier::external_body]
pub fn white_to_move(b: &chess::Board) -> (r: bool)
    ensures
        r == white_to_move_of(*b),
{
    b.side_to_move() == chess::Color::White
}

/// Relies on chess::Board::get_hash: a Zobrist hash that is stable
/// across equal positions regardless of move history.
#[verifier::external_body]
pub fn position_hash(b: &chess::Board) -> (r: u64)
    ensures
        r == hash_of(*b),
{
    b.get_hash()
}

/// Relies on chess::ChessMove's accessors: source and destination
/// square indices (0..64 by construction) and the promotion piece.
#[verifier::external_body]
fn from_engine_move(m: chess::ChessMove) -> (r: Move)
    ensures
        r.wf(),
{
    Move {
        source: m.get_source().to_index() as u8,
        dest: m.get_dest().to_index() as u8,
        promotion: match m.get_promotion() {
            Option::None => Option::None,
            Option::Some(chess::Piece::Pawn) => Option::Some(Piece::Pawn),
            Option::Some(chess::Piece::Knight) => Option::Some(Piece::Knight),
            Option::Some(chess::Piece::Bishop) => Option::Some(Piece::Bishop),
            Option::Some(chess::Piece::Rook) => Option::Some(Piece::Rook),
            Option::Some(chess::Piece::Queen) => Option::Some(Piece::Queen),
            Option::Some(chess::Piece::King) => Option::Some(Piece::King),
        },
    }
}

/// Relies on chess::MoveGen::new_legal: every legal move of the
/// position, each converted one for one.
#[verifier::external_body]
pub fn legal_moves(b: &chess::Board) -> (r: Vec<Move>)
    ensures
        r@ == legal_moves_of(*b),
        forall|i: int| 0 <= i < r@.len() ==> (#[trigger] r@[i]).wf(),
{
    chess::MoveGen::new_legal(b).map(|m| from_engine_move(m)).collect()
}

/// Relies on chess::MoveGen::new_legal with set_iterator_mask over
/// chess::Board::color_combined of the opponent: the legal moves that
/// land on an opponent-occupied square, a subset of the legal moves.
#[verifier::external_body]
pub fn capture_moves(b: &chess::Board) -> (r: Vec<Move>)
    ensures
        r@ == capture_moves_of(*b),
        forall|i: int| 0 <= i < r@.len() ==> (#[trigger] r@[i]).wf(),
        forall|i: int| 0 <= i < r@.len() ==> legal_moves_of(*b).contains(#[trigger] r@[i]),
{
    let mut gen = chess::MoveGen::new_legal(b);
    let targets = *b.color_combined(!b.side_to_move());
    gen.set_iterator_mask(targets);
    gen.map(|m| from_engine_move(m)).collect()
}

/// Relies on chess::Board::make_move_new, which demands a legal move:
/// the position after the move, the original left unchanged.
#[verifier::external_body]
pub fn apply_move(b: &chess::Board, m: &Move) -> (r: chess::Board)
    requires
        legal_moves_of(*b).contains(*m),
        m.wf(),
    ensures
        r == child_of(*b, *m),
{
    let promotion = match m.promotion {
        Option::None => Option::None,
        Option::Some(Piece::Pawn) => Option::Some(chess::Piece::Pawn),
        Option::Some(Piece::Knight) => Option::Some(chess::Piece::Knight),
        Option::Some(Piece::Bishop) => Option::Some(chess::Piece::Bishop),
        Option::Some(Piece::Rook) => Option::Some(chess::Piece::Rook),
        Option::Some(Piece::Queen) => Option::Some(chess::Piece::Queen),
        Option::Some(Piece::King) => Option::Some(chess::Piece::King),
    };
    let source = chess::ALL_SQUARES[m.source as usize];
    let dest = chess::ALL_SQUARES[m.dest as usize];
    b.make_move_new(chess::ChessMove::new(source, dest, promotion))
}

/// Relies on chess::Board::checkers: nonempty exactly when the side
/// to move is in check.
#[verifier::external_body]
pub fn in_check(b: &chess::Board) -> (r: bool)
    ensures
        r == in_check_of(*b),
{
    b.checkers().0 != 0
}

/// Relies on chess::Board::piece_on.
#[verifier::external_body]
pub fn piece_on(b: &chess::Board, sq: u8) -> (r: Option<Piece>)
    requires
        sq < 64,
    ensures
        r == piece_on_of(*b, sq),
{
    match b.piece_on(chess::ALL_SQUARES[sq as usize]) {
        Option::None => Option::None,
        Option::Some(chess::Piece::Pawn) => Option::Some(Piece::Pawn),
        Option::Some(chess::Piece::Knight) => Option::Some(Piece::Knight),
        Option::Some(chess::Piece::Bishop) => Option::Some(Piece::Bishop),
        Option::Some(chess::Piece::Rook) => Option::Some(Piece::Rook),
        Option::Some(chess::Piece::Queen) => Option::Some(Piece::Queen),
        Option::Some(chess::Piece::King) => Option::Some(Piece::King),
    }
}

/// Relies on chess::Board::en_passant: the square of the pawn that
/// can be captured in passing, if any; square indices are 0..64 by
/// construction.
#[verifier::external_body]
pub fn en_passant(b: &chess::Board) -> (r: Option<u8>)
    ensures
        r == en_passant_of(*b),
        match r {
            Option::Some(s) => s < 64,
            Option::None => true,
        },
{
    (*b).en_passant().map(|s| s.to_index() as u8)
}

/// Relies on chess::Board::castle_rights.
#[verifier::external_body]
pub fn has_no_castle_rights(b: &chess::Board, white: bool) -> (r: bool)
    ensures
        r == no_castle_rights_of(*b, white),
{
    let color = if white {
        chess::Color::White
    } else {
        chess::Color::Black
    };
    b.castle_rights(color) == chess::CastleRights::NoRights
}

/// Relies on chess::Board::king_square, which reads the first set bit
/// of the side's king bitboard and so demands that it is nonempty.
#[verifier::external_body]
pub fn king_square(b: &chess::Board, white: bool) -> (r: u8)
    requires
        pieces_bb_of(*b, Piece::King) & color_bb_of(*b, white) != 0,
    ensures
        r == king_square_of(*b, white),
        r < 64,
{
    let color = if white {
        chess::Color::White
    } else {
        chess::Color::Black
    };
    b.king_square(color).to_index() as u8
}

/// Relies on chess::Board::pieces: the bitboard of one piece kind.
/// Distinct piece kinds occupy disjoint squares on every reachable
/// board (the per-square construction and legal move application
/// keep them so); exactly one king a side holds on boards that pass
/// the engine's sanity check, which square edits can break.
#[verifier::external_body]
pub fn pieces_bb(b: &chess::Board, p: Piece) -> (r: u64)
    ensures
        r == pieces_bb_of(*b, p),
        forall|q: Piece| q != p ==> (r & pieces_bb_of(*b, q)) == 0,
        (p == Piece::King && sane_of(*b)) ==> popcount_spec(r & color_bb_of(*b, true)) == 1
            && popcount_spec(r & color_bb_of(*b, false)) == 1,
{
    let piece = match p {
        Piece::Pawn => chess::Piece::Pawn,
        Piece::Knight => chess::Piece::Knight,
        Piece::Bishop => chess::Piece::Bishop,
        Piece::Rook => chess::Piece::Rook,
        Piece::Queen => chess::Piece::Queen,
        Piece::King => chess::Piece::King,
    };
    b.pieces(piece).0
}

/// Relies on chess::Board::color_combined: the bitboard of one side's
/// pieces. The two sides' bitboards are disjoint, by the same
/// structural check the rules engine enforces on every board.
#[verifier::external_body]
pub fn color_bb(b: &chess::Board, white: bool) -> (r: u64)
    ensures
        r == color_bb_of(*b, white),
        r & color_bb_of(*b, !white) == 0,
{
    let color = if white {
        chess::Color::White
    } else {
        chess::Color::Black
    };
    b.color_combined(color).0
}

/// Whether a bitboard contains a square.
pub fn bb_contains(bb: u64, target_square: u8) -> (r: bool)
    requires
        target_square < 64,
    ensures
        r == (bb & (1u64 << target_square) != 0),
{
    bb & (1u64 << target_square) != 0
}

/// The number of set bits among the low `n` bits of `x`.
pub open spec fn popcount_rec(x: u64, n: nat) -> nat
    decreases n,
{
    if n == 0 {
        0
    } else {
        ((x & 1) as nat) + popcount_rec(x >> 1, (n - 1) as nat)
    }
}

/// The number of set bits of a 64-bit bitboard.
pub open spec fn popcount_spec(x: u64) -> nat {
    popcount_rec(x, 64)
}

pub proof fn lemma_popcount_rec_bound(x: u64, n: nat)
    ensures
        popcount_rec(x, n) <= n,
    decreases n,
{
    if n > 0 {
        assert(x & 1 <= 1) by (bit_vector);
        lemma_popcount_rec_bound(x >> 1, (n - 1) as nat);
    }
}

proof fn lemma_popcount_rec_disjoint(a: u64, b: u64, n: nat)
    requires
        a & b == 0,
    ensures
        popcount_rec(a | b, n) == popcount_rec(a, n) + popcount_rec(b, n),
    decreases n,
{
    if n > 0 {
        assert(((a | b) & 1) == (a & 1) + (b & 1)) by (bit_vector)
            requires
                a & b == 0,
        ;
        assert(((a | b) >> 1) == (a >> 1) | (b >> 1)) by (bit_vector);
        assert((a >> 1) & (b >> 1) == 0) by (bit_vector)
            requires
                a & b == 0,
        ;
        lemma_popcount_rec_disjoint(a >> 1, b >> 1, (n - 1) as nat);
    }
}

/// Disjoint bitboards have additive bit counts.
pub proof fn lemma_popcount_disjoint(a: u64, b: u64)
    requires
        a & b == 0,
    ensures
        popcount_spec(a | b) == popcount_spec(a) + popcount_spec(b),
{
    lemma_popcount_rec_disjoint(a, b, 64);
}

/// Count the set bits of a bitboard.
pub fn popcount(x: u64) -> (r: u32)
    ensures
        r == popcount_spec(x),
        r <= 64,
{
    let mut v: u64 = x;
    let mut count: u32 = 0;
    let mut i: u32 = 0;
    proof {
        lemma_popcount_rec_bound(x, 64);
    }
    while i < 64
        invariant
            i <= 64,
            count <= i,
            count + popcount_rec(v, (64 - i) as nat) == popcount_spec(x),
            popcount_spec(x) <= 64,
        decreases 64 - i,
    {
        assert(v & 1 <= 1) by (bit_vector);
        count = count + ((v & 1) as u32);
        v = v >> 1;
        i = i + 1;
    }
    count
}

/// The file (0..8) of a square index.
pub open spec fn square_file(sq: u8) -> int {
    sq as int % 8
}

/// The piece a move captures, if any: the piece on its destination,
/// or the en-passant pawn when an en-passant target exists and a pawn
/// moves diagonally onto an empty square.
pub open spec fn captured_piece_spec(b: chess::Board, m: Move) -> Option<Piece> {
    if piece_on_of(b, m.dest) is Some {
        piece_on_of(b, m.dest)
    } else {
        match en_passant_of(b) {
            Option::Some(eps) => {
                if piece_on_of(b, m.source) == Option::Some(Piece::Pawn) && square_file(m.source)
                    != square_file(m.dest) {
                    piece_on_of(b, eps)
                } else {
                    Option::None
                }
            },
            Option::None => Option::None,
        }
    }
}

/// A move captures exactly when it takes some piece, on its
/// destination square or in passing.
pub open spec fn is_capture_spec(b: chess::Board, m: Move) -> bool {
    captured_piece_spec(b, m) is Some
}

/// Whether a move captures a piece, counting en-passant captures.
pub fn is_move_a_capture(board: &chess::Board, chess_move: &Move) -> (r: bool)
    requires
        chess_move.wf(),
    ensures
        r == is_capture_spec(*board, *chess_move),
{
    if piece_on(board, chess_move.dest).is_some() {
        return true;
    }
    match en_passant(board) {
        Option::Some(eps) => {
            let src_is_pawn = match piece_on(board, chess_move.source) {
                Option::Some(p) => p == Piece::Pawn,
                Option::None => false,
            };
            src_is_pawn && chess_move.source % 8 != chess_move.dest % 8 && piece_on(
                board,
                eps,
            ).is_some()
        },
        Option::None => false,
    }
}

/// A move castles when the king travels more than one file.
pub open spec fn is_castle_spec(b: chess::Board, m: Move) -> bool {
    let d = square_file(m.source) - square_file(m.dest);
    piece_on_of(b, m.source) == Option::Some(Piece::King) && (d > 1 || d < -1)
}

/// Whether a move is a castling move.
pub fn is_move_a_castle(board: &chess::Board, chess_move: &Move) -> (r: bool)
    requires
        chess_move.wf(),
    ensures
        r == is_castle_spec(*board, *chess_move),
{
    let src_is_king = match piece_on(board, chess_move.source) {
        Option::Some(p) => p == Piece::King,
        Option::None => false,
    };
    let sf = chess_move.source % 8;
    let df = chess_move.dest % 8;
    src_is_king && (sf > df + 1 || df > sf + 1)
}

} // verus!
