use std::str::FromStr;

use chess_engine::move_orderer::KillerMoveEntry;
use chess_engine::move_orderer::MoveOrderer;
use chess_engine::rules::Move;

fn mv(source: u8, dest: u8) -> Move {
    Move { source, dest, promotion: None }
}

#[test]
fn killer_entry_keeps_the_two_most_recent() {
    let mut entry = KillerMoveEntry { first_move: None, second_move: None };
    let a = mv(12, 28);
    let b = mv(6, 21);
    let c = mv(1, 18);
    entry.add_move(a);
    assert!(entry.contains_move(a));
    entry.add_move(b);
    assert!(entry.contains_move(a) && entry.contains_move(b));
    // re-adding the most recent move changes nothing
    entry.add_move(b);
    assert!(entry.contains_move(a) && entry.contains_move(b));
    // a third move evicts the oldest
    entry.add_move(c);
    assert!(entry.contains_move(b) && entry.contains_move(c));
    assert!(!entry.contains_move(a));
}

#[test]
fn killer_moves_are_per_ply() {
    let mut orderer = MoveOrderer::new();
    let board = chess::Board::default();
    let e2e4 = mv(12, 28);
    orderer.add_killer_move(e2e4, 0);
    // a quiet killer move scores the killer bonus at its own ply only
    assert_eq!(orderer.score(&e2e4, &board, 0), 400);
    assert_eq!(orderer.score(&e2e4, &board, 1), 0);
}

#[test]
fn history_scores_accumulate_and_saturate() {
    let mut orderer = MoveOrderer::new();
    let board = chess::Board::default();
    let g1f3 = mv(6, 21);
    orderer.add_history(g1f3, true, 9);
    assert_eq!(orderer.score(&g1f3, &board, 0), 9);
    orderer.add_history(g1f3, true, 200);
    orderer.add_history(g1f3, true, 200);
    assert_eq!(orderer.score(&g1f3, &board, 0), 255);
    // the other side's cell is untouched
    let mut other = MoveOrderer::new();
    other.add_history(g1f3, false, 9);
    assert_eq!(other.score(&g1f3, &board, 0), 0);
}

#[test]
fn winning_capture_ranks_above_losing_capture() {
    // white: Kg1, Qh5, Ne3 — black: Kg8, Qd5, pawns e5 (defended) and f6.
    // Nxd5 wins a queen for a knight; Qxe5 loses a queen for a pawn.
    let board =
        chess::Board::from_str("6k1/8/5p2/3qp2Q/8/4N3/8/6K1 w - - 0 1").unwrap();
    let orderer = MoveOrderer::new();
    let winning = mv(20, 35); // e3 -> d5
    let losing = mv(39, 36); // h5 -> e5
    let s_win = orderer.score(&winning, &board, 0);
    let s_lose = orderer.score(&losing, &board, 0);
    // victim minus attacker, in the good band, not recapturable
    assert_eq!(s_win, 600 + (900 - 300));
    // victim minus attacker, in the bad band, recapturable
    assert_eq!(s_lose, 200 + (100 - 900) - 25);
    assert!(s_win > s_lose);

    let legal: Vec<Move> = {
        let mut v = Vec::new();
        for cm in chess::MoveGen::new_legal(&board) {
            v.push(Move {
                source: cm.get_source().to_index() as u8,
                dest: cm.get_dest().to_index() as u8,
                promotion: None,
            });
        }
        v
    };
    let ordered = orderer.order_moves(legal, &board, 0);
    let pos_win = ordered.iter().position(|m| *m == winning).unwrap();
    let pos_lose = ordered.iter().position(|m| *m == losing).unwrap();
    assert!(pos_win < pos_lose);
}

#[test]
fn en_passant_capture_is_scored_as_a_capture() {
    // black just met e4 with ...d4; after white's e4, black may take
    // in passing: d4xe3 with the captured pawn on e4, not on e3
    let board = chess::Board::from_str(
        "rnbqkbnr/ppp1pppp/8/8/3pP3/8/PPPP1PPP/RNBQKBNR b KQkq e3 0 1",
    )
    .unwrap();
    let orderer = MoveOrderer::new();
    let ep_capture = mv(27, 20); // d4 -> e3
    // pawn takes pawn, recapturable by f2: bad band, zero difference
    assert_eq!(orderer.score(&ep_capture, &board, 0), 200 + (100 - 100) - 25);
}

#[test]
fn promotion_earns_its_bonus() {
    let board = chess::Board::from_str("8/P7/8/8/8/6k1/8/6K1 w - - 0 1").unwrap();
    let orderer = MoveOrderer::new();
    let promote = Move { source: 48, dest: 56, promotion: Some(chess_engine::rules::Piece::Queen) };
    assert_eq!(orderer.score(&promote, &board, 0), 800);
}

#[test]
fn checking_move_ranks_above_quiet_move() {
    // white: Kg1, Rd1 — black: Kg8. Rd8+ checks; Ra1 is quiet.
    let board = chess::Board::from_str("6k1/8/8/8/8/8/8/3R2K1 w - - 0 1").unwrap();
    let orderer = MoveOrderer::new();
    let checking = mv(3, 59); // d1 -> d8, check
    let quiet = mv(3, 0); // d1 -> a1
    let s_check = orderer.score(&checking, &board, 0);
    let s_quiet = orderer.score(&quiet, &board, 0);
    assert_eq!(s_check, 250);
    assert_eq!(s_quiet, 0);
    assert!(s_check > s_quiet);
}
