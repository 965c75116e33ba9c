use chess_engine::constants::CHECKMATE_EVAL;
use chess_engine::rules::Move;
use chess_engine::transposition_table::get_optimized_mate_score;
use chess_engine::transposition_table::is_mate_eval;
use chess_engine::transposition_table::store_optimized_mate_score;
use chess_engine::transposition_table::TranspositionTable;
use chess_engine::transposition_table::Type;

#[test]
fn mate_eval_classification() {
    assert!(is_mate_eval(CHECKMATE_EVAL));
    assert!(is_mate_eval(CHECKMATE_EVAL - 99));
    assert!(!is_mate_eval(CHECKMATE_EVAL - 100));
    assert!(is_mate_eval(-CHECKMATE_EVAL + 3));
    assert!(!is_mate_eval(0));
    assert!(!is_mate_eval(2500));
}

#[test]
fn ordinary_scores_are_not_rebased() {
    assert_eq!(store_optimized_mate_score(1234, 7), 1234);
    assert_eq!(get_optimized_mate_score(-1234, 7), -1234);
}

#[test]
fn mate_score_round_trip_loses_the_ply_difference() {
    // stored at ply 1, retrieved at ply 4: magnitude drops by 3
    let v = CHECKMATE_EVAL - 5;
    let stored = store_optimized_mate_score(v, 1);
    assert_eq!(stored, v + 1);
    let retrieved = get_optimized_mate_score(stored, 4);
    assert_eq!(retrieved, v - 3);

    // the sign of a mate against us is preserved
    let v = -(CHECKMATE_EVAL - 5);
    let stored = store_optimized_mate_score(v, 1);
    assert_eq!(stored, v - 1);
    let retrieved = get_optimized_mate_score(stored, 4);
    assert_eq!(retrieved, v + 3);
}

#[test]
fn faster_mates_score_better() {
    // for the side delivering mate, fewer plies means a higher score
    assert!(CHECKMATE_EVAL - 2 > CHECKMATE_EVAL - 6);
    let m2 = store_optimized_mate_score(CHECKMATE_EVAL - 2, 0);
    let m6 = store_optimized_mate_score(CHECKMATE_EVAL - 6, 0);
    assert!(get_optimized_mate_score(m2, 1) > get_optimized_mate_score(m6, 1));
}

#[test]
fn exact_entries_are_returned_at_sufficient_depth() {
    let mut tt = TranspositionTable::new();
    let mv = Move { source: 12, dest: 28, promotion: None };
    tt.add(42, 500, 3, Type::Exact, Some(mv), 0);
    assert_eq!(tt.get(42, 3, 0, -CHECKMATE_EVAL, CHECKMATE_EVAL), Some((500, Some(mv))));
    assert_eq!(tt.get(42, 2, 0, -CHECKMATE_EVAL, CHECKMATE_EVAL), Some((500, Some(mv))));
    // deeper than stored: the entry is not trusted
    assert_eq!(tt.get(42, 4, 0, -CHECKMATE_EVAL, CHECKMATE_EVAL), None);
    // a different hash misses
    assert_eq!(tt.get(43, 3, 0, -CHECKMATE_EVAL, CHECKMATE_EVAL), None);
}

#[test]
fn bound_entries_answer_only_matching_windows() {
    let mut tt = TranspositionTable::new();
    tt.add(7, 300, 2, Type::LowerBound, None, 0);
    // usable only when the bound proves a cutoff: score >= beta
    assert_eq!(tt.get(7, 2, 0, 0, 250), Some((300, None)));
    assert_eq!(tt.get(7, 2, 0, 0, 350), None);

    let mut tt = TranspositionTable::new();
    tt.add(7, 300, 2, Type::UpperBound, None, 0);
    // usable only when the score cannot raise alpha: score <= alpha
    assert_eq!(tt.get(7, 2, 0, 350, 400), Some((300, None)));
    assert_eq!(tt.get(7, 2, 0, 250, 400), None);
}

#[test]
fn colliding_slots_are_silently_overwritten() {
    let mut tt = TranspositionTable::new();
    let h1 = 42u64;
    let h2 = 42u64 + 65536; // same slot, different full hash
    tt.add(h1, 100, 1, Type::Exact, None, 0);
    tt.add(h2, 200, 1, Type::Exact, None, 0);
    // last write wins; the evicted entry is gone
    assert_eq!(tt.get(h2, 1, 0, -CHECKMATE_EVAL, CHECKMATE_EVAL), Some((200, None)));
    assert_eq!(tt.get(h1, 1, 0, -CHECKMATE_EVAL, CHECKMATE_EVAL), None);
}

#[test]
fn mate_scores_rebase_through_the_table() {
    let mut tt = TranspositionTable::new();
    // a mate found 2 plies into the search, stored from ply 2
    let local = CHECKMATE_EVAL - 3;
    tt.add(9, local, 5, Type::Exact, None, 2);
    // consulted at ply 4 the same mate is 2 plies closer to the leaf
    assert_eq!(tt.get(9, 5, 4, -CHECKMATE_EVAL, CHECKMATE_EVAL), Some((local - 2, None)));
}
