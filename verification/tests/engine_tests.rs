use std::str::FromStr;

use chess_engine::constants::CHECKMATE_EVAL;
use chess_engine::evaluation::board_eval;
use chess_engine::evaluation::count_material;
use chess_engine::evaluation::get_count_of_piece;
use chess_engine::move_orderer::MoveOrderer;
use chess_engine::rules::bb_contains;
use chess_engine::rules::popcount;
use chess_engine::rules::is_move_a_capture;
use chess_engine::rules::is_move_a_castle;
use chess_engine::rules::Move;
use chess_engine::rules::Piece;
use chess_engine::search::choose_move;
use chess_engine::search::quiescence_search;
use chess_engine::search::search_root;

#[test]
fn piece_values_are_fixed() {
    assert_eq!(get_count_of_piece(Piece::Pawn), 100);
    assert_eq!(get_count_of_piece(Piece::Knight), 300);
    assert_eq!(get_count_of_piece(Piece::Bishop), 320);
    assert_eq!(get_count_of_piece(Piece::Rook), 500);
    assert_eq!(get_count_of_piece(Piece::Queen), 900);
    assert_eq!(get_count_of_piece(Piece::King), 10000);
}

#[test]
fn popcount_counts_bits() {
    assert_eq!(popcount(0), 0);
    assert_eq!(popcount(1), 1);
    assert_eq!(popcount(0xFF), 8);
    assert_eq!(popcount(u64::MAX), 64);
    assert_eq!(popcount(0x8000_0000_0000_0001), 2);
}

#[test]
fn bb_contains_checks_one_square() {
    assert!(bb_contains(1, 0));
    assert!(!bb_contains(1, 1));
    assert!(bb_contains(1u64 << 63, 63));
}

#[test]
fn capture_and_castle_detection() {
    let start = chess::Board::default();
    let e2e4 = Move { source: 12, dest: 28, promotion: None };
    assert!(!is_move_a_capture(&start, &e2e4));
    assert!(!is_move_a_castle(&start, &e2e4));

    // a piece taken on its square
    let board = chess::Board::from_str("6k1/8/5p2/3qp2Q/8/4N3/8/6K1 w - - 0 1").unwrap();
    let nxd5 = Move { source: 20, dest: 35, promotion: None };
    assert!(is_move_a_capture(&board, &nxd5));

    // a pawn taken in passing: the destination square is empty
    let board = chess::Board::from_str(
        "rnbqkbnr/ppp1pppp/8/8/3pP3/8/PPPP1PPP/RNBQKBNR b KQkq e3 0 1",
    )
    .unwrap();
    let dxe3 = Move { source: 27, dest: 20, promotion: None };
    assert!(is_move_a_capture(&board, &dxe3));

    // the king travels two files when castling
    let board = chess::Board::from_str("r3k2r/8/8/8/8/8/8/R3K2R w KQkq - 0 1").unwrap();
    let castle_short = Move { source: 4, dest: 6, promotion: None };
    let king_step = Move { source: 4, dest: 5, promotion: None };
    assert!(is_move_a_castle(&board, &castle_short));
    assert!(!is_move_a_castle(&board, &king_step));
}

#[test]
fn starting_position_is_balanced() {
    let board = chess::Board::default();
    assert_eq!(count_material(&board), 0);
    assert_eq!(board_eval(&board, true, 0), 0);
}

#[test]
fn extra_knight_counts_three_hundred() {
    // white has an extra knight on d4
    let board = chess::Board::from_str(
        "rnbqkbnr/pppppppp/8/8/3N4/8/PPPPPPPP/RNBQKBNR w KQkq - 0 1",
    )
    .unwrap();
    assert_eq!(count_material(&board), 300);
}

#[test]
fn stalemate_evaluates_to_zero() {
    // black to move, stalemated in the corner
    let board = chess::Board::from_str("7k/5Q2/6K1/8/8/8/8/8 b - - 0 1").unwrap();
    assert_eq!(board_eval(&board, false, 0), 0);
}

#[test]
fn checkmated_side_gets_mate_score() {
    // black, the side to move, is checkmated on the back rank: the
    // score is biased against the mated side, whatever the caller's
    // maximizing side is
    let board = chess::Board::from_str("k6R/8/1K6/8/8/8/8/8 b - - 0 1").unwrap();
    assert_eq!(board_eval(&board, false, 0), CHECKMATE_EVAL);
    assert_eq!(board_eval(&board, true, 0), CHECKMATE_EVAL);

    // and the mirror: white to move stands checkmated
    let board = chess::Board::from_str("K6r/8/1k6/8/8/8/8/8 w - - 0 1").unwrap();
    assert_eq!(board_eval(&board, false, 0), -CHECKMATE_EVAL);
    assert_eq!(board_eval(&board, true, 0), -CHECKMATE_EVAL);
}

#[test]
fn depth_one_search_from_start_scores_zero() {
    let board = chess::Board::default();
    let (score, best) = search_root(&board, 1, 0);
    assert_eq!(score, 0);
    let m = best.expect("a move must be found from the start position");
    // every first move is a pawn or knight move
    let rank = m.source / 8;
    assert!(rank == 0 || rank == 1);
}

#[test]
fn mate_in_one_is_found_at_every_depth() {
    // white mates with the rook lift to the back rank
    let board = chess::Board::from_str("k7/8/1K6/8/8/8/8/7R w - - 0 1").unwrap();
    for depth in 1..=4u8 {
        let (score, best) = search_root(&board, depth, 0);
        let m = best.expect("the mating move must be found");
        assert_eq!(m.source, 7, "depth {}", depth); // h1
        assert_eq!(m.dest, 63, "depth {}", depth); // h8
        assert!(score > CHECKMATE_EVAL - 100, "depth {}", depth);
    }
    let m = choose_move(&board, 0).expect("the mating move must be found");
    assert_eq!(m.source, 7);
    assert_eq!(m.dest, 63);
}

#[test]
fn stalemated_position_yields_no_move() {
    // black to move with no legal moves: nothing to choose
    let board = chess::Board::from_str("7k/5Q2/6K1/8/8/8/8/8 b - - 0 1").unwrap();
    assert_eq!(choose_move(&board, 0), None);
}

#[test]
fn choose_move_from_start_is_legal() {
    let board = chess::Board::default();
    let m = choose_move(&board, 0).expect("the start position has moves");
    let legal: Vec<chess::ChessMove> = chess::MoveGen::new_legal(&board).collect();
    assert!(legal.iter().any(|cm| cm.get_source().to_index() as u8 == m.source
        && cm.get_dest().to_index() as u8 == m.dest));
}

#[test]
fn quiescence_matches_static_eval_on_quiet_position() {
    // no capture is available from the start position
    let board = chess::Board::default();
    let orderer = MoveOrderer::new();
    let v = quiescence_search(&board, -CHECKMATE_EVAL, CHECKMATE_EVAL, &orderer, 0, 0, 32);
    assert_eq!(v, board_eval(&board, true, 0));
}

#[test]
fn quiescence_clamps_to_the_window() {
    let board = chess::Board::default();
    let orderer = MoveOrderer::new();
    // static eval is 0; a window above it returns its low end
    let v = quiescence_search(&board, 50, 100, &orderer, 0, 0, 32);
    assert_eq!(v, 50);
    // and a window below it returns its high end
    let v = quiescence_search(&board, -100, -50, &orderer, 0, 0, 32);
    assert_eq!(v, -50);
}
