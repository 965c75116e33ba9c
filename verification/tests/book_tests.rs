use chess_engine::opening_book::get_weighted_index;
use chess_engine::opening_book::get_weighted_move;
use chess_engine::opening_book::opening_book_move;
use chess_engine::opening_book::OpeningBook;
use chess_engine::opening_book::WeightedChessMove;
use chess_engine::rules::Move;

fn mv(source: u8, dest: u8) -> Move {
    Move { source, dest, promotion: None }
}

#[test]
fn weighted_index_walks_cumulative_intervals() {
    let moves = vec![
        WeightedChessMove::new(mv(12, 28), 3),
        WeightedChessMove::new(mv(6, 21), 1),
    ];
    assert_eq!(get_weighted_index(&moves, 0), 0);
    assert_eq!(get_weighted_index(&moves, 1), 0);
    assert_eq!(get_weighted_index(&moves, 2), 0);
    assert_eq!(get_weighted_index(&moves, 3), 1);
}

#[test]
fn empty_list_yields_no_move() {
    let moves: Vec<WeightedChessMove> = Vec::new();
    assert_eq!(get_weighted_move(&moves), None);
}

#[test]
fn single_entry_is_always_drawn() {
    let moves = vec![WeightedChessMove::new(mv(12, 28), 5)];
    for _ in 0..100 {
        assert_eq!(get_weighted_move(&moves), Some(mv(12, 28)));
    }
}

#[test]
fn zero_weights_are_rejected_by_the_loader_interface() {
    let mut book = OpeningBook::new();
    let ok = book.add_line(1, vec![WeightedChessMove::new(mv(12, 28), 0)]);
    assert!(!ok);
    assert_eq!(opening_book_move(&book, 1), None);
}

#[test]
fn unknown_positions_miss() {
    let mut book = OpeningBook::new();
    assert!(book.add_line(77, vec![WeightedChessMove::new(mv(12, 28), 2)]));
    assert_eq!(opening_book_move(&book, 78), None);
    assert_eq!(opening_book_move(&book, 77), Some(mv(12, 28)));
}

#[test]
fn three_to_one_weights_sample_near_three_to_one() {
    let mut book = OpeningBook::new();
    let heavy = mv(12, 28);
    let light = mv(6, 21);
    assert!(book.add_line(
        555,
        vec![WeightedChessMove::new(heavy, 3), WeightedChessMove::new(light, 1)],
    ));
    let mut heavy_count = 0u32;
    for _ in 0..10000 {
        match opening_book_move(&book, 555) {
            Some(m) if m == heavy => heavy_count += 1,
            Some(m) => assert_eq!(m, light),
            None => panic!("the book must hit"),
        }
    }
    // expectation 7500; allow a generous statistical tolerance
    assert!(
        (7200..=7800).contains(&heavy_count),
        "heavy move drawn {} times of 10000",
        heavy_count
    );
}
