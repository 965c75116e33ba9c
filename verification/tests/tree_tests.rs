use chess_engine::constants::CHECKMATE_EVAL;
use chess_engine::game_tree::alpha_beta;
use chess_engine::game_tree::alpha_beta_full;
use chess_engine::game_tree::GameNode;
use chess_engine::game_tree::GameTree;

fn leaf(score: i32) -> GameNode {
    GameNode { maximizing: true, score, kids: Vec::new() }
}

fn node(maximizing: bool, kids: Vec<usize>) -> GameNode {
    GameNode { maximizing, score: 0, kids }
}

/// A two-level tree: the maximizing root picks the larger of its
/// minimizing children's minima.
fn two_level_tree() -> GameTree {
    GameTree {
        nodes: vec![
            node(true, vec![1, 2]),
            node(false, vec![3, 4]),
            node(false, vec![5, 6]),
            leaf(3),
            leaf(5),
            leaf(2),
            leaf(9),
        ],
    }
}

#[test]
fn full_window_alpha_beta_equals_minimax() {
    let t = two_level_tree();
    // min(3, 5) = 3, min(2, 9) = 2, max(3, 2) = 3
    assert_eq!(alpha_beta_full(&t, 0), 3);
}

#[test]
fn leaf_value_is_its_score() {
    let t = GameTree { nodes: vec![leaf(-7)] };
    assert_eq!(alpha_beta_full(&t, 0), -7);
}

#[test]
fn narrowed_windows_fail_truthfully() {
    let t = two_level_tree();
    // the true value 3 lies inside this window, so it is exact
    assert_eq!(alpha_beta(&t, 0, 0, 10), 3);
    // a window entirely above the value fails low
    assert!(alpha_beta(&t, 0, 5, 10) <= 5);
    // a window entirely below the value fails high
    assert!(alpha_beta(&t, 0, -10, 0) >= 0);
}

#[test]
fn deeper_subtrees_change_nothing_about_exactness() {
    // a three-level tree with alternating sides
    let t = GameTree {
        nodes: vec![
            node(true, vec![1, 2]),
            node(false, vec![3, 4]),
            node(false, vec![5, 6]),
            node(true, vec![7, 8]),
            leaf(10),
            leaf(-2),
            node(true, vec![9, 10]),
            leaf(4),
            leaf(6),
            leaf(1),
            leaf(8),
        ],
    };
    // node3 = max(4, 6) = 6; node1 = min(6, 10) = 6
    // node6 = max(1, 8) = 8; node2 = min(-2, 8) = -2
    // root = max(6, -2) = 6
    assert_eq!(alpha_beta_full(&t, 0), 6);
    assert_eq!(
        alpha_beta(&t, 0, -CHECKMATE_EVAL, CHECKMATE_EVAL),
        alpha_beta_full(&t, 0)
    );
}
