//! A move-choosing engine for chess: iterative-deepening alpha-beta
//! search with a quiescence extension, a Zobrist-hash-keyed
//! transposition table with mate-score rebasing, heuristic move
//! ordering (captures, killer moves, history scores), a phase-aware
//! static evaluation, and a weighted-random opening book.
//!
//! The rules of chess themselves (legal move generation, status
//! detection, move application, position hashing) are supplied by the
//! `chess` crate and consumed through the narrow trusted interface in
//! [`rules`]; this crate never reimplements them.

pub mod constants;
pub mod evaluation;
pub mod game_tree;
pub mod move_orderer;
pub mod opening_book;
pub mod rules;
pub mod search;
pub mod transposition_table;
