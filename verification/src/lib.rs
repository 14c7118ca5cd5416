//! A chess engine: a static evaluator and an alpha-beta search with
//! quiescence, null-move pruning and a transposition table, on top of the
//! rules of chess as the `pleco` crate plays them.
//!
//! * `rules` holds every call into pleco, each behind a contract that is
//!   taken on trust, and the names in which the other modules speak of a
//!   position.
//! * `board` asks of a board what the engine needs before it plays on it.
//! * `score` says what a score is and what the search asks of an evaluator.
//! * `eval` is the evaluator.
//! * `ordering` puts moves in the order in which they are searched.
//! * `pass` hands the move to the other side without playing one.
//! * `search` is the quiescence search and negamax.
//! * `utils` plays: a run of moves, a match, the best move after a list.
//!
//! A score is a whole number of units, 24000 to the centipawn, so that every
//! term of the evaluation is exact. A move is the sixteen bits in which
//! pleco writes it; zero is no move.
pub mod board;
pub mod eval;
pub mod ordering;
pub mod pass;
pub mod rules;
pub mod score;
pub mod search;
pub mod utils;
