//! Scores, and what the search asks of an evaluator.
//!
//! A score is a whole number of units, 24000 to the centipawn, so that
//! every term of the evaluation is exact.
use crate::rules::{board_fen, board_ply};
use pleco::Board;
use vstd::prelude::*;

verus! {

/// The number of units that pleco's piece-square sums count to the pawn
/// (its `PAWN_EG`).
pub const PSQ_UNITS_PER_PAWN: i64 = 240;

/// The number of score units in a centipawn. The piece-square term of the
/// evaluation is a hundredth of the piece-square sum in pawns, so a
/// centipawn holds a hundred times the units of a pawn.
pub const CENTIPAWN: i64 = 100 * PSQ_UNITS_PER_PAWN;

/// No score, and no bound of a search window, lies further from zero.
pub const SCORE_LIMIT: i64 = 100_000_000_000_000;

/// The score of a mate at ply zero, and below zero the score a search
/// starts from: 9999 centipawns.
pub const MATE_SCORE: i64 = 9999 * CENTIPAWN;

/// Whether a score lies within the limit.
pub open spec fn in_limit(score: int) -> bool {
    -SCORE_LIMIT <= score <= SCORE_LIMIT
}

/// A score seen from the side with the given sign.
pub open spec fn side_score(color: int, score: int) -> int {
    if color == 1 {
        score
    } else {
        -score
    }
}

/// `score` is a result that the evaluator may return on some board that
/// holds the given position at the given ply.
pub open spec fn may_score<E: Fn(&Board) -> i64>(
    ev: E,
    position: Seq<char>,
    ply: int,
    score: i64,
) -> bool {
    exists|b: Board|
        board_fen(b) == position && board_ply(b) == ply && #[trigger] call_ensures(
            ev,
            (&b,),
            score,
        )
}

/// The score that an evaluator gives a position at a ply.
pub open spec fn eval_value<E: Fn(&Board) -> i64>(ev: E, position: Seq<char>, ply: int) -> int {
    (choose|score: i64| may_score(ev, position, ply, score)) as int
}

/// What the search asks of an evaluator: it accepts every board, its score
/// depends on the position and the ply alone, and lies within the limit.
pub open spec fn evaluator_ok<E: Fn(&Board) -> i64>(ev: E) -> bool {
    &&& forall|b: Board| call_requires(ev, (&b,))
    &&& forall|b: Board, score: i64| #[trigger]
        call_ensures(ev, (&b,), score) ==> score == eval_value(
            ev,
            board_fen(b),
            board_ply(b) as int,
        ) && in_limit(score as int)
}

/// A number of centipawns as a score.
pub fn centipawns(amount: i32) -> (score: i64)
    ensures
        score == amount * CENTIPAWN,
        in_limit(score as int),
{
    let wide: i64 = amount as i64;
    wide * CENTIPAWN
}

} // verus!
