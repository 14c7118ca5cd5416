//! The search: negamax with alpha-beta pruning, a quiescence search at the
//! horizon, null-move pruning and a transposition table.
//!
//! Every score is seen from the side to move.
use crate::eval::{piece_value, piece_values};
use crate::ordering::{order_moves, ordered, priorities};
use crate::pass::{pass_target, passed};
use crate::rules::{
    apply_move, board_fen, board_ply, board_undo, captured_piece, checkmate, has_room, in_check,
    is_capture, legal_moves, non_pawn_material, playable, ply, rules_after, rules_captured,
    rules_checkmate, rules_in_check, rules_is_capture, rules_moves, rules_non_pawn_material,
    rules_stalemate, rules_zobrist, same_board, stalemate, undo_move, zobrist, PieceType,
    NULL_MOVE,
};
use crate::score::{
    eval_value, evaluator_ok, in_limit, side_score, CENTIPAWN, MATE_SCORE, SCORE_LIMIT,
};
use pleco::Board;
use std::collections::HashMap;
use vstd::prelude::*;

verus! {

/// A capture that cannot lift the score to within this margin of alpha is
/// not searched: 200 centipawns.
pub const DELTA_MARGIN: i64 = 200 * CENTIPAWN;

/// The depth of the quiescence search at the horizon.
pub const QUIESCE_DEPTH: u8 = 10;

/// How much shallower than an ordinary reply the reply to a pass is
/// searched.
pub const NULL_REDUCTION: u8 = 2;

// ---------------------------------------------------------------------
// Quiescence
// ---------------------------------------------------------------------

/// Whether a capture is left out: even with the captured piece and the
/// margin added, the standing score stays under alpha.
pub open spec fn delta_pruned(stand_pat: int, captured: u8, alpha: int) -> bool {
    stand_pat + piece_value(PieceType::of_code(captured)) * CENTIPAWN + DELTA_MARGIN < alpha
}

/// The value of the quiescence search: the standing score where the depth
/// is used up, beta where the standing score reaches it, and else what the
/// captures among the legal moves make of the standing score.
pub open spec fn spec_quiesce<E: Fn(&Board) -> i64>(
    ev: E,
    position: Seq<char>,
    ply: int,
    color: int,
    alpha: int,
    beta: int,
    depth: nat,
) -> int
    decreases depth, rules_moves(position).len() + 1,
{
    let stand_pat = side_score(color, eval_value(ev, position, ply));
    if depth == 0 {
        stand_pat
    } else if stand_pat >= beta {
        beta
    } else {
        spec_quiesce_from(
            ev,
            position,
            ply,
            color,
            stand_pat,
            if alpha < stand_pat {
                stand_pat
            } else {
                alpha
            },
            beta,
            depth,
            0,
        )
    }
}

/// The value of the quiescence search once the legal moves before the
/// `i`-th have been dealt with and have left `alpha`. A move that is no
/// capture is passed over, and so is a capture that the margin rules out;
/// a capture whose reply reaches beta ends the search.
pub open spec fn spec_quiesce_from<E: Fn(&Board) -> i64>(
    ev: E,
    position: Seq<char>,
    ply: int,
    color: int,
    stand_pat: int,
    alpha: int,
    beta: int,
    depth: nat,
    i: int,
) -> int
    decreases depth, rules_moves(position).len() - i,
{
    let moves = rules_moves(position);
    if depth == 0 || i < 0 || i >= moves.len() {
        alpha
    } else if !rules_is_capture(position, moves[i]) || delta_pruned(
        stand_pat,
        rules_captured(position, moves[i]),
        alpha,
    ) {
        spec_quiesce_from(ev, position, ply, color, stand_pat, alpha, beta, depth, i + 1)
    } else {
        let score = -spec_quiesce(
            ev,
            rules_after(position, moves[i]),
            ply + 1,
            -color,
            -beta,
            -alpha,
            (depth - 1) as nat,
        );
        if score >= beta {
            beta
        } else {
            spec_quiesce_from(
                ev,
                position,
                ply,
                color,
                stand_pat,
                if score > alpha {
                    score
                } else {
                    alpha
                },
                beta,
                depth,
                i + 1,
            )
        }
    }
}

/// In a window that has closed, with alpha equal to beta, no capture
/// changes the score: the search returns beta.
pub proof fn lemma_quiesce_from_closed<E: Fn(&Board) -> i64>(
    ev: E,
    position: Seq<char>,
    ply: int,
    color: int,
    stand_pat: int,
    beta: int,
    depth: nat,
    i: int,
)
    requires
        0 <= i,
    ensures
        spec_quiesce_from(ev, position, ply, color, stand_pat, beta, beta, depth, i) == beta,
    decreases rules_moves(position).len() - i,
{
    if depth > 0 && i < rules_moves(position).len() {
        lemma_quiesce_from_closed(ev, position, ply, color, stand_pat, beta, depth, i + 1);
    }
}

/// In a window that has closed, with alpha equal to beta, the quiescence
/// search returns beta whatever the position is worth, as long as it has
/// any depth left.
pub proof fn lemma_quiesce_closed<E: Fn(&Board) -> i64>(
    ev: E,
    position: Seq<char>,
    ply: int,
    color: int,
    beta: int,
    depth: nat,
)
    requires
        depth > 0,
    ensures
        spec_quiesce(ev, position, ply, color, beta, beta, depth) == beta,
{
    let stand_pat = side_score(color, eval_value(ev, position, ply));
    lemma_quiesce_from_closed(ev, position, ply, color, stand_pat, beta, depth, 0);
}

/// Whether a capture is left out of the quiescence search.
pub fn is_delta_pruned(stand_pat: i64, captured: u8, alpha: i64) -> (pruned: bool)
    requires
        in_limit(stand_pat as int),
        in_limit(alpha as int),
    ensures
        pruned == delta_pruned(stand_pat as int, captured, alpha as int),
{
    let gain: i64 = piece_values(PieceType::from_code(captured)) * CENTIPAWN;
    stand_pat + gain + DELTA_MARGIN < alpha
}

/// Searches the captures from a position until it is quiet, at most
/// `depth` plies deep, and returns the score for the side with sign
/// `color`. The board is left as it was found.
///
/// With any depth left, the score lies within the window, and it is no
/// lower than the standing score where that does not exceed beta.
pub fn quiesce<E: Fn(&Board) -> i64 + Copy>(
    board: &mut Board,
    color: i8,
    alpha: i64,
    beta: i64,
    depth: u8,
    evaluator: E,
) -> (score: i64)
    requires
        playable(board_fen(*old(board))),
        evaluator_ok(evaluator),
        color == 1 || color == -1,
        in_limit(alpha as int),
        in_limit(beta as int),
        has_room(*old(board), depth as int),
    ensures
        score == spec_quiesce(
            evaluator,
            board_fen(*old(board)),
            board_ply(*old(board)) as int,
            color as int,
            alpha as int,
            beta as int,
            depth as nat,
        ),
        same_board(*final(board), *old(board)),
        in_limit(score as int),
        ({
            let stand_pat = side_score(
                color as int,
                eval_value(evaluator, board_fen(*old(board)), board_ply(*old(board)) as int),
            );
            alpha <= beta && stand_pat <= beta ==> stand_pat <= score <= beta
        }),
        depth > 0 && alpha <= beta ==> alpha <= score <= beta,
    decreases depth,
{
    let ghost fen = board_fen(*board);
    let ghost start_ply = board_ply(*board) as int;
    if depth > 0 && alpha == beta {
        proof {
            lemma_quiesce_closed(
                evaluator,
                fen,
                start_ply,
                color as int,
                beta as int,
                depth as nat,
            );
        }
        return beta;
    }
    let value: i64 = evaluator(board);
    let stand_pat: i64 = if color == 1 {
        value
    } else {
        -value
    };
    if depth == 0 {
        return stand_pat;
    }
    if stand_pat >= beta {
        return beta;
    }
    let mut low: i64 = if alpha < stand_pat {
        stand_pat
    } else {
        alpha
    };
    let ghost low_start = low;
    let moves = legal_moves(board);
    let mut i: usize = 0;
    while i < moves.len()
        invariant
            evaluator_ok(evaluator),
            color == 1 || color == -1,
            depth > 0,
            same_board(*board, *old(board)),
            fen == board_fen(*old(board)),
            playable(fen),
            start_ply == board_ply(*old(board)) as int,
            has_room(*old(board), depth as int),
            moves@ == rules_moves(fen),
            0 <= i <= moves.len(),
            in_limit(low as int),
            in_limit(beta as int),
            in_limit(stand_pat as int),
            stand_pat == side_score(color as int, eval_value(evaluator, fen, start_ply)),
            stand_pat < beta,
            low_start == if alpha < stand_pat {
                stand_pat
            } else {
                alpha
            },
            stand_pat <= low,
            alpha <= low,
            low_start <= beta ==> low <= beta,
            spec_quiesce_from(
                evaluator,
                fen,
                start_ply,
                color as int,
                stand_pat as int,
                low as int,
                beta as int,
                depth as nat,
                i as int,
            ) == spec_quiesce_from(
                evaluator,
                fen,
                start_ply,
                color as int,
                stand_pat as int,
                low_start as int,
                beta as int,
                depth as nat,
                0,
            ),
        decreases moves.len() - i,
    {
        let mv: u16 = moves[i];
        assert(moves@.contains(mv));
        if is_capture(board, mv) {
            let captured: u8 = captured_piece(board, mv);
            if !is_delta_pruned(stand_pat, captured, low) {
                apply_move(board, mv);
                let reply: i64 = quiesce(board, -color, -beta, -low, depth - 1, evaluator);
                undo_move(board);
                assert(board_undo(*old(board)).push(fen).drop_last() =~= board_undo(*old(board)));
                let score: i64 = -reply;
                if score >= beta {
                    return beta;
                }
                if score > low {
                    low = score;
                }
            }
        }
        i += 1;
    }
    low
}

// ---------------------------------------------------------------------
// The transposition table
// ---------------------------------------------------------------------

/// What a stored score says of the true value of its position.
#[derive(Clone, Copy, Debug, PartialEq, Eq, Structural)]
pub enum MoveType {
    /// The score is the value.
    Exact,
    /// The value is at most the score: no move raised alpha.
    UpperBound,
    /// The value is at least the score: the search was cut by beta.
    LowerBound,
}

/// What the table keeps of a searched position.
#[derive(Clone, Copy, Debug)]
pub struct TransitionEntry {
    pub value: i64,
    pub mv: u16,
    pub depth: u8,
    pub move_type: MoveType,
}

/// Every score in the table lies within the limit.
pub open spec fn table_ok(table: Map<u64, TransitionEntry>) -> bool {
    forall|key: u64| #[trigger] table.contains_key(key) ==> in_limit(table[key].value as int)
}

/// Whether an entry may be used for a search of the given depth.
pub open spec fn usable(entry: Option<TransitionEntry>, depth: nat) -> bool {
    entry is Some && entry->0.depth >= depth
}

/// Alpha after the table was consulted: a usable lower bound raises it.
pub open spec fn probe_alpha(entry: Option<TransitionEntry>, depth: nat, alpha: int) -> int {
    if usable(entry, depth) && entry->0.move_type == MoveType::LowerBound && entry->0.value
        > alpha {
        entry->0.value as int
    } else {
        alpha
    }
}

/// Beta after the table was consulted: a usable upper bound lowers it.
pub open spec fn probe_beta(entry: Option<TransitionEntry>, depth: nat, beta: int) -> int {
    if usable(entry, depth) && entry->0.move_type == MoveType::UpperBound && entry->0.value
        < beta {
        entry->0.value as int
    } else {
        beta
    }
}

/// Whether the entry answers the search: it is usable, and either exact or
/// such that the window it leaves is empty.
pub open spec fn probe_answers(
    entry: Option<TransitionEntry>,
    depth: nat,
    alpha: int,
    beta: int,
) -> bool {
    usable(entry, depth) && (entry->0.move_type == MoveType::Exact || probe_alpha(
        entry,
        depth,
        alpha,
    ) >= probe_beta(entry, depth, beta))
}

/// The entry that a node may consult: none at the root, else what the
/// table holds for the position.
pub open spec fn consulted(
    table: Map<u64, TransitionEntry>,
    key: u64,
    root: bool,
) -> Option<TransitionEntry> {
    if !root && table.contains_key(key) {
        Some(table[key])
    } else {
        None
    }
}

/// Looks a position up in the table, unless the node is the root.
pub fn lookup(table: &HashMap<u64, TransitionEntry>, key: u64, root: bool) -> (entry: Option<
    TransitionEntry,
>)
    ensures
        entry == consulted(table@, key, root),
{
    broadcast use vstd::std_specs::hash::group_hash_axioms;

    if root {
        None
    } else {
        match table.get(&key) {
            Some(found) => Some(*found),
            None => None,
        }
    }
}

/// Stores what a finished search found for a position, in place of
/// whatever the table held for it.
pub fn store(
    table: &mut HashMap<u64, TransitionEntry>,
    key: u64,
    best: i64,
    mv: u16,
    depth: u8,
    alpha_before: i64,
    beta: i64,
)
    ensures
        final(table)@ == old(table)@.insert(
            key,
            TransitionEntry {
                value: best,
                mv,
                depth,
                move_type: spec_classify(best as int, alpha_before as int, beta as int),
            },
        ),
{
    broadcast use vstd::std_specs::hash::group_hash_axioms;

    let stored = TransitionEntry {
        value: best,
        mv,
        depth,
        move_type: classify(best, alpha_before, beta),
    };
    table.insert(key, stored);
}

/// What consulting the table gave.
#[derive(Clone, Copy, Debug)]
pub enum Probed {
    /// The stored score and move answer the search.
    Answer { score: i64, mv: u16 },
    /// The search goes on in this window.
    Window { alpha: i64, beta: i64 },
}

/// Consults an entry of the table, if there is one, for a search of the
/// given depth and window.
pub fn probe(entry: Option<TransitionEntry>, depth: u8, alpha: i64, beta: i64) -> (probed: Probed)
    ensures
        match probed {
            Probed::Answer { score, mv } => {
                &&& probe_answers(entry, depth as nat, alpha as int, beta as int)
                &&& score == entry->0.value
                &&& mv == entry->0.mv
            },
            Probed::Window { alpha: low, beta: high } => {
                &&& !probe_answers(entry, depth as nat, alpha as int, beta as int)
                &&& low == probe_alpha(entry, depth as nat, alpha as int)
                &&& high == probe_beta(entry, depth as nat, beta as int)
            },
        },
{
    match entry {
        Some(found) => {
            if found.depth >= depth {
                let mut low: i64 = alpha;
                let mut high: i64 = beta;
                match found.move_type {
                    MoveType::Exact => {
                        return Probed::Answer { score: found.value, mv: found.mv };
                    },
                    MoveType::UpperBound => {
                        if found.value < high {
                            high = found.value;
                        }
                    },
                    MoveType::LowerBound => {
                        if found.value > low {
                            low = found.value;
                        }
                    },
                }
                if low >= high {
                    Probed::Answer { score: found.value, mv: found.mv }
                } else {
                    Probed::Window { alpha: low, beta: high }
                }
            } else {
                Probed::Window { alpha, beta }
            }
        },
        None => Probed::Window { alpha, beta },
    }
}

/// What the best score of a finished search says of the value: an upper
/// bound where it did not rise above the alpha the moves were searched
/// with, else a lower bound where it reached beta, else the value itself.
pub open spec fn spec_classify(best: int, alpha_before: int, beta: int) -> MoveType {
    if best <= alpha_before {
        MoveType::UpperBound
    } else if best >= beta {
        MoveType::LowerBound
    } else {
        MoveType::Exact
    }
}

/// Classifies the best score of a finished search.
pub fn classify(best: i64, alpha_before: i64, beta: i64) -> (kind: MoveType)
    ensures
        kind == spec_classify(best as int, alpha_before as int, beta as int),
{
    if best <= alpha_before {
        MoveType::UpperBound
    } else if best >= beta {
        MoveType::LowerBound
    } else {
        MoveType::Exact
    }
}

// ---------------------------------------------------------------------
// The moves of a node
// ---------------------------------------------------------------------

/// Whether a move leaves a position that is mate or is not stalemate.
pub open spec fn keeps_playing(position: Seq<char>, mv: u16) -> bool {
    rules_checkmate(rules_after(position, mv)) || !rules_stalemate(rules_after(position, mv))
}

/// Those of the first `n` legal moves that keep the game going, in the
/// order of the list.
pub open spec fn kept_moves(position: Seq<char>, n: int) -> Seq<u16>
    decreases n,
{
    if n <= 0 {
        Seq::empty()
    } else if keeps_playing(position, rules_moves(position)[n - 1]) {
        kept_moves(position, n - 1).push(rules_moves(position)[n - 1])
    } else {
        kept_moves(position, n - 1)
    }
}

/// The moves considered at the root: the legal moves that do not stalemate
/// the other side, or all legal moves where every one of them does.
pub open spec fn root_moves(position: Seq<char>) -> Seq<u16> {
    let kept = kept_moves(position, rules_moves(position).len() as int);
    if kept.len() > 0 {
        kept
    } else {
        rules_moves(position)
    }
}

/// The moves of a node before they are ordered.
pub open spec fn node_moves(position: Seq<char>, root: bool) -> Seq<u16> {
    if root {
        root_moves(position)
    } else {
        rules_moves(position)
    }
}

/// The moves considered at the root. The board is left as it was found.
pub fn root_filter(board: &mut Board) -> (moves: Vec<u16>)
    requires
        playable(board_fen(*old(board))),
        has_room(*old(board), 1),
    ensures
        moves@ == root_moves(board_fen(*old(board))),
        same_board(*final(board), *old(board)),
        forall|k: int|
            0 <= k < moves@.len() ==> rules_moves(board_fen(*old(board))).contains(
                #[trigger] moves@[k],
            ),
{
    let ghost fen = board_fen(*board);
    let all = legal_moves(board);
    let mut kept: Vec<u16> = Vec::new();
    let mut i: usize = 0;
    while i < all.len()
        invariant
            same_board(*board, *old(board)),
            fen == board_fen(*old(board)),
            playable(fen),
            has_room(*old(board), 1),
            all@ == rules_moves(fen),
            0 <= i <= all.len(),
            kept@ == kept_moves(fen, i as int),
            forall|k: int| 0 <= k < kept@.len() ==> all@.contains(#[trigger] kept@[k]),
        decreases all.len() - i,
    {
        let mv: u16 = all[i];
        assert(all@.contains(mv));
        apply_move(board, mv);
        let keep: bool = checkmate(board) || !stalemate(board);
        undo_move(board);
        assert(board_undo(*old(board)).push(fen).drop_last() =~= board_undo(*old(board)));
        if keep {
            kept.push(mv);
        }
        i += 1;
    }
    if kept.len() > 0 {
        kept
    } else {
        assert forall|k: int| 0 <= k < all@.len() implies all@.contains(#[trigger] all@[k]) by {}
        all
    }
}

// ---------------------------------------------------------------------
// Negamax
// ---------------------------------------------------------------------

/// What a search returns and leaves behind.
pub struct SearchOutcome {
    pub score: int,
    pub mv: u16,
    pub table: Map<u64, TransitionEntry>,
}

/// The upper end of the window in which the reply to a pass is searched:
/// one centipawn above the lower end, but not beyond the limit.
pub open spec fn null_window_top(beta: int) -> int {
    if -beta + CENTIPAWN > SCORE_LIMIT {
        SCORE_LIMIT as int
    } else {
        -beta + CENTIPAWN
    }
}

/// Whether a pass is tried before the moves.
pub open spec fn null_move_tried(
    position: Seq<char>,
    ply: int,
    depth: nat,
    color: int,
    do_null: bool,
) -> bool {
    do_null && !rules_in_check(position) && ply > 0 && rules_non_pawn_material(
        position,
        color == 1,
    ) > 0 && depth > 3
}

/// The result of negamax.
///
/// A node first consults the table, unless it is the root. Where that does
/// not answer, and the node is at the horizon, mated or without moves, the
/// quiescence search gives the score. Else a pass is tried, where allowed,
/// and cuts the node where the reply to it still scores above beta. Else
/// the moves are searched in order and the best is stored and returned.
pub open spec fn spec_search<E: Fn(&Board) -> i64>(
    ev: E,
    position: Seq<char>,
    ply: int,
    depth: nat,
    color: int,
    alpha: int,
    beta: int,
    table: Map<u64, TransitionEntry>,
    root: bool,
    do_null: bool,
) -> SearchOutcome
    decreases depth, 2int, 0int,
{
    let key = rules_zobrist(position);
    let entry = consulted(table, key, root);
    let low = probe_alpha(entry, depth, alpha);
    let high = probe_beta(entry, depth, beta);
    let unordered = node_moves(position, root);
    let moves = ordered(unordered, priorities(position, unordered));
    if probe_answers(entry, depth, alpha, beta) {
        SearchOutcome { score: entry->0.value as int, mv: entry->0.mv, table }
    } else if depth == 0 || rules_checkmate(position) || moves.len() == 0 {
        SearchOutcome {
            score: spec_quiesce(ev, position, ply, color, low, high, QUIESCE_DEPTH as nat),
            mv: NULL_MOVE,
            table,
        }
    } else {
        let reply = pass_reply(ev, position, ply, depth, color, high, table, do_null);
        let table_then = match reply {
            Some(found) => found.table,
            None => table,
        };
        if reply is Some && -reply->0.score > high {
            SearchOutcome { score: high, mv: NULL_MOVE, table: table_then }
        } else {
            let done = spec_search_from(
                ev,
                position,
                ply,
                depth,
                color,
                low,
                high,
                table_then,
                moves,
                0,
                -MATE_SCORE as int,
                NULL_MOVE,
            );
            let stored = TransitionEntry {
                value: done.score as i64,
                mv: done.mv,
                depth: depth as u8,
                move_type: spec_classify(done.score, low, high),
            };
            SearchOutcome { score: done.score, mv: done.mv, table: done.table.insert(key, stored) }
        }
    }
}

/// What the search of the position after a pass returns, where a pass is
/// tried and can be made: the reply is searched two plies shallower than
/// an ordinary one, in a window one centipawn wide just below `-beta`,
/// without a second pass, and on a board that counts its plies from zero.
pub open spec fn pass_reply<E: Fn(&Board) -> i64>(
    ev: E,
    position: Seq<char>,
    ply: int,
    depth: nat,
    color: int,
    beta: int,
    table: Map<u64, TransitionEntry>,
    do_null: bool,
) -> Option<SearchOutcome>
    decreases depth, 0int, 0int,
{
    if null_move_tried(position, ply, depth, color, do_null) && depth > 3 {
        match pass_target(position) {
            Some(passed) => Some(
                spec_search(
                    ev,
                    passed,
                    0,
                    (depth - 1 - NULL_REDUCTION) as nat,
                    -color,
                    -beta,
                    null_window_top(beta),
                    table,
                    false,
                    false,
                ),
            ),
            None => None,
        }
    } else {
        None
    }
}

/// The best score and move, and the table, once the moves before the
/// `i`-th have been searched and have left `alpha`, `best`, `best_mv` and
/// `table`. The moves after one that lifts alpha above beta are not
/// searched.
pub open spec fn spec_search_from<E: Fn(&Board) -> i64>(
    ev: E,
    position: Seq<char>,
    ply: int,
    depth: nat,
    color: int,
    alpha: int,
    beta: int,
    table: Map<u64, TransitionEntry>,
    moves: Seq<u16>,
    i: int,
    best: int,
    best_mv: u16,
) -> SearchOutcome
    decreases depth, 1int, moves.len() - i,
{
    if depth == 0 || i < 0 || i >= moves.len() {
        SearchOutcome { score: best, mv: best_mv, table }
    } else {
        let reply = spec_search(
            ev,
            rules_after(position, moves[i]),
            ply + 1,
            (depth - 1) as nat,
            -color,
            -beta,
            -alpha,
            table,
            false,
            true,
        );
        let score = -reply.score;
        let next_best = if score > best {
            score
        } else {
            best
        };
        let next_mv = if score > best {
            moves[i]
        } else {
            best_mv
        };
        let next_alpha = if score > alpha {
            score
        } else {
            alpha
        };
        if next_alpha > beta {
            SearchOutcome { score: next_best, mv: next_mv, table: reply.table }
        } else {
            spec_search_from(
                ev,
                position,
                ply,
                depth,
                color,
                next_alpha,
                beta,
                reply.table,
                moves,
                i + 1,
                next_best,
                next_mv,
            )
        }
    }
}

/// A search is repeatable: two searches of one position with one
/// evaluator, at one depth, in one window and from one table return the
/// same score and the same move and leave the same table. With a fresh
/// table both times, that is the empty one.
pub proof fn search_is_repeatable<E: Fn(&Board) -> i64>(
    ev: E,
    position: Seq<char>,
    ply: int,
    depth: nat,
    color: int,
    alpha: int,
    beta: int,
    table: Map<u64, TransitionEntry>,
    root: bool,
    do_null: bool,
    first: SearchOutcome,
    second: SearchOutcome,
)
    requires
        first == spec_search(ev, position, ply, depth, color, alpha, beta, table, root, do_null),
        second == spec_search(ev, position, ply, depth, color, alpha, beta, table, root, do_null),
    ensures
        first.score == second.score,
        first.mv == second.mv,
        first.table == second.table,
{
}

/// Searches a position `depth` plies deep and returns the score for the
/// side with sign `color` and the move that earns it, or the null move
/// where the node has no best move. The board is left as it was found;
/// the table keeps what the search learned.
///
/// At the root the table is not consulted, and a move that stalemates the
/// other side is considered only where every move does. The move returned
/// is the null move or a legal move of the position, unless the table
/// answered: then it is the move that the table held.
pub fn nega_max<E: Fn(&Board) -> i64 + Copy>(
    board: &mut Board,
    depth: u8,
    color: i8,
    alpha: i64,
    beta: i64,
    transition_table: &mut HashMap<u64, TransitionEntry>,
    root: bool,
    evaluator: E,
    do_null: bool,
) -> (result: (i64, u16))
    requires
        playable(board_fen(*old(board))),
        evaluator_ok(evaluator),
        color == 1 || color == -1,
        in_limit(alpha as int),
        in_limit(beta as int),
        table_ok(old(transition_table)@),
        has_room(*old(board), depth as int + QUIESCE_DEPTH as int),
    ensures
        (SearchOutcome {
            score: result.0 as int,
            mv: result.1,
            table: final(transition_table)@,
        }) == spec_search(
            evaluator,
            board_fen(*old(board)),
            board_ply(*old(board)) as int,
            depth as nat,
            color as int,
            alpha as int,
            beta as int,
            old(transition_table)@,
            root,
            do_null,
        ),
        same_board(*final(board), *old(board)),
        in_limit(result.0 as int),
        table_ok(final(transition_table)@),
        result.1 == NULL_MOVE || rules_moves(board_fen(*old(board))).contains(result.1)
            || probe_answers(
            consulted(old(transition_table)@, rules_zobrist(board_fen(*old(board))), root),
            depth as nat,
            alpha as int,
            beta as int,
        ),
        root ==> result.1 == NULL_MOVE || rules_moves(board_fen(*old(board))).contains(result.1),
    decreases depth,
{
    let ghost fen = board_fen(*board);
    let ghost start_ply = board_ply(*board) as int;
    let hash: u64 = zobrist(board);
    let entry: Option<TransitionEntry> = lookup(transition_table, hash, root);
    let (low_start, high): (i64, i64) = match probe(entry, depth, alpha, beta) {
        Probed::Answer { score, mv } => {
            return (score, mv);
        },
        Probed::Window { alpha: low, beta: high } => (low, high),
    };
    if depth == 0 || checkmate(board) {
        let score: i64 = quiesce(board, color, low_start, high, QUIESCE_DEPTH, evaluator);
        return (score, NULL_MOVE);
    }
    let unordered: Vec<u16> = if root {
        root_filter(board)
    } else {
        legal_moves(board)
    };
    assert forall|k: int| 0 <= k < unordered@.len() implies rules_moves(fen).contains(
        #[trigger] unordered@[k],
    ) by {}
    let moves: Vec<u16> = order_moves(board, &unordered);
    if moves.len() == 0 {
        let score: i64 = quiesce(board, color, low_start, high, QUIESCE_DEPTH, evaluator);
        return (score, NULL_MOVE);
    }
    if do_null && !in_check(board) && ply(board) > 0 && non_pawn_material(board, color == 1) > 0
        && depth > 3 {
        match passed(board) {
            Some(after_pass) => {
                let mut after: Board = after_pass;
                let top: i64 = if -high + CENTIPAWN > SCORE_LIMIT {
                    SCORE_LIMIT
                } else {
                    -high + CENTIPAWN
                };
                let (reply, _) = nega_max(
                    &mut after,
                    depth - 1 - NULL_REDUCTION,
                    -color,
                    -high,
                    top,
                    transition_table,
                    false,
                    evaluator,
                    false,
                );
                if -reply > high {
                    return (high, NULL_MOVE);
                }
            },
            None => {},
        }
    }
    let ghost table_start = transition_table@;
    let mut best_score: i64 = -MATE_SCORE;
    let mut best_move: u16 = NULL_MOVE;
    let mut low: i64 = low_start;
    let mut cut: bool = false;
    let mut i: usize = 0;
    while i < moves.len() && !cut
        invariant
            evaluator_ok(evaluator),
            color == 1 || color == -1,
            depth > 0,
            same_board(*board, *old(board)),
            fen == board_fen(*old(board)),
            playable(fen),
            start_ply == board_ply(*old(board)) as int,
            has_room(*old(board), depth as int + QUIESCE_DEPTH as int),
            forall|k: int| 0 <= k < moves@.len() ==> rules_moves(fen).contains(
                #[trigger] moves@[k],
            ),
            0 <= i <= moves.len(),
            in_limit(low as int),
            in_limit(high as int),
            in_limit(best_score as int),
            table_ok(transition_table@),
            best_move == NULL_MOVE || rules_moves(fen).contains(best_move),
            spec_search_from(
                evaluator,
                fen,
                start_ply,
                depth as nat,
                color as int,
                low_start as int,
                high as int,
                table_start,
                moves@,
                0,
                -MATE_SCORE as int,
                NULL_MOVE,
            ) == (if cut {
                SearchOutcome {
                    score: best_score as int,
                    mv: best_move,
                    table: transition_table@,
                }
            } else {
                spec_search_from(
                    evaluator,
                    fen,
                    start_ply,
                    depth as nat,
                    color as int,
                    low as int,
                    high as int,
                    transition_table@,
                    moves@,
                    i as int,
                    best_score as int,
                    best_move,
                )
            }),
        decreases moves.len() - i, if cut { 0int } else { 1int },
    {
        let mv: u16 = moves[i];
        apply_move(board, mv);
        let (reply, _) = nega_max(
            board,
            depth - 1,
            -color,
            -high,
            -low,
            transition_table,
            false,
            evaluator,
            true,
        );
        undo_move(board);
        assert(board_undo(*old(board)).push(fen).drop_last() =~= board_undo(*old(board)));
        let score: i64 = -reply;
        if score > best_score {
            best_score = score;
            best_move = mv;
        }
        if score > low {
            low = score;
        }
        if low > high {
            cut = true;
        } else {
            i += 1;
        }
    }
    store(transition_table, hash, best_score, best_move, depth, low_start, high);
    (best_score, best_move)
}

} // verus!
