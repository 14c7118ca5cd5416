//! Playing: a run of searched moves, a match of the engine against itself,
//! and the best move after a list of moves.
use crate::board::{has_room_for, is_playable};
use crate::eval::{eval, eval_is_an_evaluator};
use crate::pass::{field_end, find_field_end};
use crate::rules::{
    apply_move, apply_uci_move, board_fen, find_by_text, legal_moves, move_text, picture,
    playable, rules_move_text, rules_moves, rules_picture, rules_white_to_move, start_fen,
    start_pos, view_after, view_has_room, view_of, white_to_move, BoardView, NULL_MOVE,
};
use crate::score::{evaluator_ok, CENTIPAWN, MATE_SCORE};
use crate::search::{nega_max, spec_search, table_ok, TransitionEntry, QUIESCE_DEPTH};
use pleco::Board;
use std::collections::HashMap;
use vstd::prelude::*;

verus! {

/// The plies of room that a search of the given depth needs: its own depth
/// and that of the quiescence search below it.
pub open spec fn search_room(depth: u8) -> int {
    depth + QUIESCE_DEPTH
}

/// The view of the board after up to `turns` searched moves, the first by
/// the side with sign `color`. Each move is searched at the root with a
/// fresh table and the full window. The run ends early where the position
/// cannot be played on, where the counters leave no room for the search,
/// or where the search finds no move.
pub open spec fn played<E: Fn(&Board) -> i64>(
    ev: E,
    view: BoardView,
    turns: nat,
    depth: u8,
    color: int,
) -> BoardView
    decreases turns,
{
    if turns == 0 || !playable(view.position) || !view_has_room(view, search_room(depth)) {
        view
    } else {
        let found = spec_search(
            ev,
            view.position,
            view.ply,
            depth as nat,
            color,
            -MATE_SCORE as int,
            MATE_SCORE as int,
            Map::empty(),
            true,
            true,
        );
        if found.mv == NULL_MOVE {
            view
        } else {
            played(ev, view_after(view, found.mv), (turns - 1) as nat, depth, -color)
        }
    }
}

/// Plays up to `num_moves` searched moves on the board, the first by the
/// side with sign `start_color`, the sides taking turns, and returns the
/// board.
pub fn play_x_moves<E: Fn(&Board) -> i64 + Copy>(
    board: Board,
    num_moves: u8,
    depth: u8,
    start_color: i8,
    evaluator: E,
) -> (end: Board)
    requires
        evaluator_ok(evaluator),
        start_color == 1 || start_color == -1,
    ensures
        view_of(end) == played(
            evaluator,
            view_of(board),
            num_moves as nat,
            depth,
            start_color as int,
        ),
{
    let mut board: Board = board;
    let ghost start = view_of(board);
    let mut color: i8 = start_color;
    let mut left: u8 = num_moves;
    let mut stopped: bool = false;
    while left > 0 && !stopped
        invariant
            evaluator_ok(evaluator),
            color == 1 || color == -1,
            played(evaluator, start, num_moves as nat, depth, start_color as int) == (if stopped {
                view_of(board)
            } else {
                played(evaluator, view_of(board), left as nat, depth, color as int)
            }),
        decreases left, if stopped { 0int } else { 1int },
    {
        if !is_playable(&board) || !has_room_for(&board, depth as u16 + QUIESCE_DEPTH as u16) {
            stopped = true;
        } else {
            let mut tt: HashMap<u64, TransitionEntry> = HashMap::new();
            let (_, mv) = nega_max(
                &mut board,
                depth,
                color,
                -MATE_SCORE,
                MATE_SCORE,
                &mut tt,
                true,
                evaluator,
                true,
            );
            if mv == NULL_MOVE {
                stopped = true;
            } else {
                apply_move(&mut board, mv);
                color = -color;
                left = left - 1;
            }
        }
    }
    board
}

// ---------------------------------------------------------------------
// The best move after a list of moves
// ---------------------------------------------------------------------

/// Why a list of moves could not be played.
#[derive(Clone, Copy, Debug, PartialEq, Eq, Structural)]
pub enum MoveListError {
    /// The field with this index, counted from zero, is not a legal move.
    IllegalMove { index: usize },
    /// The board's counters leave no room for the moves and the search.
    TooLong,
}

/// The fields of a text from the index `from` on, a blank between one and
/// the next. Two blanks in a row hold an empty field between them.
pub open spec fn fields_from(text: Seq<char>, from: int) -> Seq<Seq<char>>
    decreases text.len() - from,
{
    if from < 0 || from > text.len() {
        Seq::empty()
    } else if from <= field_end(text, from) < text.len() {
        seq![text.subrange(from, field_end(text, from))] + fields_from(
            text,
            field_end(text, from) + 1,
        )
    } else {
        seq![text.subrange(from, field_end(text, from))]
    }
}

/// The fields of a text.
pub open spec fn fields_of(text: Seq<char>) -> Seq<Seq<char>> {
    fields_from(text, 0)
}

/// The texts of a list of strings.
pub open spec fn texts(list: Seq<String>) -> Seq<Seq<char>> {
    Seq::new(list.len(), |i: int| list[i]@)
}

/// Splits a text at its blanks.
pub fn split_fields(text: &str) -> (fields: Vec<String>)
    ensures
        texts(fields@) == fields_of(text@),
{
    let len: usize = text.unicode_len();
    let mut fields: Vec<String> = Vec::new();
    let mut from: usize = 0;
    let mut done: bool = false;
    assert(texts(fields@) =~= Seq::<Seq<char>>::empty());
    while !done
        invariant
            len == text@.len(),
            from <= len,
            fields_of(text@) == texts(fields@) + (if done {
                Seq::<Seq<char>>::empty()
            } else {
                fields_from(text@, from as int)
            }),
        decreases len - from + (if done { 0int } else { 1int }),
    {
        let end: usize = find_field_end(text, len, from);
        let field: String = String::from_str(text.substring_char(from, end));
        let ghost before = fields@;
        fields.push(field);
        assert(texts(fields@) =~= texts(before).push(text@.subrange(from as int, end as int)));
        if end < len {
            from = end + 1;
        } else {
            done = true;
        }
    }
    fields
}

/// The view of a board on which the moves of the fields from the `i`-th
/// on have been played. An empty field is passed over; a field that is not
/// the text of a legal move is an error, and so is a move for which the
/// counters leave no room.
pub open spec fn replayed(view: BoardView, fields: Seq<Seq<char>>, i: int) -> Result<
    BoardView,
    MoveListError,
>
    decreases fields.len() - i,
{
    if i < 0 || i >= fields.len() {
        Ok(view)
    } else if fields[i].len() == 0 {
        replayed(view, fields, i + 1)
    } else if !view_has_room(view, 1) {
        Err(MoveListError::TooLong)
    } else {
        match find_by_text(rules_moves(view.position), fields[i]) {
            Some(mv) => replayed(view_after(view, mv), fields, i + 1),
            None => Err(MoveListError::IllegalMove { index: i as usize }),
        }
    }
}

/// The view of a board where the replay of the fields from the `i`-th on
/// comes to a stop: after the last field, or before the first that cannot
/// be played.
pub open spec fn replay_stop(view: BoardView, fields: Seq<Seq<char>>, i: int) -> BoardView
    decreases fields.len() - i,
{
    if i < 0 || i >= fields.len() {
        view
    } else if fields[i].len() == 0 {
        replay_stop(view, fields, i + 1)
    } else if !view_has_room(view, 1) {
        view
    } else {
        match find_by_text(rules_moves(view.position), fields[i]) {
            Some(mv) => replay_stop(view_after(view, mv), fields, i + 1),
            None => view,
        }
    }
}

/// Plays the moves of the fields on the board, one after the other. After
/// an error the board holds the moves that came before it.
pub fn replay(board: &mut Board, fields: &Vec<String>) -> (r: Result<(), MoveListError>)
    requires
        playable(board_fen(*old(board))),
    ensures
        match replayed(view_of(*old(board)), texts(fields@), 0) {
            Ok(view) => r is Ok && view_of(*final(board)) == view,
            Err(error) => r == Err::<(), MoveListError>(error),
        },
        view_of(*final(board)) == replay_stop(view_of(*old(board)), texts(fields@), 0),
        playable(board_fen(*final(board))),
{
    let mut i: usize = 0;
    while i < fields.len()
        invariant
            0 <= i <= fields.len(),
            playable(board_fen(*board)),
            replay_stop(view_of(*old(board)), texts(fields@), 0) == replay_stop(
                view_of(*board),
                texts(fields@),
                i as int,
            ),
            replayed(view_of(*old(board)), texts(fields@), 0) == replayed(
                view_of(*board),
                texts(fields@),
                i as int,
            ),
        decreases fields.len() - i,
    {
        let field: &str = fields[i].as_str();
        assert(texts(fields@)[i as int] == field@);
        if field.unicode_len() > 0 {
            if !has_room_for(board, 1) {
                return Err(MoveListError::TooLong);
            }
            if !apply_uci_move(board, field) {
                return Err(MoveListError::IllegalMove { index: i });
            }
        }
        i += 1;
    }
    Ok(())
}

/// The view of a board in the first position of the game.
pub open spec fn start_view() -> BoardView {
    BoardView { position: start_fen(), ply: 0, moves_played: 0, depth: 0 }
}

/// The sign of the side to move in a position.
pub open spec fn side_to_move(position: Seq<char>) -> int {
    if rules_white_to_move(position) {
        1
    } else {
        -1
    }
}

/// The move that `find_best_move` chooses in a position.
pub open spec fn best_move_in(view: BoardView, depth: u8) -> u16 {
    spec_search(
        eval,
        view.position,
        view.ply,
        depth as nat,
        side_to_move(view.position),
        -MATE_SCORE as int,
        MATE_SCORE as int,
        Map::empty(),
        true,
        true,
    ).mv
}

/// Plays a list of moves from the first position of the game and returns
/// the move that a search of the given depth chooses for the side then to
/// move. The moves are written as pleco writes them, from-square and
/// to-square and the piece of a promotion, with a blank between one move
/// and the next.
///
/// A field that is not a legal move is an error, and so is a list so long
/// that the board's counters leave no room for the search. Where the side
/// to move has no move, the text of the null move comes back.
pub fn find_best_move(uci_moves: &str, depth: u8) -> (r: Result<String, MoveListError>)
    ensures
        match replayed(start_view(), fields_of(uci_moves@), 0) {
            Ok(view) => if view_has_room(view, search_room(depth)) {
                r is Ok && r->Ok_0@ == rules_move_text(best_move_in(view, depth))
            } else {
                r == Err::<String, MoveListError>(MoveListError::TooLong)
            },
            Err(error) => r == Err::<String, MoveListError>(error),
        },
{
    let fields = split_fields(uci_moves);
    let mut board: Board = start_pos();
    match replay(&mut board, &fields) {
        Err(error) => {
            return Err(error);
        },
        Ok(_) => {},
    }
    if !has_room_for(&board, depth as u16 + QUIESCE_DEPTH as u16) {
        return Err(MoveListError::TooLong);
    }
    let color: i8 = if white_to_move(&board) {
        1
    } else {
        -1
    };
    let mut tt: HashMap<u64, TransitionEntry> = HashMap::new();
    proof {
        eval_is_an_evaluator();
    }
    let (_, mv) = nega_max(
        &mut board,
        depth,
        color,
        -MATE_SCORE,
        MATE_SCORE,
        &mut tt,
        true,
        eval,
        true,
    );
    Ok(move_text(mv))
}

// ---------------------------------------------------------------------
// A match of the engine against itself
// ---------------------------------------------------------------------

/// The bounds of the window in which the moves of a match are searched:
/// 10000 centipawns either way.
pub const MATCH_WINDOW: i64 = 10_000 * CENTIPAWN;

/// One turn of a match.
#[derive(Debug)]
pub struct Turn {
    /// The number of the turn, counted from one.
    pub number: u32,
    /// The move that was played.
    pub mv: u16,
    /// The score that the search gave it, for the side that played it.
    pub score: i64,
    /// A picture of the board before the move.
    pub board: String,
}

/// What a turn holds.
pub struct TurnView {
    pub number: int,
    pub mv: u16,
    pub score: int,
    pub picture: Seq<char>,
}

/// What the turns of a list hold.
pub open spec fn turn_views(list: Seq<Turn>) -> Seq<TurnView> {
    Seq::new(
        list.len(),
        |i: int|
            TurnView {
                number: list[i].number as int,
                mv: list[i].mv,
                score: list[i].score as int,
                picture: list[i].board@,
            },
    )
}

/// The turns of a match from a position on, at most `left` of them, the
/// first with the given number and by the side with sign `color`. White
/// and black each keep a table of their own from turn to turn. The match
/// ends where the side to move has no legal move, where the counters leave
/// no room for the search, or where the search finds no move.
pub open spec fn match_turns(
    view: BoardView,
    color: int,
    left: nat,
    number: int,
    depth: u8,
    white: Map<u64, TransitionEntry>,
    black: Map<u64, TransitionEntry>,
) -> Seq<TurnView>
    decreases left,
{
    let found = spec_search(
        eval,
        view.position,
        view.ply,
        depth as nat,
        color,
        -MATCH_WINDOW as int,
        MATCH_WINDOW as int,
        if color == 1 {
            white
        } else {
            black
        },
        true,
        true,
    );
    if left == 0 || rules_moves(view.position).len() == 0 || !view_has_room(
        view,
        search_room(depth),
    ) || found.mv == NULL_MOVE {
        Seq::empty()
    } else {
        seq![
            TurnView {
                number,
                mv: found.mv,
                score: found.score,
                picture: rules_picture(view.position),
            },
        ] + match_turns(
            view_after(view, found.mv),
            -color,
            (left - 1) as nat,
            number + 1,
            depth,
            if color == 1 {
                found.table
            } else {
                white
            },
            if color == 1 {
                black
            } else {
                found.table
            },
        )
    }
}

/// Plays a match of the engine against itself from the first position of
/// the game, white moving first, for at most `turns` turns, and returns
/// what happened turn by turn.
pub fn play_match(depth: u8, turns: u16) -> (record: Vec<Turn>)
    ensures
        turn_views(record@) == match_turns(
            start_view(),
            1,
            turns as nat,
            1,
            depth,
            Map::empty(),
            Map::empty(),
        ),
{
    let mut board: Board = start_pos();
    let mut white_tt: HashMap<u64, TransitionEntry> = HashMap::new();
    let mut black_tt: HashMap<u64, TransitionEntry> = HashMap::new();
    let mut record: Vec<Turn> = Vec::new();
    let mut color: i8 = 1;
    let mut left: u16 = turns;
    let mut number: u32 = 1;
    let mut stopped: bool = false;
    proof {
        eval_is_an_evaluator();
        assert(turn_views(record@) =~= Seq::<TurnView>::empty());
    }
    while left > 0 && !stopped
        invariant
            playable(board_fen(board)),
            evaluator_ok(eval),
            color == 1 || color == -1,
            table_ok(white_tt@),
            table_ok(black_tt@),
            number + left <= turns + 1,
            match_turns(start_view(), 1, turns as nat, 1, depth, Map::empty(), Map::empty())
                == turn_views(record@) + (if stopped {
                Seq::<TurnView>::empty()
            } else {
                match_turns(
                    view_of(board),
                    color as int,
                    left as nat,
                    number as int,
                    depth,
                    white_tt@,
                    black_tt@,
                )
            }),
        decreases left, if stopped { 0int } else { 1int },
    {
        let moves = legal_moves(&board);
        if moves.len() == 0 || !has_room_for(&board, depth as u16 + QUIESCE_DEPTH as u16) {
            stopped = true;
        } else {
            let drawn: String = picture(&board);
            let (score, mv) = if color == 1 {
                nega_max(
                    &mut board,
                    depth,
                    color,
                    -MATCH_WINDOW,
                    MATCH_WINDOW,
                    &mut white_tt,
                    true,
                    eval,
                    true,
                )
            } else {
                nega_max(
                    &mut board,
                    depth,
                    color,
                    -MATCH_WINDOW,
                    MATCH_WINDOW,
                    &mut black_tt,
                    true,
                    eval,
                    true,
                )
            };
            if mv == NULL_MOVE {
                stopped = true;
            } else {
                let ghost before = record@;
                let turn = Turn { number, mv, score, board: drawn };
                record.push(turn);
                assert(turn_views(record@) =~= turn_views(before).push(
                    TurnView {
                        number: number as int,
                        mv,
                        score: score as int,
                        picture: rules_picture(board_fen(board)),
                    },
                ));
                apply_move(&mut board, mv);
                color = -color;
                left = left - 1;
                number = number + 1;
            }
        }
    }
    record
}

} // verus!
