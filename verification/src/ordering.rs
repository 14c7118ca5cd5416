//! Move ordering: the moves most likely to cut the search come first.
use crate::rules::{
    board_fen, gives_check, is_capture, rules_gives_check, rules_is_capture, rules_moves,
};
use pleco::Board;
use vstd::prelude::*;

verus! {

/// The value of a move that gives check.
pub const CHECK_VALUE: u32 = 50;

/// The value of a capture that gives no check.
pub const CAPTURE_VALUE: u32 = 10;

/// The value of a move before the search: 50 where it gives check, else 10
/// where it captures, else 0.
pub open spec fn move_priority(position: Seq<char>, mv: u16) -> u32 {
    if rules_gives_check(position, mv) {
        CHECK_VALUE
    } else if rules_is_capture(position, mv) {
        CAPTURE_VALUE
    } else {
        0
    }
}

/// The values of a list of moves, move by move.
pub open spec fn priorities(position: Seq<char>, moves: Seq<u16>) -> Seq<u32> {
    Seq::new(moves.len(), |i: int| move_priority(position, moves[i]))
}

/// Which of the three classes a value falls in: 0 for a check, 1 for a
/// capture, 2 for the rest.
pub open spec fn class_of(value: u32) -> int {
    if value == CHECK_VALUE {
        0
    } else if value == CAPTURE_VALUE {
        1
    } else {
        2
    }
}

/// Those of the first `n` moves whose value falls in the given class, in
/// the order of the list.
pub open spec fn picked(moves: Seq<u16>, values: Seq<u32>, class: int, n: int) -> Seq<u16>
    decreases n,
{
    if n <= 0 {
        Seq::empty()
    } else if class_of(values[n - 1]) == class {
        picked(moves, values, class, n - 1).push(moves[n - 1])
    } else {
        picked(moves, values, class, n - 1)
    }
}

/// The moves in search order: the checks, then the captures, then the rest,
/// each class in the order of the list.
pub open spec fn ordered(moves: Seq<u16>, values: Seq<u32>) -> Seq<u16> {
    picked(moves, values, 0, moves.len() as int) + picked(moves, values, 1, moves.len() as int)
        + picked(moves, values, 2, moves.len() as int)
}

/// The value of a legal move before the search.
pub fn move_value(mv: u16, board: &Board) -> (value: u32)
    requires
        rules_moves(board_fen(*board)).contains(mv),
    ensures
        value == move_priority(board_fen(*board), mv),
{
    if gives_check(board, mv) {
        CHECK_VALUE
    } else if is_capture(board, mv) {
        CAPTURE_VALUE
    } else {
        0
    }
}

/// Sorts moves by their values, highest first; moves of one value keep
/// their order.
pub fn order_by_value(moves: &Vec<u16>, values: &Vec<u32>) -> (sorted: Vec<u16>)
    requires
        moves.len() == values.len(),
    ensures
        sorted@ == ordered(moves@, values@),
        sorted@.len() == moves@.len(),
        forall|k: int| 0 <= k < sorted@.len() ==> moves@.contains(#[trigger] sorted@[k]),
{
    let mut checks: Vec<u16> = Vec::new();
    let mut captures: Vec<u16> = Vec::new();
    let mut rest: Vec<u16> = Vec::new();
    let mut i: usize = 0;
    while i < moves.len()
        invariant
            moves.len() == values.len(),
            0 <= i <= moves.len(),
            checks@ == picked(moves@, values@, 0, i as int),
            captures@ == picked(moves@, values@, 1, i as int),
            rest@ == picked(moves@, values@, 2, i as int),
            checks@.len() + captures@.len() + rest@.len() == i,
            forall|k: int| 0 <= k < checks@.len() ==> moves@.contains(#[trigger] checks@[k]),
            forall|k: int| 0 <= k < captures@.len() ==> moves@.contains(#[trigger] captures@[k]),
            forall|k: int| 0 <= k < rest@.len() ==> moves@.contains(#[trigger] rest@[k]),
        decreases moves.len() - i,
    {
        let value: u32 = values[i];
        assert(moves@.contains(moves@[i as int]));
        if value == CHECK_VALUE {
            checks.push(moves[i]);
        } else if value == CAPTURE_VALUE {
            captures.push(moves[i]);
        } else {
            rest.push(moves[i]);
        }
        i += 1;
    }
    checks.append(&mut captures);
    checks.append(&mut rest);
    checks
}

/// Puts the legal moves of a position in search order.
pub fn order_moves(board: &Board, moves: &Vec<u16>) -> (sorted: Vec<u16>)
    requires
        forall|i: int| 0 <= i < moves@.len() ==> rules_moves(board_fen(*board)).contains(moves@[i]),
    ensures
        sorted@ == ordered(moves@, priorities(board_fen(*board), moves@)),
        sorted@.len() == moves@.len(),
        forall|k: int|
            0 <= k < sorted@.len() ==> rules_moves(board_fen(*board)).contains(
                #[trigger] sorted@[k],
            ),
{
    let mut values: Vec<u32> = Vec::new();
    let mut i: usize = 0;
    while i < moves.len()
        invariant
            0 <= i <= moves.len(),
            forall|k: int|
                0 <= k < moves@.len() ==> rules_moves(board_fen(*board)).contains(moves@[k]),
            values@.len() == i,
            forall|k: int|
                0 <= k < i ==> values@[k] == move_priority(board_fen(*board), #[trigger] moves@[k]),
        decreases moves.len() - i,
    {
        values.push(move_value(moves[i], board));
        i += 1;
    }
    assert(values@ =~= priorities(board_fen(*board), moves@));
    order_by_value(moves, &values)
}

// ---------------------------------------------------------------------
// What ordering keeps
// ---------------------------------------------------------------------

/// The moves picked for the three classes from the first `n` moves are,
/// taken together, those `n` moves.
proof fn lemma_picked_share(moves: Seq<u16>, values: Seq<u32>, n: int)
    requires
        0 <= n <= moves.len(),
        moves.len() == values.len(),
    ensures
        picked(moves, values, 0, n).to_multiset().add(
            picked(moves, values, 1, n).to_multiset(),
        ).add(picked(moves, values, 2, n).to_multiset()) == moves.take(n).to_multiset(),
    decreases n,
{
    broadcast use vstd::multiset::group_multiset_axioms;
    broadcast use vstd::seq_lib::group_to_multiset_ensures;

    if n == 0 {
        assert(moves.take(0) =~= Seq::<u16>::empty());
        assert(picked(moves, values, 0, n).to_multiset().add(
            picked(moves, values, 1, n).to_multiset(),
        ).add(picked(moves, values, 2, n).to_multiset()) =~= moves.take(n).to_multiset());
    } else {
        lemma_picked_share(moves, values, n - 1);
        let last = moves[n - 1];
        assert(moves.take(n) =~= moves.take(n - 1).push(last));
        vstd::seq_lib::to_multiset_build(moves.take(n - 1), last);
        vstd::seq_lib::to_multiset_build(picked(moves, values, 0, n - 1), last);
        vstd::seq_lib::to_multiset_build(picked(moves, values, 1, n - 1), last);
        vstd::seq_lib::to_multiset_build(picked(moves, values, 2, n - 1), last);
        assert(picked(moves, values, 0, n).to_multiset().add(
            picked(moves, values, 1, n).to_multiset(),
        ).add(picked(moves, values, 2, n).to_multiset()) =~= moves.take(n).to_multiset());
    }
}

/// Ordering drops no move and adds none: the ordered list holds every move
/// as often as the list did.
pub proof fn ordering_keeps_every_move(moves: Seq<u16>, values: Seq<u32>)
    requires
        moves.len() == values.len(),
    ensures
        ordered(moves, values).to_multiset() == moves.to_multiset(),
        ordered(moves, values).len() == moves.len(),
{
    let n = moves.len() as int;
    let checks = picked(moves, values, 0, n);
    let captures = picked(moves, values, 1, n);
    let rest = picked(moves, values, 2, n);
    lemma_picked_share(moves, values, n);
    assert(moves.take(n) =~= moves);
    vstd::seq_lib::lemma_multiset_commutative(checks, captures);
    vstd::seq_lib::lemma_multiset_commutative(checks + captures, rest);
    vstd::seq_lib::to_multiset_len(ordered(moves, values));
    vstd::seq_lib::to_multiset_len(moves);
}

/// Every move picked for a class has a value of that class.
proof fn lemma_picked_class(position: Seq<char>, moves: Seq<u16>, class: int, n: int)
    requires
        0 <= n <= moves.len(),
    ensures
        forall|k: int|
            0 <= k < picked(moves, priorities(position, moves), class, n).len() ==> class_of(
                move_priority(
                    position,
                    #[trigger] picked(moves, priorities(position, moves), class, n)[k],
                ),
            ) == class,
    decreases n,
{
    if n > 0 {
        lemma_picked_class(position, moves, class, n - 1);
        let values = priorities(position, moves);
        let before = picked(moves, values, class, n - 1);
        let now = picked(moves, values, class, n);
        assert(values[n - 1] == move_priority(position, moves[n - 1]));
        assert forall|k: int| 0 <= k < now.len() implies class_of(
            move_priority(position, #[trigger] now[k]),
        ) == class by {
            if k < before.len() {
                assert(now[k] == before[k]);
            } else {
                assert(now[k] == moves[n - 1]);
            }
        }
    }
}

/// The ordered moves come with falling values: no move stands before one
/// of a higher value.
pub proof fn ordering_is_descending(position: Seq<char>, moves: Seq<u16>)
    ensures
        forall|i: int, j: int|
            0 <= i < j < ordered(moves, priorities(position, moves)).len() ==> move_priority(
                position,
                #[trigger] ordered(moves, priorities(position, moves))[i],
            ) >= move_priority(
                position,
                #[trigger] ordered(moves, priorities(position, moves))[j],
            ),
{
    let n = moves.len() as int;
    let values = priorities(position, moves);
    let checks = picked(moves, values, 0, n);
    let captures = picked(moves, values, 1, n);
    let rest = picked(moves, values, 2, n);
    let out = ordered(moves, values);
    lemma_picked_class(position, moves, 0, n);
    lemma_picked_class(position, moves, 1, n);
    lemma_picked_class(position, moves, 2, n);
    assert forall|i: int| 0 <= i < out.len() implies class_of(
        move_priority(position, #[trigger] out[i]),
    ) == (if i < checks.len() {
        0int
    } else if i < checks.len() + captures.len() {
        1int
    } else {
        2int
    }) by {
        if i < checks.len() {
            assert(out[i] == checks[i]);
        } else if i < checks.len() + captures.len() {
            assert(out[i] == captures[i - checks.len()]);
        } else {
            assert(out[i] == rest[i - checks.len() - captures.len()]);
        }
    }
}

/// Whether a move's value in a position falls in the given class.
pub open spec fn in_class(position: Seq<char>, class: int) -> spec_fn(u16) -> bool {
    |mv: u16| class_of(move_priority(position, mv)) == class
}

/// The moves picked for a class from the first `n` moves are those of the
/// `n` moves whose value falls in the class, in their order.
proof fn lemma_picked_is_filter(position: Seq<char>, moves: Seq<u16>, class: int, n: int)
    requires
        0 <= n <= moves.len(),
    ensures
        picked(moves, priorities(position, moves), class, n) == moves.take(n).filter(
            in_class(position, class),
        ),
    decreases n,
{
    reveal(Seq::filter);
    if n == 0 {
        assert(moves.take(0) =~= Seq::<u16>::empty());
    } else {
        lemma_picked_is_filter(position, moves, class, n - 1);
        assert(moves.take(n).drop_last() =~= moves.take(n - 1));
        assert(moves.take(n).last() == moves[n - 1]);
    }
}

/// Ordering is stable: the ordered list is the checks in the order of the
/// list, then the captures in the order of the list, then the rest in the
/// order of the list.
pub proof fn ordering_is_stable(position: Seq<char>, moves: Seq<u16>)
    ensures
        ordered(moves, priorities(position, moves)) == moves.filter(in_class(position, 0))
            + moves.filter(in_class(position, 1)) + moves.filter(in_class(position, 2)),
{
    let n = moves.len() as int;
    lemma_picked_is_filter(position, moves, 0, n);
    lemma_picked_is_filter(position, moves, 1, n);
    lemma_picked_is_filter(position, moves, 2, n);
    assert(moves.take(n) =~= moves);
}

} // verus!
