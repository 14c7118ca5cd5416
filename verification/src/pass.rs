//! Passing the turn.
//!
//! A pass leaves every piece where it is and hands the move to the other
//! side. The engine makes one by rewriting the text of the position: the
//! letter of the side to move is changed and the en-passant field is
//! cleared, and the rule library reads the new text.
use crate::board::is_playable;
use crate::rules::{
    board_depth, board_fen, board_moves_played, board_ply, board_undo, fen, playable,
    read_rewritten, rules_read, rules_rule_50,
};
use pleco::Board;
use vstd::prelude::*;

verus! {

/// The index of the first blank at or after `from`, or the length of the
/// text where there is none.
pub open spec fn field_end(text: Seq<char>, from: int) -> int
    decreases text.len() - from,
{
    if from < 0 || from >= text.len() {
        text.len() as int
    } else if text[from] == ' ' {
        from
    } else {
        field_end(text, from + 1)
    }
}

/// The letter of the other side.
pub open spec fn other_side(side: char) -> char {
    if side == 'w' {
        'b'
    } else {
        'w'
    }
}

/// The text of a position after a pass: the first field (the pieces) and
/// the third (the castling rights) stay, the second (the side to move)
/// changes, the fourth (the en-passant square) becomes a dash, and what
/// follows it stays. `None` where the text has no such four fields.
pub open spec fn passed_text(text: Seq<char>) -> Option<Seq<char>> {
    let pieces_end = field_end(text, 0);
    let side_end = field_end(text, pieces_end + 1);
    let castling_end = field_end(text, side_end + 1);
    let passant_end = field_end(text, castling_end + 1);
    if passant_end < text.len() && side_end == pieces_end + 2 && (text[pieces_end + 1] == 'w'
        || text[pieces_end + 1] == 'b') {
        Some(
            text.subrange(0, pieces_end + 1) + seq![other_side(text[pieces_end + 1])]
                + text.subrange(side_end, castling_end + 1) + seq!['-'] + text.subrange(
                passant_end,
                text.len() as int,
            ),
        )
    } else {
        None
    }
}

/// The position after a pass, as the rule library reads the rewritten
/// text; `None` where the text cannot be rewritten or is not read, or
/// where the position read cannot be played on.
pub open spec fn pass_target(position: Seq<char>) -> Option<Seq<char>> {
    match passed_text(position) {
        Some(text) => match rules_read(text) {
            Some(read) => if playable(read) {
                Some(read)
            } else {
                None
            },
            None => None,
        },
        None => None,
    }
}

/// Finds the end of the field that starts at `from`.
pub fn find_field_end(text: &str, len: usize, from: usize) -> (end: usize)
    requires
        len == text@.len(),
    ensures
        end == field_end(text@, from as int),
        end <= len,
        from <= len ==> from <= end,
{
    let mut i: usize = from;
    while i < len && text.get_char(i) != ' '
        invariant
            len == text@.len(),
            from <= i,
            field_end(text@, from as int) == field_end(text@, i as int),
        decreases len - i,
    {
        i += 1;
    }
    if i >= len {
        len
    } else {
        i
    }
}

/// Rewrites the text of a position for a pass.
pub fn pass_text(text: &str) -> (r: Option<String>)
    ensures
        match r {
            Some(t) => passed_text(text@) == Some(t@),
            None => passed_text(text@) is None,
        },
{
    let len: usize = text.unicode_len();
    let pieces_end: usize = find_field_end(text, len, 0);
    if pieces_end >= len {
        return None;
    }
    let side_end: usize = find_field_end(text, len, pieces_end + 1);
    if side_end >= len || side_end != pieces_end + 2 {
        return None;
    }
    let castling_end: usize = find_field_end(text, len, side_end + 1);
    if castling_end >= len {
        return None;
    }
    let passant_end: usize = find_field_end(text, len, castling_end + 1);
    if passant_end >= len {
        return None;
    }
    let side: char = text.get_char(pieces_end + 1);
    if side != 'w' && side != 'b' {
        return None;
    }
    proof {
        reveal_strlit("w");
        reveal_strlit("b");
        reveal_strlit("-");
    }
    let mut out: String = String::from_str(text.substring_char(0, pieces_end + 1));
    if side == 'w' {
        out.append("b");
    } else {
        out.append("w");
    }
    out.append(text.substring_char(side_end, castling_end + 1));
    out.append("-");
    out.append(text.substring_char(passant_end, len));
    assert(out@ =~= passed_text(text@).unwrap());
    Some(out)
}

/// The board after a pass by the side to move, with nothing played on it;
/// `None` where the rule library does not read the rewritten position or
/// the position it reads cannot be played on.
pub fn passed(board: &Board) -> (r: Option<Board>)
    ensures
        match r {
            Some(p) => {
                &&& pass_target(board_fen(*board)) == Some(board_fen(p))
                &&& board_ply(p) == 0
                &&& board_depth(p) == 0
                &&& board_undo(p).len() == 0
                &&& board_moves_played(p) <= board_moves_played(*board) + 1
                &&& rules_rule_50(board_fen(p)) == rules_rule_50(board_fen(*board))
            },
            None => pass_target(board_fen(*board)) is None,
        },
{
    let text = fen(board);
    match pass_text(text.as_str()) {
        Some(rewritten) => match read_rewritten(board, rewritten.as_str()) {
            Some(after) => if is_playable(&after) {
                Some(after)
            } else {
                None
            },
            None => None,
        },
        None => None,
    }
}

} // verus!
