//! What is asked of a board before it is played on.
use crate::rules::{
    attackers_to, board_fen, depth, has_room, king_sq, moves_played, occupied, occupied_black,
    occupied_white, playable, ply, rule_50, white_to_move,
};
use pleco::Board;
use vstd::prelude::*;

verus! {

/// Whether the board's counters leave room for `plies` more moves.
pub fn has_room_for(board: &Board, plies: u16) -> (ok: bool)
    ensures
        ok == has_room(*board, plies as int),
{
    let most: u32 = 65_535;
    let clock: i32 = rule_50(board) as i32;
    ply(board) as u32 + plies as u32 <= most && moves_played(board) as u32 + plies as u32 <= most
        && depth(board) as u32 + plies as u32 <= most && clock + plies as i32 <= 32_767
}

/// Whether the board can be played on: the king of the side that is not to
/// move is not attacked.
pub fn is_playable(board: &Board) -> (ok: bool)
    ensures
        ok == playable(board_fen(*board)),
{
    let white: bool = white_to_move(board);
    let around: u64 = attackers_to(board, king_sq(board, !white), occupied(board));
    let movers: u64 = if white {
        occupied_white(board)
    } else {
        occupied_black(board)
    };
    around & movers == 0
}

} // verus!
