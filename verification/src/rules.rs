//! The chess rules, as the `pleco` crate plays them.
//!
//! Everything the engine knows about chess comes through this module. A
//! `pleco::Board` is opaque to the verifier; what the engine reads from one
//! is described by two layers of names.
//!
//! * `board_fen`, three counters and `board_undo` say what a `Board` holds:
//!   the position in Forsyth-Edwards notation, the moves played, and what
//!   can be undone.
//! * The `rules_*` names say what pleco computes from a position. They take
//!   the position as the text that `board_fen` gives.
//!
//! The contracts of the calls at the end of this module are not proved. Each
//! one repeats what pleco's source shows of the function that the body
//! calls.
use pleco::Board;
use vstd::prelude::*;

verus! {

#[verifier::external_type_specification]
#[verifier::external_body]
pub struct ExBoard(pleco::Board);

/// The raw bits of the move that stands for "no move" (`BitMove::null`).
pub const NULL_MOVE: u16 = 0;

/// The kinds of piece, with pleco's names for them.
#[derive(Clone, Copy, Debug, PartialEq, Eq, Structural)]
pub enum PieceType {
    NoPiece,
    P,
    N,
    B,
    R,
    Q,
    K,
    All,
}

impl PieceType {
    /// The number that pleco gives this kind.
    pub open spec fn code(self) -> u8 {
        match self {
            PieceType::NoPiece => 0,
            PieceType::P => 1,
            PieceType::N => 2,
            PieceType::B => 3,
            PieceType::R => 4,
            PieceType::Q => 5,
            PieceType::K => 6,
            PieceType::All => 7,
        }
    }

    /// The kind with the given number; numbers above seven stand for no piece.
    pub open spec fn of_code(code: u8) -> PieceType {
        if code == 1 {
            PieceType::P
        } else if code == 2 {
            PieceType::N
        } else if code == 3 {
            PieceType::B
        } else if code == 4 {
            PieceType::R
        } else if code == 5 {
            PieceType::Q
        } else if code == 6 {
            PieceType::K
        } else if code == 7 {
            PieceType::All
        } else {
            PieceType::NoPiece
        }
    }

    /// Reads a kind from its number.
    pub fn from_code(code: u8) -> (kind: PieceType)
        ensures
            kind == PieceType::of_code(code),
            code <= 7 ==> kind.code() == code,
    {
        if code == 1 {
            PieceType::P
        } else if code == 2 {
            PieceType::N
        } else if code == 3 {
            PieceType::B
        } else if code == 4 {
            PieceType::R
        } else if code == 5 {
            PieceType::Q
        } else if code == 6 {
            PieceType::K
        } else if code == 7 {
            PieceType::All
        } else {
            PieceType::NoPiece
        }
    }
}

// ---------------------------------------------------------------------
// What a board holds
// ---------------------------------------------------------------------

/// The position on the board, as `Board::fen` writes it.
pub uninterp spec fn board_fen(b: Board) -> Seq<char>;

/// The count that `Board::ply` returns: the moves and passes played on this
/// board since it was read from a text.
pub uninterp spec fn board_ply(b: Board) -> u16;

/// The count that `Board::moves_played` returns.
pub uninterp spec fn board_moves_played(b: Board) -> u16;

/// The count that `Board::depth` returns.
pub uninterp spec fn board_depth(b: Board) -> u16;

/// The earlier positions that `Board::undo_move` leads back to, oldest
/// first. Empty where `undo_move` would panic.
pub uninterp spec fn board_undo(b: Board) -> Seq<Seq<char>>;

/// What the engine follows of a board from move to move: the position and
/// the three counters that pleco keeps beside it.
pub struct BoardView {
    pub position: Seq<char>,
    pub ply: int,
    pub moves_played: int,
    pub depth: int,
}

/// The view of a board.
pub open spec fn view_of(b: Board) -> BoardView {
    BoardView {
        position: board_fen(b),
        ply: board_ply(b) as int,
        moves_played: board_moves_played(b) as int,
        depth: board_depth(b) as int,
    }
}

/// The counters of a view leave room for `plies` more moves.
pub open spec fn view_has_room(v: BoardView, plies: int) -> bool {
    &&& v.ply + plies <= u16::MAX
    &&& v.moves_played + plies <= u16::MAX
    &&& v.depth + plies <= u16::MAX
    &&& rules_rule_50(v.position) + plies <= i16::MAX
}

/// The view of a board after a move.
pub open spec fn view_after(v: BoardView, mv: u16) -> BoardView {
    BoardView {
        position: rules_after(v.position, mv),
        ply: v.ply + 1,
        moves_played: v.moves_played + 1,
        depth: v.depth + 1,
    }
}

/// Two boards that hold the same position, counters and undo history.
pub open spec fn same_board(a: Board, b: Board) -> bool {
    &&& board_fen(a) == board_fen(b)
    &&& board_ply(a) == board_ply(b)
    &&& board_moves_played(a) == board_moves_played(b)
    &&& board_depth(a) == board_depth(b)
    &&& board_undo(a) == board_undo(b)
}

/// The board's counters leave room for `plies` more moves. pleco counts
/// plies, moves and depth in sixteen bits and the fifty-move clock in
/// fifteen, and adds to them without a check.
pub open spec fn has_room(b: Board, plies: int) -> bool {
    view_has_room(view_of(b), plies)
}

/// The squares of one side's pieces.
pub open spec fn occupied_by(fen: Seq<char>, white: bool) -> u64 {
    if white {
        rules_occupied_white(fen)
    } else {
        rules_occupied_black(fen)
    }
}

/// Whether a position can be played on: the king of the side that is not
/// to move is not attacked. A position reached by a legal move is such a
/// one. In another, the side to move could take the king, and pleco panics
/// on a board without one.
pub open spec fn playable(fen: Seq<char>) -> bool {
    rules_attackers_to(
        fen,
        rules_king_sq(fen, !rules_white_to_move(fen)),
        rules_occupied(fen),
    ) & occupied_by(fen, rules_white_to_move(fen)) == 0
}

/// Boards that are the same hold positions with the same hash and the same
/// legal moves: a search that leaves the board as it found it leaves these
/// as they were.
pub proof fn same_board_same_position(a: Board, b: Board)
    requires
        same_board(a, b),
    ensures
        rules_zobrist(board_fen(a)) == rules_zobrist(board_fen(b)),
        rules_moves(board_fen(a)) == rules_moves(board_fen(b)),
        view_of(a) == view_of(b),
        playable(board_fen(a)) == playable(board_fen(b)),
{
}

/// `new` is `old` after one move that led to the position `fen`.
pub open spec fn moved_on(old: Board, new: Board, fen: Seq<char>) -> bool {
    &&& playable(fen)
    &&& board_fen(new) == fen
    &&& board_ply(new) == board_ply(old) + 1
    &&& board_moves_played(new) == board_moves_played(old) + 1
    &&& board_depth(new) == board_depth(old) + 1
    &&& board_undo(new) == board_undo(old).push(board_fen(old))
    &&& (rules_rule_50(fen) == rules_rule_50(board_fen(old)) + 1 || rules_rule_50(fen) == 0)
}

// ---------------------------------------------------------------------
// What pleco computes from a position
// ---------------------------------------------------------------------

/// The legal moves that `Board::generate_moves` lists, as raw move bits in
/// the order of the list.
pub uninterp spec fn rules_moves(fen: Seq<char>) -> Seq<u16>;

/// The position that `Board::apply_move` leads to.
pub uninterp spec fn rules_after(fen: Seq<char>, mv: u16) -> Seq<char>;

/// The position that `Board::from_fen` reads from a text, written back by
/// `Board::fen`; `None` where `from_fen` returns an error.
pub uninterp spec fn rules_read(text: Seq<char>) -> Option<Seq<char>>;

/// The text that `BitMove::stringify` gives a move.
pub uninterp spec fn rules_move_text(mv: u16) -> Seq<char>;

/// The picture that `Board::pretty_string` draws of a position.
pub uninterp spec fn rules_picture(fen: Seq<char>) -> Seq<char>;

/// The fifty-move clock that `Board::rule_50` returns.
pub uninterp spec fn rules_rule_50(fen: Seq<char>) -> i16;

/// The hash that `Board::zobrist` returns.
pub uninterp spec fn rules_zobrist(fen: Seq<char>) -> u64;

/// What `Board::checkmate` returns.
pub uninterp spec fn rules_checkmate(fen: Seq<char>) -> bool;

/// What `Board::stalemate` returns.
pub uninterp spec fn rules_stalemate(fen: Seq<char>) -> bool;

/// What `Board::in_check` returns.
pub uninterp spec fn rules_in_check(fen: Seq<char>) -> bool;

/// Whether `Board::turn` returns `Player::White`.
pub uninterp spec fn rules_white_to_move(fen: Seq<char>) -> bool;

/// What `Board::non_pawn_material` returns for one side.
pub uninterp spec fn rules_non_pawn_material(fen: Seq<char>, white: bool) -> i32;

/// What `Board::gives_check` returns for a legal move.
pub uninterp spec fn rules_gives_check(fen: Seq<char>, mv: u16) -> bool;

/// What `Board::is_capture` returns for a legal move.
pub uninterp spec fn rules_is_capture(fen: Seq<char>, mv: u16) -> bool;

/// The number of the kind that `Board::captured_piece` returns for a legal
/// move.
pub uninterp spec fn rules_captured(fen: Seq<char>, mv: u16) -> u8;

/// What `Board::count_piece` returns for one side and one kind, given by
/// its number.
pub uninterp spec fn rules_count_piece(fen: Seq<char>, white: bool, kind: u8) -> u8;

/// The middle-game half of the score that `Board::psq` returns.
pub uninterp spec fn rules_psq_mg(fen: Seq<char>) -> i32;

/// The end-game half of the score that `Board::psq` returns.
pub uninterp spec fn rules_psq_eg(fen: Seq<char>) -> i32;

/// The bits of `Board::occupied`.
pub uninterp spec fn rules_occupied(fen: Seq<char>) -> u64;

/// The bits of `Board::occupied_white`.
pub uninterp spec fn rules_occupied_white(fen: Seq<char>) -> u64;

/// The bits of `Board::occupied_black`.
pub uninterp spec fn rules_occupied_black(fen: Seq<char>) -> u64;

/// The bits of `Board::piece_bb` for one side's pawns.
pub uninterp spec fn rules_pawns(fen: Seq<char>, white: bool) -> u64;

/// The square that `Board::king_sq` returns for one side.
pub uninterp spec fn rules_king_sq(fen: Seq<char>, white: bool) -> u8;

/// The bits of `Board::pieces_pinned` for one side.
pub uninterp spec fn rules_pinned(fen: Seq<char>, white: bool) -> u64;

/// The bits of `Board::attackers_to` for a square and an occupancy.
pub uninterp spec fn rules_attackers_to(fen: Seq<char>, sq: u8, occupied: u64) -> u64;

/// The occupied squares that `Board::get_piece_locations` walks through,
/// each with the number of the piece on it.
pub uninterp spec fn rules_piece_locations(fen: Seq<char>) -> Seq<(u8, u8)>;

/// The bits of `Helper::ring_distance` for a square and a distance.
pub uninterp spec fn rules_ring(sq: u8, distance: u8) -> u64;

/// The first move of a list whose text is `text`.
pub open spec fn find_by_text(moves: Seq<u16>, text: Seq<char>) -> Option<u16>
    decreases moves.len(),
{
    if moves.len() == 0 {
        None
    } else if rules_move_text(moves[0]) == text {
        Some(moves[0])
    } else {
        find_by_text(moves.drop_first(), text)
    }
}

/// The text of the first position of the game.
pub open spec fn start_fen() -> Seq<char> {
    "rnbqkbnr/pppppppp/8/8/8/8/PPPPPPPP/RNBQKBNR w KQkq - 0 1"@
}

// ---------------------------------------------------------------------
// Squares and bit boards
// ---------------------------------------------------------------------

/// Whether bit `i` of a bit board is set.
pub open spec fn bit_set(bits: u64, i: int) -> bool {
    0 <= i < 64 && (bits as int / pow2(i)) % 2 == 1
}

/// Two to the power `i`.
pub open spec fn pow2(i: int) -> int
    decreases i,
{
    if i <= 0 {
        1
    } else {
        2 * pow2(i - 1)
    }
}

/// The number of bits set in a bit board.
pub open spec fn popcount(bits: u64) -> int
    decreases bits,
{
    if bits == 0 {
        0
    } else {
        (bits % 2) as int + popcount(bits / 2)
    }
}

/// Whether a number stands for a white piece: pawn to king are 1 to 6.
pub open spec fn is_white_piece(code: u8) -> bool {
    1 <= code <= 6
}

/// Whether a number stands for a black piece: pawn to king are 9 to 14.
pub open spec fn is_black_piece(code: u8) -> bool {
    9 <= code <= 14
}

/// The distance between two squares in king moves.
pub open spec fn king_distance(a: int, b: int) -> int {
    let files = if a % 8 >= b % 8 {
        a % 8 - b % 8
    } else {
        b % 8 - a % 8
    };
    let ranks = if a / 8 >= b / 8 {
        a / 8 - b / 8
    } else {
        b / 8 - a / 8
    };
    if files >= ranks {
        files
    } else {
        ranks
    }
}

// ---------------------------------------------------------------------
// The calls
// ---------------------------------------------------------------------

/// `Board::start_pos`: a board read from the text of the first position,
/// with nothing played on it.
#[verifier::external_body]
pub(crate) fn start_pos() -> (b: Board)
    ensures
        board_fen(b) == start_fen(),
        board_ply(b) == 0,
        board_moves_played(b) == 0,
        board_depth(b) == 0,
        board_undo(b).len() == 0,
        rules_rule_50(board_fen(b)) == 0,
        playable(board_fen(b)),
{
    Board::start_pos()
}

/// `Board::from_fen`, on the text of a board's own position in which only
/// the side to move and the en-passant field were rewritten. Such a text
/// has the kings, the castling letters and the counters that pleco itself
/// wrote, so `from_fen` does not panic on it. The board it builds has
/// nothing played on it, keeps the clock of the text, and counts at most
/// one move more than `b`, because pleco rebuilds that count from the move
/// number and the side to move.
#[verifier::external_body]
pub(crate) fn read_rewritten(b: &Board, text: &str) -> (r: Option<Board>)
    requires
        crate::pass::passed_text(board_fen(*b)) == Some(text@),
    ensures
        match r {
            Some(p) => {
                &&& rules_read(text@) == Some(board_fen(p))
                &&& board_ply(p) == 0
                &&& board_depth(p) == 0
                &&& board_undo(p).len() == 0
                &&& board_moves_played(p) <= board_moves_played(*b) + 1
                &&& rules_rule_50(board_fen(p)) == rules_rule_50(board_fen(*b))
            },
            None => rules_read(text@) is None,
        },
{
    Board::from_fen(text).ok()
}

/// `Board::fen`.
#[verifier::external_body]
pub(crate) fn fen(b: &Board) -> (r: String)
    ensures
        r@ == board_fen(*b),
{
    b.fen()
}

/// `Board::pretty_string`.
#[verifier::external_body]
pub(crate) fn picture(b: &Board) -> (r: String)
    ensures
        r@ == rules_picture(board_fen(*b)),
{
    b.pretty_string()
}

/// `Board::ply`.
#[verifier::external_body]
pub(crate) fn ply(b: &Board) -> (r: u16)
    ensures
        r == board_ply(*b),
{
    b.ply()
}

/// `Board::moves_played`.
#[verifier::external_body]
pub(crate) fn moves_played(b: &Board) -> (r: u16)
    ensures
        r == board_moves_played(*b),
{
    b.moves_played()
}

/// `Board::depth`.
#[verifier::external_body]
pub(crate) fn depth(b: &Board) -> (r: u16)
    ensures
        r == board_depth(*b),
{
    b.depth()
}

/// `Board::rule_50`.
#[verifier::external_body]
pub(crate) fn rule_50(b: &Board) -> (r: i16)
    ensures
        r == rules_rule_50(board_fen(*b)),
{
    b.rule_50()
}

/// `Board::generate_moves`, each move of the list as its raw bits
/// (`BitMove::get_raw`).
#[verifier::external_body]
pub(crate) fn legal_moves(b: &Board) -> (r: Vec<u16>)
    ensures
        r@ == rules_moves(board_fen(*b)),
{
    b.generate_moves().iter().map(|m| m.get_raw()).collect()
}

/// `Board::apply_move`. pleco panics on a move that is not legal, on one
/// that takes a king, and where a counter is full. After a legal move the
/// mover's king is not attacked, every counter is one higher, except the
/// clock, which a capture or a pawn move sets back to zero, and the
/// position left behind can be undone.
#[verifier::external_body]
pub(crate) fn apply_move(b: &mut Board, mv: u16)
    requires
        playable(board_fen(*old(b))),
        rules_moves(board_fen(*old(b))).contains(mv),
        has_room(*old(b), 1),
    ensures
        moved_on(*old(b), *final(b), rules_after(board_fen(*old(b)), mv)),
{
    b.apply_move(pleco::BitMove::new(mv))
}

/// `Board::undo_move`: the board goes back to the position and the
/// counters it had before the last move.
#[verifier::external_body]
pub(crate) fn undo_move(b: &mut Board)
    requires
        board_undo(*old(b)).len() > 0,
    ensures
        board_fen(*final(b)) == board_undo(*old(b)).last(),
        board_undo(*final(b)) == board_undo(*old(b)).drop_last(),
        board_ply(*final(b)) == board_ply(*old(b)) - 1,
        board_moves_played(*final(b)) == board_moves_played(*old(b)) - 1,
        board_depth(*final(b)) == board_depth(*old(b)) - 1,
{
    b.undo_move()
}

/// `Board::apply_uci_move`: pleco looks through the legal moves for the
/// first one whose text is `text`, plays it and returns true; where there
/// is none it returns false and leaves the board alone.
#[verifier::external_body]
pub(crate) fn apply_uci_move(b: &mut Board, text: &str) -> (played: bool)
    requires
        playable(board_fen(*old(b))),
        has_room(*old(b), 1),
    ensures
        match find_by_text(rules_moves(board_fen(*old(b))), text@) {
            Some(mv) => played && moved_on(
                *old(b),
                *final(b),
                rules_after(board_fen(*old(b)), mv),
            ),
            None => !played && same_board(*final(b), *old(b)),
        },
{
    b.apply_uci_move(text)
}

/// `BitMove::stringify` on the move with the given raw bits.
#[verifier::external_body]
pub(crate) fn move_text(mv: u16) -> (r: String)
    ensures
        r@ == rules_move_text(mv),
{
    pleco::BitMove::new(mv).stringify()
}

/// `Board::zobrist`.
#[verifier::external_body]
pub(crate) fn zobrist(b: &Board) -> (r: u64)
    ensures
        r == rules_zobrist(board_fen(*b)),
{
    b.zobrist()
}

/// `Board::checkmate`.
#[verifier::external_body]
pub(crate) fn checkmate(b: &Board) -> (r: bool)
    ensures
        r == rules_checkmate(board_fen(*b)),
{
    b.checkmate()
}

/// `Board::stalemate`.
#[verifier::external_body]
pub(crate) fn stalemate(b: &Board) -> (r: bool)
    ensures
        r == rules_stalemate(board_fen(*b)),
{
    b.stalemate()
}

/// `Board::in_check`.
#[verifier::external_body]
pub(crate) fn in_check(b: &Board) -> (r: bool)
    ensures
        r == rules_in_check(board_fen(*b)),
{
    b.in_check()
}

/// `Board::turn`, as whether it is white's.
#[verifier::external_body]
pub(crate) fn white_to_move(b: &Board) -> (r: bool)
    ensures
        r == rules_white_to_move(board_fen(*b)),
{
    match b.turn() {
        pleco::Player::White => true,
        pleco::Player::Black => false,
    }
}

/// `Board::non_pawn_material`.
#[verifier::external_body]
pub(crate) fn non_pawn_material(b: &Board, white: bool) -> (r: i32)
    ensures
        r == rules_non_pawn_material(board_fen(*b), white),
{
    b.non_pawn_material(if white { pleco::Player::White } else { pleco::Player::Black })
}

/// `Board::gives_check`, which pleco defines for legal moves.
#[verifier::external_body]
pub(crate) fn gives_check(b: &Board, mv: u16) -> (r: bool)
    requires
        rules_moves(board_fen(*b)).contains(mv),
    ensures
        r == rules_gives_check(board_fen(*b), mv),
{
    b.gives_check(pleco::BitMove::new(mv))
}

/// `Board::is_capture`, which panics on a move from a square to itself;
/// no legal move is one.
#[verifier::external_body]
pub(crate) fn is_capture(b: &Board, mv: u16) -> (r: bool)
    requires
        rules_moves(board_fen(*b)).contains(mv),
    ensures
        r == rules_is_capture(board_fen(*b), mv),
{
    b.is_capture(pleco::BitMove::new(mv))
}

/// `Board::captured_piece`, as the number of the kind.
#[verifier::external_body]
pub(crate) fn captured_piece(b: &Board, mv: u16) -> (r: u8)
    requires
        rules_moves(board_fen(*b)).contains(mv),
    ensures
        r == rules_captured(board_fen(*b), mv),
        r <= 7,
{
    b.captured_piece(pleco::BitMove::new(mv)) as u8
}

/// `Board::count_piece`.
#[verifier::external_body]
pub(crate) fn count_piece(b: &Board, white: bool, kind: PieceType) -> (r: u8)
    ensures
        r == rules_count_piece(board_fen(*b), white, kind.code()),
{
    let player = if white { pleco::Player::White } else { pleco::Player::Black };
    let piece = match kind {
        PieceType::NoPiece => pleco::PieceType::None,
        PieceType::P => pleco::PieceType::P,
        PieceType::N => pleco::PieceType::N,
        PieceType::B => pleco::PieceType::B,
        PieceType::R => pleco::PieceType::R,
        PieceType::Q => pleco::PieceType::Q,
        PieceType::K => pleco::PieceType::K,
        PieceType::All => pleco::PieceType::All,
    };
    b.count_piece(player, piece)
}

/// `Board::psq`, the middle-game half (`Score::mg`).
#[verifier::external_body]
pub(crate) fn psq_mg(b: &Board) -> (r: i32)
    ensures
        r == rules_psq_mg(board_fen(*b)),
{
    b.psq().mg()
}

/// `Board::psq`, the end-game half (`Score::eg`).
#[verifier::external_body]
pub(crate) fn psq_eg(b: &Board) -> (r: i32)
    ensures
        r == rules_psq_eg(board_fen(*b)),
{
    b.psq().eg()
}

/// `Board::occupied`, as its bits.
#[verifier::external_body]
pub(crate) fn occupied(b: &Board) -> (r: u64)
    ensures
        r == rules_occupied(board_fen(*b)),
{
    b.occupied().0
}

/// `Board::occupied_white`, as its bits.
#[verifier::external_body]
pub(crate) fn occupied_white(b: &Board) -> (r: u64)
    ensures
        r == rules_occupied_white(board_fen(*b)),
{
    b.occupied_white().0
}

/// `Board::occupied_black`, as its bits.
#[verifier::external_body]
pub(crate) fn occupied_black(b: &Board) -> (r: u64)
    ensures
        r == rules_occupied_black(board_fen(*b)),
{
    b.occupied_black().0
}

/// `Board::piece_bb` for the pawns of one side, as its bits.
#[verifier::external_body]
pub(crate) fn pawns(b: &Board, white: bool) -> (r: u64)
    ensures
        r == rules_pawns(board_fen(*b), white),
{
    let player = if white { pleco::Player::White } else { pleco::Player::Black };
    b.piece_bb(player, pleco::PieceType::P).0
}

/// `Board::king_sq`. Every board has a king of each side, because pleco
/// looks both up when it builds one and panics where it finds none; the
/// square is one of the sixty-four.
#[verifier::external_body]
pub(crate) fn king_sq(b: &Board, white: bool) -> (r: u8)
    ensures
        r == rules_king_sq(board_fen(*b), white),
        r < 64,
{
    b.king_sq(if white { pleco::Player::White } else { pleco::Player::Black }).0
}

/// `Board::pieces_pinned`, as its bits.
#[verifier::external_body]
pub(crate) fn pieces_pinned(b: &Board, white: bool) -> (r: u64)
    ensures
        r == rules_pinned(board_fen(*b), white),
{
    b.pieces_pinned(if white { pleco::Player::White } else { pleco::Player::Black }).0
}

/// `Board::attackers_to` for one of the sixty-four squares, as its bits.
#[verifier::external_body]
pub(crate) fn attackers_to(b: &Board, sq: u8, occupied: u64) -> (r: u64)
    requires
        sq < 64,
    ensures
        r == rules_attackers_to(board_fen(*b), sq, occupied),
{
    b.attackers_to(pleco::SQ(sq), pleco::BitBoard(occupied)).0
}

/// `Board::get_piece_locations`, walked from the first square to the last:
/// pleco hands out each occupied square once, with the piece on it. A
/// piece's number is between 1 and 6 for white and between 9 and 14 for
/// black.
#[verifier::external_body]
pub(crate) fn piece_locations(b: &Board) -> (r: Vec<(u8, u8)>)
    ensures
        r@ == rules_piece_locations(board_fen(*b)),
        r@.len() <= 64,
        forall|i: int|
            0 <= i < r@.len() ==> (#[trigger] r@[i]).0 < 64 && (is_white_piece(r@[i].1)
                || is_black_piece(r@[i].1)),
{
    b.get_piece_locations().into_iter().map(|(sq, piece)| (sq.0, piece as u8)).collect()
}

/// `Helper::ring_distance`: the squares whose distance from `sq` in king
/// moves is one more than `distance`.
#[verifier::external_body]
pub(crate) fn ring_distance(sq: u8, distance: u8) -> (r: u64)
    requires
        sq < 64,
        distance <= 7,
    ensures
        r == rules_ring(sq, distance),
        forall|i: int|
            0 <= i < 64 ==> (#[trigger] bit_set(r, i) <==> king_distance(sq as int, i) == distance
                + 1),
{
    pleco::helper::Helper::new().ring_distance(pleco::SQ(sq), distance).0
}

/// `BitBoard::count_bits`: the number of bits that are set.
#[verifier::external_body]
pub(crate) fn count_bits(bits: u64) -> (r: u8)
    ensures
        r == popcount(bits),
        r <= 64,
{
    pleco::BitBoard(bits).count_bits()
}

} // verus!
