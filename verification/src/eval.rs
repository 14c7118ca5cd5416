//! The static evaluator: a score for a position, from white's side.
//!
//! The score is a sum of six terms: material, the piece-square sum, king
//! safety, pins, attackers and defenders. A position in which the side to
//! move is mated or stalemated is scored without them.
use crate::rules::{
    attackers_to, board_fen, board_ply, checkmate, count_bits, count_piece, is_black_piece,
    is_white_piece, king_sq, occupied, occupied_black, occupied_white, pawns, piece_locations,
    pieces_pinned, ply, popcount, psq_eg, psq_mg, ring_distance, rules_attackers_to,
    rules_checkmate, rules_count_piece, rules_king_sq, rules_occupied, rules_occupied_black,
    rules_occupied_white, rules_pawns, rules_piece_locations, rules_pinned, rules_psq_eg,
    rules_psq_mg, rules_ring, rules_stalemate, rules_white_to_move, stalemate, white_to_move,
    PieceType,
};
use crate::score::{eval_value, evaluator_ok, in_limit, may_score, CENTIPAWN, MATE_SCORE};
use pleco::Board;
use vstd::prelude::*;

verus! {

/// The weight of king safety, in centipawns for each piece beside the king.
pub const KING_SAFETY_WEIGHT: i64 = 20;

/// The weight of a pinned piece in centipawns.
pub const PIN_WEIGHT: i64 = 40;

/// The weight of an attacker in centipawns.
pub const ATTACK_WEIGHT: i64 = 50;

/// The weight of a defender in centipawns.
pub const DEFENCE_WEIGHT: i64 = 50;

/// With fewer pieces other than pawns on the board, the end-game
/// piece-square sum is used.
pub const END_GAME_PIECES: u8 = 8;

// ---------------------------------------------------------------------
// Material
// ---------------------------------------------------------------------

/// The worth of each kind of piece in centipawns.
pub open spec fn piece_value(piece: PieceType) -> int {
    match piece {
        PieceType::P => 100,
        PieceType::N => 280,
        PieceType::B => 320,
        PieceType::R => 479,
        PieceType::Q => 929,
        PieceType::K => 60_000,
        PieceType::NoPiece => 0,
        PieceType::All => 0,
    }
}

/// The worth of a kind of piece in centipawns.
pub fn piece_values(piece: PieceType) -> (value: i64)
    ensures
        value == piece_value(piece),
{
    match piece {
        PieceType::P => 100,
        PieceType::N => 280,
        PieceType::B => 320,
        PieceType::R => 479,
        PieceType::Q => 929,
        PieceType::K => 60_000,
        PieceType::NoPiece => 0,
        PieceType::All => 0,
    }
}

/// How many pieces of each kind one side has.
#[derive(Clone, Copy, Debug, PartialEq, Eq, Structural)]
pub struct PieceCounts {
    pub pawns: u8,
    pub knights: u8,
    pub bishops: u8,
    pub rooks: u8,
    pub queens: u8,
    pub kings: u8,
}

/// The worth of one side's pieces in centipawns.
pub open spec fn side_value(counts: PieceCounts) -> int {
    counts.pawns * piece_value(PieceType::P) + counts.knights * piece_value(PieceType::N)
        + counts.bishops * piece_value(PieceType::B) + counts.rooks * piece_value(PieceType::R)
        + counts.queens * piece_value(PieceType::Q) + counts.kings * piece_value(PieceType::K)
}

/// The material balance in centipawns: white's pieces less black's.
pub open spec fn balance(white: PieceCounts, black: PieceCounts) -> int {
    side_value(white) - side_value(black)
}

/// The counts of one side's pieces in a position.
pub open spec fn counts_of(position: Seq<char>, white: bool) -> PieceCounts {
    PieceCounts {
        pawns: rules_count_piece(position, white, PieceType::P.code()),
        knights: rules_count_piece(position, white, PieceType::N.code()),
        bishops: rules_count_piece(position, white, PieceType::B.code()),
        rooks: rules_count_piece(position, white, PieceType::R.code()),
        queens: rules_count_piece(position, white, PieceType::Q.code()),
        kings: rules_count_piece(position, white, PieceType::K.code()),
    }
}

/// The material balance of a position in centipawns.
pub open spec fn material(position: Seq<char>) -> int {
    balance(counts_of(position, true), counts_of(position, false))
}

/// The worth in centipawns of a number of pieces of one kind.
pub fn count_piece_material(count: u8, piece: PieceType) -> (value: i64)
    ensures
        value == count * piece_value(piece),
{
    let each: i64 = piece_values(piece);
    let many: i64 = count as i64;
    assert(many * each == count * piece_value(piece)) by (nonlinear_arith)
        requires
            many == count,
            each == piece_value(piece),
    ;
    assert(0 <= many * each <= 255 * 60_000) by (nonlinear_arith)
        requires
            0 <= many <= 255,
            0 <= each <= 60_000,
    ;
    many * each
}

/// The material balance in centipawns for the given counts.
pub fn material_balance(white: &PieceCounts, black: &PieceCounts) -> (value: i64)
    ensures
        value == balance(*white, *black),
        -16_000_000 <= value <= 16_000_000,
{
    let ours: i64 = count_piece_material(white.pawns, PieceType::P) + count_piece_material(
        white.knights,
        PieceType::N,
    ) + count_piece_material(white.bishops, PieceType::B) + count_piece_material(
        white.rooks,
        PieceType::R,
    ) + count_piece_material(white.queens, PieceType::Q) + count_piece_material(
        white.kings,
        PieceType::K,
    );
    let theirs: i64 = count_piece_material(black.pawns, PieceType::P) + count_piece_material(
        black.knights,
        PieceType::N,
    ) + count_piece_material(black.bishops, PieceType::B) + count_piece_material(
        black.rooks,
        PieceType::R,
    ) + count_piece_material(black.queens, PieceType::Q) + count_piece_material(
        black.kings,
        PieceType::K,
    );
    ours - theirs
}

/// Swapping the colours of all pieces negates the material balance.
pub proof fn material_is_antisymmetric(white: PieceCounts, black: PieceCounts)
    ensures
        balance(black, white) == -balance(white, black),
{
}

/// Reads the counts of one side's pieces from a board.
pub fn read_counts(board: &Board, white: bool) -> (counts: PieceCounts)
    ensures
        counts == counts_of(board_fen(*board), white),
{
    PieceCounts {
        pawns: count_piece(board, white, PieceType::P),
        knights: count_piece(board, white, PieceType::N),
        bishops: count_piece(board, white, PieceType::B),
        rooks: count_piece(board, white, PieceType::R),
        queens: count_piece(board, white, PieceType::Q),
        kings: count_piece(board, white, PieceType::K),
    }
}

/// The material balance of a board in centipawns: white's pieces less
/// black's.
pub fn count_material(board: &Board) -> (value: i64)
    ensures
        value == material(board_fen(*board)),
        -16_000_000 <= value <= 16_000_000,
{
    let white = read_counts(board, true);
    let black = read_counts(board, false);
    material_balance(&white, &black)
}

// ---------------------------------------------------------------------
// King safety and pins
// ---------------------------------------------------------------------

/// The number of a side's own pieces on the squares next to its king.
pub open spec fn guards(position: Seq<char>, white: bool) -> int {
    popcount(
        rules_ring(rules_king_sq(position, white), 0) & if white {
            rules_occupied_white(position)
        } else {
            rules_occupied_black(position)
        },
    )
}

/// King safety: the guards of the white king less those of the black king.
pub open spec fn king_safety_of(position: Seq<char>) -> int {
    guards(position, true) - guards(position, false)
}

/// King safety: the number of white pieces next to the white king, less
/// the number of black pieces next to the black king.
pub fn king_safety(board: &Board) -> (value: i64)
    ensures
        value == king_safety_of(board_fen(*board)),
        -64 <= value <= 64,
{
    let white_ring: u64 = ring_distance(king_sq(board, true), 0);
    let white_safety: i64 = count_bits(white_ring & occupied_white(board)) as i64;
    let black_ring: u64 = ring_distance(king_sq(board, false), 0);
    let black_safety: i64 = count_bits(black_ring & occupied_black(board)) as i64;
    white_safety - black_safety
}

/// The pin term: black's pinned pieces less white's.
pub open spec fn pins_of(position: Seq<char>) -> int {
    popcount(rules_pinned(position, false)) - popcount(rules_pinned(position, true))
}

/// The pin term: the number of black pieces pinned to their king, less the
/// number of white ones.
pub fn pinned_pieces(board: &Board) -> (value: i64)
    ensures
        value == pins_of(board_fen(*board)),
        -64 <= value <= 64,
{
    let white_pinned: i64 = count_bits(pieces_pinned(board, true)) as i64;
    let black_pinned: i64 = count_bits(pieces_pinned(board, false)) as i64;
    black_pinned - white_pinned
}

// ---------------------------------------------------------------------
// Attackers and defenders
// ---------------------------------------------------------------------

/// How often pieces are attacked and defended, summed over the pieces.
#[derive(Clone, Copy, Debug, PartialEq, Eq, Structural)]
pub struct Tally {
    /// White pieces that attack a black piece.
    pub white_attackers: i64,
    /// White pieces that defend a white piece.
    pub white_defenders: i64,
    /// Black pieces that attack a white piece.
    pub black_attackers: i64,
    /// Black pieces that defend a black piece.
    pub black_defenders: i64,
}

/// A tally with one more piece counted: `by_white` white pieces and
/// `by_black` black ones bear on its square. Those of its own colour defend
/// it, the others attack it. A number that stands for no piece changes
/// nothing.
pub open spec fn tally_with(tally: Tally, piece: u8, by_white: int, by_black: int) -> Tally {
    if is_white_piece(piece) {
        Tally {
            white_defenders: (tally.white_defenders + by_white) as i64,
            black_attackers: (tally.black_attackers + by_black) as i64,
            ..tally
        }
    } else if is_black_piece(piece) {
        Tally {
            white_attackers: (tally.white_attackers + by_white) as i64,
            black_defenders: (tally.black_defenders + by_black) as i64,
            ..tally
        }
    } else {
        tally
    }
}

/// The tally of the first `n` pieces of a position.
pub open spec fn tally_of(position: Seq<char>, n: int) -> Tally
    decreases n,
{
    if n <= 0 {
        Tally { white_attackers: 0, white_defenders: 0, black_attackers: 0, black_defenders: 0 }
    } else {
        let (sq, piece) = rules_piece_locations(position)[n - 1];
        let around = rules_attackers_to(position, sq, rules_occupied(position));
        tally_with(
            tally_of(position, n - 1),
            piece,
            popcount(around & rules_occupied_white(position)),
            popcount(around & rules_occupied_black(position)),
        )
    }
}

/// The attacker term: white's attackers less black's.
pub open spec fn attacking_of(position: Seq<char>) -> int {
    let tally = tally_of(position, rules_piece_locations(position).len() as int);
    tally.white_attackers - tally.black_attackers
}

/// The defender term: white's defenders less black's.
pub open spec fn defending_of(position: Seq<char>) -> int {
    let tally = tally_of(position, rules_piece_locations(position).len() as int);
    tally.white_defenders - tally.black_defenders
}

/// Every sum of a tally is between zero and the bound.
pub open spec fn tally_within(tally: Tally, bound: int) -> bool {
    &&& 0 <= tally.white_attackers <= bound
    &&& 0 <= tally.white_defenders <= bound
    &&& 0 <= tally.black_attackers <= bound
    &&& 0 <= tally.black_defenders <= bound
}

/// Counts one more piece in a tally.
pub fn count_piece_in(tally: Tally, piece: u8, by_white: u8, by_black: u8) -> (next: Tally)
    requires
        tally_within(tally, i64::MAX - 255),
    ensures
        next == tally_with(tally, piece, by_white as int, by_black as int),
        tally.white_attackers <= next.white_attackers <= tally.white_attackers + by_white,
        tally.white_defenders <= next.white_defenders <= tally.white_defenders + by_white,
        tally.black_attackers <= next.black_attackers <= tally.black_attackers + by_black,
        tally.black_defenders <= next.black_defenders <= tally.black_defenders + by_black,
{
    if 1 <= piece && piece <= 6 {
        Tally {
            white_attackers: tally.white_attackers,
            white_defenders: tally.white_defenders + by_white as i64,
            black_attackers: tally.black_attackers + by_black as i64,
            black_defenders: tally.black_defenders,
        }
    } else if 9 <= piece && piece <= 14 {
        Tally {
            white_attackers: tally.white_attackers + by_white as i64,
            white_defenders: tally.white_defenders,
            black_attackers: tally.black_attackers,
            black_defenders: tally.black_defenders + by_black as i64,
        }
    } else {
        tally
    }
}

/// The attacker and defender terms. Every occupied square is looked at: the
/// pieces of the other colour that bear on it attack the piece there, those
/// of its own colour defend it. The first result is white's attackers less
/// black's, the second white's defenders less black's.
pub fn attacking_defending(board: &Board) -> (terms: (i64, i64))
    ensures
        terms.0 == attacking_of(board_fen(*board)),
        terms.1 == defending_of(board_fen(*board)),
        -4096 <= terms.0 <= 4096,
        -4096 <= terms.1 <= 4096,
{
    let ghost position = board_fen(*board);
    let all: u64 = occupied(board);
    let white: u64 = occupied_white(board);
    let black: u64 = occupied_black(board);
    let pieces = piece_locations(board);
    let mut tally = Tally {
        white_attackers: 0,
        white_defenders: 0,
        black_attackers: 0,
        black_defenders: 0,
    };
    let mut i: usize = 0;
    while i < pieces.len()
        invariant
            position == board_fen(*board),
            all == rules_occupied(position),
            white == rules_occupied_white(position),
            black == rules_occupied_black(position),
            pieces@ == rules_piece_locations(position),
            pieces@.len() <= 64,
            forall|k: int| 0 <= k < pieces@.len() ==> (#[trigger] pieces@[k]).0 < 64,
            0 <= i <= pieces.len(),
            tally == tally_of(position, i as int),
            tally_within(tally, 64 * i),
        decreases pieces.len() - i,
    {
        let (sq, piece) = pieces[i];
        let around: u64 = attackers_to(board, sq, all);
        let by_white: u8 = count_bits(around & white);
        let by_black: u8 = count_bits(around & black);
        tally = count_piece_in(tally, piece, by_white, by_black);
        i += 1;
    }
    (tally.white_attackers - tally.black_attackers, tally.white_defenders - tally.black_defenders)
}

// ---------------------------------------------------------------------
// The evaluation
// ---------------------------------------------------------------------

/// The number of pieces other than pawns in a position, kings included.
pub open spec fn big_pieces_of(position: Seq<char>) -> int {
    popcount(
        rules_occupied(position) & !rules_pawns(position, true) & !rules_pawns(position, false),
    )
}

/// The number of pieces other than pawns on the board, kings included.
pub fn num_big_pieces(board: &Board) -> (count: u8)
    ensures
        count == big_pieces_of(board_fen(*board)),
{
    let pieces: u64 = occupied(board);
    let white_pawn: u64 = pawns(board, true);
    let black_pawn: u64 = pawns(board, false);
    count_bits(pieces & !white_pawn & !black_pawn)
}

/// The score of a position in which the side to move is mated, at the
/// given ply: 9999 centipawns less one for each ply, against the side to
/// move. A later mate costs the mated side less.
pub open spec fn mate_value(white_to_move: bool, ply: int) -> int {
    if white_to_move {
        -(MATE_SCORE - ply * CENTIPAWN)
    } else {
        MATE_SCORE - ply * CENTIPAWN
    }
}

/// The score of a position in which the side to move is mated.
pub fn mate_score(white_to_move: bool, ply: u16) -> (score: i64)
    ensures
        score == mate_value(white_to_move, ply as int),
        in_limit(score as int),
{
    let lost: i64 = MATE_SCORE - (ply as i64) * CENTIPAWN;
    if white_to_move {
        -lost
    } else {
        lost
    }
}

/// The terms of the evaluation of a position that is neither mate nor
/// stalemate. The first is in centipawns, the second in pleco's
/// piece-square units, the others are counts.
#[derive(Clone, Copy, Debug, PartialEq, Eq, Structural)]
pub struct Terms {
    pub material: i64,
    pub psq: i32,
    pub king_safety: i64,
    pub pinned: i64,
    pub attacking: i64,
    pub defending: i64,
}

/// The weighted sum of the terms: the material, 20 centipawns for king
/// safety, 40 for pins and 50 each for attackers and defenders, and a
/// hundredth of the piece-square sum in pawns.
pub open spec fn blend_value(terms: Terms) -> int {
    (terms.material + KING_SAFETY_WEIGHT * terms.king_safety + PIN_WEIGHT * terms.pinned
        + ATTACK_WEIGHT * terms.attacking + DEFENCE_WEIGHT * terms.defending) * CENTIPAWN
        + terms.psq
}

/// Whether the terms are as small as those of a board are.
pub open spec fn terms_of_a_board(terms: Terms) -> bool {
    &&& -16_000_000 <= terms.material <= 16_000_000
    &&& -64 <= terms.king_safety <= 64
    &&& -64 <= terms.pinned <= 64
    &&& -4096 <= terms.attacking <= 4096
    &&& -4096 <= terms.defending <= 4096
}

/// The weighted sum of the terms of the evaluation.
pub fn blend(terms: &Terms) -> (score: i64)
    requires
        terms_of_a_board(*terms),
    ensures
        score == blend_value(*terms),
        in_limit(score as int),
{
    let centipawns: i64 = terms.material + KING_SAFETY_WEIGHT * terms.king_safety + PIN_WEIGHT
        * terms.pinned + ATTACK_WEIGHT * terms.attacking + DEFENCE_WEIGHT * terms.defending;
    centipawns * CENTIPAWN + terms.psq as i64
}

/// The piece-square sum that counts: the end-game one where fewer than
/// eight pieces other than pawns are left, else the middle-game one.
pub open spec fn psq_of(position: Seq<char>) -> i32 {
    if big_pieces_of(position) < END_GAME_PIECES {
        rules_psq_eg(position)
    } else {
        rules_psq_mg(position)
    }
}

/// The terms of the evaluation of a position.
pub open spec fn terms_of(position: Seq<char>) -> Terms {
    Terms {
        material: material(position) as i64,
        psq: psq_of(position),
        king_safety: king_safety_of(position) as i64,
        pinned: pins_of(position) as i64,
        attacking: attacking_of(position) as i64,
        defending: defending_of(position) as i64,
    }
}

/// The score of a position at a ply, from white's side.
pub open spec fn spec_eval(position: Seq<char>, ply: int) -> int {
    if rules_checkmate(position) {
        mate_value(rules_white_to_move(position), ply)
    } else if rules_stalemate(position) {
        0
    } else {
        blend_value(terms_of(position))
    }
}

/// Scores a board from white's side: above zero where white stands better.
pub fn eval(board: &Board) -> (score: i64)
    ensures
        score == spec_eval(board_fen(*board), board_ply(*board) as int),
        in_limit(score as int),
{
    if checkmate(board) {
        return mate_score(white_to_move(board), ply(board));
    }
    if stalemate(board) {
        return 0;
    }
    let material: i64 = count_material(board);
    let king_safety: i64 = king_safety(board);
    let pinned: i64 = pinned_pieces(board);
    let (attacking, defending) = attacking_defending(board);
    let psq: i32 = if num_big_pieces(board) < END_GAME_PIECES {
        psq_eg(board)
    } else {
        psq_mg(board)
    };
    let terms = Terms { material, psq, king_safety, pinned, attacking, defending };
    blend(&terms)
}

/// `eval` is an evaluator that the search accepts: it takes every board,
/// and its score depends on the position and the ply alone and lies within
/// the limit.
pub proof fn eval_is_an_evaluator()
    ensures
        evaluator_ok(eval),
{
    assert forall|b: Board, score: i64| #[trigger] call_ensures(eval, (&b,), score) implies score
        == eval_value(eval, board_fen(b), board_ply(b) as int) && in_limit(score as int) by {
        assert(may_score(eval, board_fen(b), board_ply(b) as int, score));
    }
}

} // verus!
