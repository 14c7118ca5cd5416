use pleco::{BitMove, Board};
use rc2d2::eval::eval;
use rc2d2::ordering::{move_value, order_by_value, order_moves};
use rc2d2::pass::{pass_text, passed};
use rc2d2::board::{has_room_for, is_playable};
use rc2d2::utils::{
    find_best_move, play_match, play_x_moves, replay, split_fields, MoveListError,
};

fn raw_moves(board: &Board) -> Vec<u16> {
    board.generate_moves().iter().map(|m| m.get_raw()).collect()
}

#[test]
fn ordering_puts_checks_then_captures_first() {
    assert_eq!(order_by_value(&vec![1, 2, 3, 4, 5], &vec![0, 10, 50, 10, 50]), vec![3, 5, 2, 4, 1]);
    assert_eq!(order_by_value(&vec![], &vec![]), Vec::<u16>::new());
    assert_eq!(order_by_value(&vec![7, 8, 9], &vec![0, 0, 0]), vec![7, 8, 9]);
    assert_eq!(order_by_value(&vec![7, 8, 9], &vec![3, 50, 10]), vec![8, 9, 7]);
    assert_eq!(order_by_value(&vec![7, 7, 8], &vec![10, 50, 10]), vec![7, 7, 8]);
}

#[test]
fn move_values() {
    let board =
        Board::from_fen("rnb1kbnr/pppp1ppp/8/4p1q1/4P1Q1/8/PPPP1PPP/RNB1KBNR w KQkq - 2 3").unwrap();
    for mv in board.generate_moves().iter() {
        let expected = if board.gives_check(*mv) {
            50
        } else if board.is_capture(*mv) {
            10
        } else {
            0
        };
        assert_eq!(move_value(mv.get_raw(), &board), expected);
    }
    let text = |m: &u16| BitMove::new(*m).stringify();
    let moves = raw_moves(&board);
    let takes_queen = *moves.iter().find(|m| text(*m) == "g4g5").unwrap();
    let takes_pawn_with_check = *moves.iter().find(|m| text(*m) == "g4d7").unwrap();
    let quiet = *moves.iter().find(|m| text(*m) == "a2a3").unwrap();
    assert_eq!(move_value(takes_queen, &board), 10);
    assert_eq!(move_value(takes_pawn_with_check, &board), 50);
    assert_eq!(move_value(quiet, &board), 0);
}

#[test]
fn ordering_keeps_every_move() {
    let board =
        Board::from_fen("rnb1kbnr/pppp1ppp/8/4p1q1/4P1Q1/8/PPPP1PPP/RNB1KBNR w KQkq - 2 3").unwrap();
    let moves = raw_moves(&board);
    let sorted = order_moves(&board, &moves);
    assert_eq!(sorted.len(), moves.len());
    let mut left = moves.clone();
    left.sort();
    let mut right = sorted.clone();
    right.sort();
    assert_eq!(left, right);
    let values: Vec<u32> = sorted.iter().map(|m| move_value(*m, &board)).collect();
    assert!(values.windows(2).all(|pair| pair[0] >= pair[1]));
    assert_eq!(values[0], 50);
    for value in [50, 10, 0] {
        let before: Vec<u16> =
            moves.iter().copied().filter(|m| move_value(*m, &board) == value).collect();
        let after: Vec<u16> =
            sorted.iter().copied().filter(|m| move_value(*m, &board) == value).collect();
        assert_eq!(before, after);
    }
}

#[test]
fn pass_rewrites_the_text() {
    let after_e4 = "rnbqkbnr/pppppppp/8/8/4P3/8/PPPP1PPP/RNBQKBNR b KQkq e3 0 1";
    assert_eq!(
        pass_text(after_e4),
        Some(String::from("rnbqkbnr/pppppppp/8/8/4P3/8/PPPP1PPP/RNBQKBNR w KQkq - 0 1"))
    );
    assert_eq!(
        pass_text("k7/8/8/8/8/8/8/K7 w - - 12 40"),
        Some(String::from("k7/8/8/8/8/8/8/K7 b - - 12 40"))
    );
    assert_eq!(pass_text("k7/8/8/8/8/8/8/K7 w - -"), None);
    assert_eq!(pass_text("k7/8/8/8/8/8/8/K7 w"), None);
    assert_eq!(pass_text("k7/8/8/8/8/8/8/K7 x - - 0 1"), None);
    assert_eq!(pass_text("k7/8/8/8/8/8/8/K7 white - - 0 1"), None);
    assert_eq!(pass_text("k7/8/8/8/8/8/8/K7  w - - 0 1"), None);
    assert_eq!(pass_text(""), None);
    assert_eq!(pass_text("a w b c d"), Some(String::from("a b b - d")));
    assert_eq!(pass_text("a b  c d"), Some(String::from("a w  - d")));
}

#[test]
fn pass_hands_the_move_over() {
    let board = Board::start_pos();
    let after = passed(&board).unwrap();
    assert_eq!(after.fen(), "rnbqkbnr/pppppppp/8/8/8/8/PPPPPPPP/RNBQKBNR b KQkq - 0 1");
    assert_eq!(after.ply(), 0);
    let mut board = Board::start_pos();
    assert!(board.apply_uci_move("e2e4"));
    let after = passed(&board).unwrap();
    assert_eq!(after.fen(), "rnbqkbnr/pppppppp/8/8/4P3/8/PPPP1PPP/RNBQKBNR w KQkq - 0 1");
    assert_eq!(after.count_all_pieces(), 32);
    assert_eq!(after.generate_moves().len(), 30);
}

#[test]
fn room_for_more_moves() {
    let board = Board::start_pos();
    assert!(has_room_for(&board, 0));
    assert!(has_room_for(&board, 32_767));
    assert!(!has_room_for(&board, 32_768));
    let late = Board::from_fen("k7/8/8/8/8/8/8/K6R w - - 0 32000").unwrap();
    assert_eq!(late.moves_played(), 63_998);
    assert!(has_room_for(&late, 1_537));
    assert!(!has_room_for(&late, 1_538));
    let slow = Board::from_fen("k7/8/8/8/8/8/8/K6R w - - 32000 400").unwrap();
    assert!(has_room_for(&slow, 767));
    assert!(!has_room_for(&slow, 768));
}

#[test]
fn splitting_at_blanks() {
    assert_eq!(split_fields("e2e4 e7e5"), vec!["e2e4", "e7e5"]);
    assert_eq!(split_fields(""), vec![""]);
    assert_eq!(split_fields("e2e4"), vec!["e2e4"]);
    assert_eq!(split_fields("e2e4  e7e5"), vec!["e2e4", "", "e7e5"]);
    assert_eq!(split_fields(" a "), vec!["", "a", ""]);
    let text = "g1f3 d7d5 d2d4";
    let expected: Vec<String> = text.split(" ").map(String::from).collect();
    assert_eq!(split_fields(text), expected);
}

#[test]
fn replaying_moves() {
    let mut board = Board::start_pos();
    let fields = split_fields("e2e4 e7e5 g1f3");
    assert_eq!(replay(&mut board, &fields), Ok(()));
    assert_eq!(board.fen(), "rnbqkbnr/pppp1ppp/8/4p3/4P3/5N2/PPPP1PPP/RNBQKB1R b KQkq - 1 2");
    let mut board = Board::start_pos();
    assert_eq!(
        replay(&mut board, &split_fields("e2e4 e7e5 e1e3 g1f3")),
        Err(MoveListError::IllegalMove { index: 2 })
    );
    assert_eq!(board.fen(), "rnbqkbnr/pppp1ppp/8/4p3/4P3/8/PPPP1PPP/RNBQKBNR w KQkq - 0 2");
    let mut board = Board::start_pos();
    assert_eq!(replay(&mut board, &split_fields("")), Ok(()));
    assert_eq!(board.fen(), Board::start_pos().fen());
    let mut late = Board::from_fen("k7/8/8/8/8/8/8/K6R w - - 0 32768").unwrap();
    assert_eq!(late.moves_played(), 65_534);
    assert_eq!(replay(&mut late, &split_fields("h1h2 a8b8")), Err(MoveListError::TooLong));
    assert_eq!(late.moves_played(), 65_535);
    assert_eq!(late.turn(), pleco::Player::Black);
}

#[test]
fn best_move_after_a_list() {
    let first = find_best_move("", 1).unwrap();
    let board = Board::start_pos();
    assert!(board.generate_moves().iter().any(|m| m.stringify() == first));
    let reply = find_best_move("e2e4 e7e5", 2).unwrap();
    let mut board = Board::start_pos();
    assert!(board.apply_uci_move("e2e4"));
    assert!(board.apply_uci_move("e7e5"));
    assert!(board.generate_moves().iter().any(|m| m.stringify() == reply));
    assert_eq!(find_best_move("e2e4  e7e5", 2).unwrap(), reply);
    assert_eq!(find_best_move("f2f3 e7e5 g2g4", 1).unwrap(), "d8h4");
    assert_eq!(find_best_move("f2f3 e7e5 g2g4 d8h4", 2).unwrap(), BitMove::null().stringify());
}

#[test]
fn best_move_rejects_an_illegal_list() {
    assert_eq!(find_best_move("e2e5", 1), Err(MoveListError::IllegalMove { index: 0 }));
    assert_eq!(find_best_move("e2e4 zzz", 1), Err(MoveListError::IllegalMove { index: 1 }));
    assert_eq!(find_best_move("e2e4 e7e5 e4e5", 1), Err(MoveListError::IllegalMove { index: 2 }));
    assert_eq!(find_best_move(" e2e4 e2e4", 1), Err(MoveListError::IllegalMove { index: 2 }));
}

#[test]
fn playing_no_moves_changes_nothing() {
    let fen = "k7/4R3/8/8/8/4R3/8/3K4 w - - 0 1";
    let board = play_x_moves(Board::from_fen(fen).unwrap(), 0, 4, 1, eval);
    assert_eq!(board.fen(), fen);
    let mated = "rnb1kbnr/pppp1ppp/8/4p3/6Pq/5P2/PPPPP2P/RNBQKBNR w KQkq - 1 3";
    let board = play_x_moves(Board::from_fen(mated).unwrap(), 3, 2, 1, eval);
    assert_eq!(board.fen(), mated);
}

#[test]
fn playing_moves_takes_turns() {
    let board = play_x_moves(Board::start_pos(), 2, 1, 1, eval);
    assert_eq!(board.ply(), 2);
    assert_eq!(board.turn(), pleco::Player::White);
    let board = play_x_moves(Board::start_pos(), 1, 1, 1, eval);
    assert_eq!(board.ply(), 1);
    assert_eq!(board.turn(), pleco::Player::Black);
}

#[test]
fn a_match_is_recorded_turn_by_turn() {
    let record = play_match(1, 3);
    assert_eq!(record.len(), 3);
    let mut board = Board::start_pos();
    for (i, turn) in record.iter().enumerate() {
        assert_eq!(turn.number as usize, i + 1);
        assert_eq!(turn.board, board.pretty_string());
        let mv = BitMove::new(turn.mv);
        assert!(board.generate_moves().iter().any(|m| *m == mv));
        board.apply_move(mv);
    }
    assert_eq!(play_match(1, 0).len(), 0);
    let again = play_match(1, 3);
    for (first, second) in record.iter().zip(again.iter()) {
        assert_eq!((first.number, first.mv, first.score), (second.number, second.mv, second.score));
    }
}

#[test]
fn a_position_is_playable_where_no_king_can_be_taken() {
    assert!(is_playable(&Board::start_pos()));
    let white_could_take_the_king = Board::from_fen("7k/8/5QK1/8/8/8/8/8 w - - 0 1").unwrap();
    assert!(!is_playable(&white_could_take_the_king));
    let black_is_in_check = Board::from_fen("7k/8/5QK1/8/8/8/8/8 b - - 0 1").unwrap();
    assert!(is_playable(&black_is_in_check));
    let unchanged = play_x_moves(white_could_take_the_king, 2, 1, 1, eval);
    assert_eq!(unchanged.fen(), "7k/8/5QK1/8/8/8/8/8 w - - 0 1");
}

#[test]
fn no_pass_out_of_check() {
    let in_check = Board::from_fen("7k/8/5QK1/8/8/8/8/8 b - - 0 1").unwrap();
    assert!(in_check.in_check());
    assert!(passed(&in_check).is_none());
    let quiet = Board::from_fen("7k/8/6K1/8/8/8/8/5Q2 w - - 3 9").unwrap();
    assert_eq!(passed(&quiet).unwrap().fen(), "7k/8/6K1/8/8/8/8/5Q2 b - - 3 9");
}
