use pleco::Board;
use rc2d2::eval::{
    attacking_defending, blend, count_material, count_piece_in, count_piece_material, eval,
    king_safety, mate_score, material_balance, num_big_pieces, piece_values, pinned_pieces,
    read_counts, PieceCounts, Tally, Terms,
};
use rc2d2::rules::PieceType;
use rc2d2::score::{centipawns, CENTIPAWN, MATE_SCORE, PSQ_UNITS_PER_PAWN, SCORE_LIMIT};

#[test]
fn start_pos() {
    assert_eq!(count_material(&Board::start_pos()), 0);
}

#[test]
fn opening() {
    let board =
        Board::from_fen("rnbqkbnr/ppp2ppp/4p3/3p4/3P4/4P3/PPP2PPP/RNBQKBNR w KQkq - 0 3").unwrap();
    assert_eq!(count_material(&board), 0);
}

#[test]
fn white_queen() {
    let board =
        Board::from_fen("rnb1kbnr/ppp2ppp/4p3/3p2Q1/3P4/4P3/PPP2PPP/RNB1KBNR b KQkq - 0 4")
            .unwrap();
    assert_eq!(count_material(&board), 929);
}

#[test]
fn black_knight() {
    let board =
        Board::from_fen("rnb1kbnr/ppp2ppp/4p3/3p4/3P3Q/4Pq2/PPP2PPP/RNB1KB1R w KQkq - 0 6")
            .unwrap();
    assert_eq!(count_material(&board), -280);
}

#[test]
fn multi() {
    let board1 =
        Board::from_fen("rnb1kbnr/ppp2ppQ/4p3/3p4/3P4/4Pq2/PPP2PPP/RNB1KB1R b KQkq - 0 6")
            .unwrap();
    assert_eq!(count_material(&board1), -180);

    let board2 =
        Board::from_fen("rnb1kbn1/ppp2ppr/4p3/3p4/3P4/4Pq2/PPP2PPP/RNB1KB1R w KQq - 0 7").unwrap();
    assert_eq!(count_material(&board2), -1109);
}

#[test]
fn safety() {
    let b1 = Board::from_fen("k7/8/8/8/8/8/1PPP4/2K5 w - - 0 1").unwrap();
    let k1 = king_safety(&b1);
    assert_eq!(k1, 3);

    let b2 = Board::from_fen("k7/pp6/8/8/8/8/1PPP4/2K5 w - - 0 1").unwrap();
    let k2 = king_safety(&b2);
    assert_eq!(k2, 1);

    let b3 = Board::from_fen("3k4/ppppp3/8/8/8/8/2P5/2K5 w - - 0 1").unwrap();
    let k3 = king_safety(&b3);
    assert_eq!(k3, -2);

    let b4 = Board::from_fen("2rk4/ppppp2n/8/P1r2Q2/1P5r/8/2PP4/2K5 w - - 0 1").unwrap();
    let k4 = king_safety(&b4);
    assert_eq!(k4, -2);
}

#[test]
fn test_pinned_pieces() {
    let b1 = Board::from_fen("2k5/3p4/8/5B2/8/8/8/2K5 w - - 0 1").unwrap();
    let pins1 = pinned_pieces(&b1);
    assert_eq!(pins1, 1);
    let b2 = Board::from_fen("2k5/3p4/2r5/5B2/8/8/2P5/2K5 w - - 0 1").unwrap();
    let pins2 = pinned_pieces(&b2);
    assert_eq!(pins2, 0);

    let b3 = Board::from_fen("3k4/8/8/3r4/8/8/3P4/3K4 w - - 0 1").unwrap();
    let pins3 = pinned_pieces(&b3);
    assert_eq!(pins3, -1);

    let b4 = Board::from_fen("3k4/8/8/3r4/8/1b6/2PP4/3KN2q w - - 0 1").unwrap();
    let pins4 = pinned_pieces(&b4);
    assert_eq!(pins4, -3);
}

#[test]
fn test_attacking_defending() {
    let b1 = Board::from_fen("1k6/8/8/8/8/8/NNN5/1K6 w - - 0 1").unwrap();
    let (a1, d1) = attacking_defending(&b1);
    assert_eq!(a1, 0);
    assert_eq!(d1, 3);

    let b2 = Board::from_fen("1k6/nnn5/8/8/5B2/8/NNN5/1K6 w - - 0 1").unwrap();
    let (a2, d2) = attacking_defending(&b2);
    assert_eq!(a2, 1);
    assert_eq!(d2, 0);

    let b3 = Board::from_fen("2k5/1ppp4/4B3/8/8/8/2PPP3/3K4 w - - 0 1").unwrap();
    let (a3, d3) = attacking_defending(&b3);
    assert_eq!(a3, 0);
    assert_eq!(d3, 0);
}

#[test]
fn piece_values_are_the_table() {
    assert_eq!(piece_values(PieceType::P), 100);
    assert_eq!(piece_values(PieceType::N), 280);
    assert_eq!(piece_values(PieceType::B), 320);
    assert_eq!(piece_values(PieceType::R), 479);
    assert_eq!(piece_values(PieceType::Q), 929);
    assert_eq!(piece_values(PieceType::K), 60_000);
    assert_eq!(piece_values(PieceType::NoPiece), 0);
    assert_eq!(piece_values(PieceType::All), 0);
}

#[test]
fn piece_type_from_code() {
    assert_eq!(PieceType::from_code(0), PieceType::NoPiece);
    assert_eq!(PieceType::from_code(1), PieceType::P);
    assert_eq!(PieceType::from_code(2), PieceType::N);
    assert_eq!(PieceType::from_code(3), PieceType::B);
    assert_eq!(PieceType::from_code(4), PieceType::R);
    assert_eq!(PieceType::from_code(5), PieceType::Q);
    assert_eq!(PieceType::from_code(6), PieceType::K);
    assert_eq!(PieceType::from_code(7), PieceType::All);
    assert_eq!(PieceType::from_code(8), PieceType::NoPiece);
    assert_eq!(PieceType::from_code(255), PieceType::NoPiece);
}

#[test]
fn score_units() {
    assert_eq!(PSQ_UNITS_PER_PAWN, pleco::core::score::PAWN_EG as i64);
    assert_eq!(CENTIPAWN, 24_000);
    assert_eq!(MATE_SCORE, 239_976_000);
    assert_eq!(centipawns(9999), MATE_SCORE);
    assert_eq!(centipawns(-1), -24_000);
    assert_eq!(centipawns(0), 0);
    assert!(centipawns(i32::MAX) <= SCORE_LIMIT);
    assert!(centipawns(i32::MIN) >= -SCORE_LIMIT);
}

#[test]
fn count_piece_material_multiplies() {
    assert_eq!(count_piece_material(0, PieceType::Q), 0);
    assert_eq!(count_piece_material(8, PieceType::P), 800);
    assert_eq!(count_piece_material(2, PieceType::R), 958);
    assert_eq!(count_piece_material(255, PieceType::K), 15_300_000);
    assert_eq!(count_piece_material(3, PieceType::NoPiece), 0);
}

fn counts(pawns: u8, knights: u8, bishops: u8, rooks: u8, queens: u8, kings: u8) -> PieceCounts {
    PieceCounts { pawns, knights, bishops, rooks, queens, kings }
}

#[test]
fn material_balance_on_counts() {
    let full = counts(8, 2, 2, 2, 1, 1);
    let no_queen = counts(8, 2, 2, 2, 0, 1);
    assert_eq!(material_balance(&full, &full), 0);
    assert_eq!(material_balance(&full, &no_queen), 929);
    assert_eq!(material_balance(&no_queen, &full), -929);
    let bare = counts(0, 0, 0, 0, 0, 1);
    assert_eq!(material_balance(&full, &bare), 800 + 560 + 640 + 958 + 929);
}

#[test]
fn material_is_antisymmetric_on_counts() {
    let samples = [
        counts(8, 2, 2, 2, 1, 1),
        counts(0, 0, 0, 0, 0, 1),
        counts(3, 1, 0, 2, 9, 1),
        counts(255, 255, 255, 255, 255, 255),
        counts(0, 0, 0, 0, 0, 0),
    ];
    for white in samples.iter() {
        for black in samples.iter() {
            assert_eq!(material_balance(black, white), -material_balance(white, black));
        }
    }
}

#[test]
fn material_is_antisymmetric_on_boards() {
    let white_up =
        Board::from_fen("rnb1kbnr/ppp2ppp/4p3/3p2Q1/3P4/4P3/PPP2PPP/RNB1KBNR b KQkq - 0 4")
            .unwrap();
    let black_up =
        Board::from_fen("RNB1KBNR/PPP2PPP/4P3/3P2q1/3p4/4p3/ppp2ppp/rnb1kbnr w - - 0 4").unwrap();
    assert_eq!(count_material(&white_up), 929);
    assert_eq!(count_material(&black_up), -929);
}

#[test]
fn read_counts_reads_both_sides() {
    let board =
        Board::from_fen("rnb1kbn1/ppp2ppr/4p3/3p4/3P4/4Pq2/PPP2PPP/RNB1KB1R w KQq - 0 7").unwrap();
    assert_eq!(read_counts(&board, true), counts(8, 1, 2, 2, 0, 1));
    assert_eq!(read_counts(&board, false), counts(7, 2, 2, 2, 1, 1));
}

#[test]
fn big_pieces_counts_all_but_pawns() {
    assert_eq!(num_big_pieces(&Board::start_pos()), 16);
    let board = Board::from_fen("k7/pp6/8/8/8/8/1PPP4/2K5 w - - 0 1").unwrap();
    assert_eq!(num_big_pieces(&board), 2);
    let board = Board::from_fen("k7/4R3/2p5/p7/1p6/2P1R2P/1P4P1/3K4 w - - 0 1").unwrap();
    assert_eq!(num_big_pieces(&board), 4);
}

#[test]
fn tally_counts_defenders_and_attackers() {
    let empty = Tally { white_attackers: 0, white_defenders: 0, black_attackers: 0, black_defenders: 0 };
    let white_piece = count_piece_in(empty, 4, 2, 3);
    assert_eq!(
        white_piece,
        Tally { white_attackers: 0, white_defenders: 2, black_attackers: 3, black_defenders: 0 }
    );
    let black_piece = count_piece_in(white_piece, 9, 4, 1);
    assert_eq!(
        black_piece,
        Tally { white_attackers: 4, white_defenders: 2, black_attackers: 3, black_defenders: 1 }
    );
    for no_piece in [0u8, 7, 8, 15, 200] {
        assert_eq!(count_piece_in(black_piece, no_piece, 5, 5), black_piece);
    }
    for white in 1u8..7 {
        assert_eq!(count_piece_in(empty, white, 1, 0).white_defenders, 1);
    }
    for black in 9u8..15 {
        assert_eq!(count_piece_in(empty, black, 1, 0).white_attackers, 1);
    }
}

#[test]
fn mate_score_prefers_the_later_mate() {
    assert_eq!(mate_score(true, 0), -239_976_000);
    assert_eq!(mate_score(false, 0), 239_976_000);
    assert_eq!(mate_score(true, 3), -239_904_000);
    assert_eq!(mate_score(false, 3), 239_904_000);
    assert!(mate_score(true, 5) > mate_score(true, 3));
    assert_eq!(mate_score(false, 9999), 0);
    assert_eq!(mate_score(false, 65_535), (9999 - 65_535) * 24_000);
}

#[test]
fn blend_weighs_the_terms() {
    let terms = Terms {
        material: 929,
        psq: 120,
        king_safety: 1,
        pinned: -1,
        attacking: 2,
        defending: -3,
    };
    assert_eq!(blend(&terms), 20_616_120);
    let zero = Terms { material: 0, psq: 0, king_safety: 0, pinned: 0, attacking: 0, defending: 0 };
    assert_eq!(blend(&zero), 0);
    let psq_only = Terms { psq: -240, ..zero };
    assert_eq!(blend(&psq_only), -240);
    assert_eq!(blend(&Terms { material: 1, ..zero }), 24_000);
    assert_eq!(blend(&Terms { king_safety: 1, ..zero }), 480_000);
    assert_eq!(blend(&Terms { pinned: 1, ..zero }), 960_000);
    assert_eq!(blend(&Terms { attacking: 1, ..zero }), 1_200_000);
    assert_eq!(blend(&Terms { defending: 1, ..zero }), 1_200_000);
}

#[test]
fn eval_of_the_first_position_is_zero() {
    assert_eq!(eval(&Board::start_pos()), 0);
}

#[test]
fn eval_is_the_blend_of_its_terms() {
    for fen in [
        "rnb1kbnr/pppp1ppp/8/4p1q1/4P1Q1/8/PPPP1PPP/RNB1KBNR w KQkq - 2 3",
        "3k4/8/8/3r4/8/1b6/2PP4/3KN2q w - - 0 1",
        "k7/4R3/2p5/p7/1p6/2P1R2P/1P4P1/3K4 w - - 0 1",
    ] {
        let board = Board::from_fen(fen).unwrap();
        let (attacking, defending) = attacking_defending(&board);
        let psq = if num_big_pieces(&board) < 8 { board.psq().eg() } else { board.psq().mg() };
        let terms = Terms {
            material: count_material(&board),
            psq,
            king_safety: king_safety(&board),
            pinned: pinned_pieces(&board),
            attacking,
            defending,
        };
        assert_eq!(eval(&board), blend(&terms));
    }
}

#[test]
fn eval_uses_the_end_game_table_with_few_pieces() {
    let board = Board::from_fen("k7/pp6/8/8/8/8/1PPP4/2K5 w - - 0 1").unwrap();
    let psq = board.psq();
    assert_ne!(psq.mg(), psq.eg());
    let with_eg = eval(&board) - psq.eg() as i64;
    let (attacking, defending) = attacking_defending(&board);
    let rest = Terms {
        material: count_material(&board),
        psq: 0,
        king_safety: king_safety(&board),
        pinned: pinned_pieces(&board),
        attacking,
        defending,
    };
    assert_eq!(with_eg, blend(&rest));
}

#[test]
fn eval_of_a_mated_side() {
    let white_mated =
        Board::from_fen("rnb1kbnr/pppp1ppp/8/4p3/6Pq/5P2/PPPPP2P/RNBQKBNR w KQkq - 1 3").unwrap();
    assert!(white_mated.checkmate());
    assert_eq!(eval(&white_mated), -239_976_000);
    let mut board = Board::from_fen("k7/5R2/6R1/8/8/8/4K3/8 w - - 0 1").unwrap();
    assert!(board.apply_uci_move("g6g8"));
    assert!(board.checkmate());
    assert_eq!(board.ply(), 1);
    assert_eq!(eval(&board), 239_976_000 - 24_000);
}

#[test]
fn eval_of_a_stalemate_is_zero() {
    let board = Board::from_fen("7k/5Q2/6K1/8/8/8/8/8 b - - 0 1").unwrap();
    assert!(board.stalemate());
    assert_eq!(eval(&board), 0);
    let fifty = Board::from_fen("k7/8/8/8/8/8/1Q6/K7 w - - 50 80").unwrap();
    assert!(fifty.stalemate());
    assert_eq!(eval(&fifty), 0);
}
