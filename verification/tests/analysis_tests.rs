use chess_coach::analysis::{analyze_game, walk_moves};
use chess_coach::models::{GameAnalysis, MoveClassification};
use chess_coach::position::Position;
use chess_coach::models::MoveClassification::{
    Best, Blunder, Book, Brilliant, Good, Inaccuracy, Mistake,
};

const START_EPD: &str = "rnbqkbnr/pppppppp/8/8/8/8/PPPPPPPP/RNBQKBNR w KQkq -";

fn analyze(pgn: &str) -> GameAnalysis {
    analyze_game(pgn, "alice", "bob", "1-0", "600", "rapid", "https://example.org/game/1", 0).unwrap()
}

fn labels(a: &GameAnalysis) -> Vec<MoveClassification> {
    a.moves.iter().map(|m| m.classification).collect()
}

#[test]
fn empty_move_text_gives_empty_analysis() {
    let a = analyze("");
    assert_eq!(a.moves.len(), 0);
    assert_eq!(a.summary.total_moves, 0);
    assert_eq!(a.summary.accuracy, 0);
    assert_eq!(a.key_moments.len(), 0);
    assert_eq!(a.date, "1970.01.01");
    assert_eq!(a.pgn, "");
}

#[test]
fn game_data_is_handed_on() {
    let pgn = "[Event \"x\"]\n[Date \"2024.03.09\"]\n[Opening \"Fool's Mate\"]\n\n1. f3 e5 2. g4 Qh4# 0-1";
    let a = analyze_game(pgn, "alice", "bob", "0-1", "180+2", "blitz", "https://example.org/g", 1431648000)
        .unwrap();
    assert_eq!(a.game_url, "https://example.org/g");
    assert_eq!(a.white, "alice");
    assert_eq!(a.black, "bob");
    assert_eq!(a.result, "0-1");
    assert_eq!(a.time_control, "180+2");
    assert_eq!(a.time_class, "blitz");
    assert_eq!(a.date, "2024.03.09");
    assert_eq!(a.pgn, pgn);
    assert_eq!(a.summary.opening_name.as_deref(), Some("Fool's Mate"));
}

#[test]
fn date_is_the_day_the_game_ended_when_the_header_gives_none() {
    let a = analyze_game("1. e4", "a", "b", "*", "", "", "", 1431648000).unwrap();
    assert_eq!(a.date, "2015.05.15");
    let a = analyze_game("1. e4", "a", "b", "*", "", "", "", 1431734399).unwrap();
    assert_eq!(a.date, "2015.05.15");
    let a = analyze_game("1. e4", "a", "b", "*", "", "", "", 1431734400).unwrap();
    assert_eq!(a.date, "2015.05.16");
    let a = analyze_game("1. e4", "a", "b", "*", "", "", "", u64::MAX).unwrap();
    assert_eq!(a.date, "1969.12.31");
    let a = analyze_game("1. e4", "a", "b", "*", "", "", "", 1 << 62).unwrap();
    assert_eq!(a.date, "1970.01.01");
}

#[test]
fn ruy_lopez_is_all_theory() {
    let a = analyze("1. e4 e5 2. Nf3 Nc6 3. Bb5");
    assert_eq!(a.moves.len(), 5);
    for m in &a.moves {
        assert_eq!(m.classification, MoveClassification::Book);
        assert!(m.is_book_move);
        assert_eq!(m.comment.as_deref(), Some("Theory move."));
        assert_eq!(m.eval_score, 30);
        assert_eq!(m.best_move_san, None);
        assert_eq!(m.best_from, None);
        assert_eq!(m.best_to, None);
    }
    assert_eq!(a.moves[0].fen_before, START_EPD);
    assert_eq!(a.moves[0].fen_after, "rnbqkbnr/pppppppp/8/8/4P3/8/PPPP1PPP/RNBQKBNR b KQkq -");
    assert_eq!(a.moves[1].fen_before, a.moves[0].fen_after);
    assert_eq!(a.moves[4].fen_after, "r1bqkbnr/pppp1ppp/2n5/1B2p3/4P3/5N2/PPPP1PPP/RNBQK2R b KQkq -");
    assert_eq!(a.moves[0].played_from.as_deref(), Some("e2"));
    assert_eq!(a.moves[0].played_to.as_deref(), Some("e4"));
    assert_eq!(a.moves[3].played_from.as_deref(), Some("b8"));
    assert_eq!(a.moves[3].played_to.as_deref(), Some("c6"));
    let colors: Vec<&str> = a.moves.iter().map(|m| m.color.as_str()).collect();
    assert_eq!(colors, vec!["white", "black", "white", "black", "white"]);
    let numbers: Vec<u64> = a.moves.iter().map(|m| m.move_number).collect();
    assert_eq!(numbers, vec![1, 1, 2, 2, 3]);
    let sans: Vec<&str> = a.moves.iter().map(|m| m.san.as_str()).collect();
    assert_eq!(sans, vec!["e4", "e5", "Nf3", "Nc6", "Bb5"]);
    assert_eq!(a.summary.total_moves, 5);
    assert_eq!(a.summary.accuracy, 0);
    assert_eq!(a.key_moments.len(), 0);
}

#[test]
fn italian_game_of_five_moves_is_all_theory() {
    let a = analyze("e4 e5 Nf3 Nc6 Bc4");
    let sans: Vec<&str> = a.moves.iter().map(|m| m.san.as_str()).collect();
    assert_eq!(sans, vec!["e4", "e5", "Nf3", "Nc6", "Bc4"]);
    for m in &a.moves {
        assert_eq!(m.classification, Book);
        assert!(m.is_book_move);
        assert_eq!(m.comment.as_deref(), Some("Theory move."));
        assert_eq!(m.best_move_san, None);
        assert_eq!(m.eval_score, 30);
    }
    assert_eq!(a.summary.accuracy, 0);
    assert!(a.key_moments.is_empty());
}

#[test]
fn two_plies_after_the_italian_line_are_theory_too() {
    // The line has five moves; seven plies are credited.
    let a = analyze("1. e4 e5 2. Nf3 Nc6 3. Bc4 Bc5 4. c3 Nf6 5. d4");
    let book: Vec<bool> = a.moves.iter().map(|m| m.is_book_move).collect();
    assert_eq!(book, vec![true, true, true, true, true, true, true, false, false]);
    for m in &a.moves {
        assert_eq!(m.is_book_move, m.classification == Book);
    }
}

#[test]
fn fools_mate() {
    let a = analyze("[Event \"x\"]\n\n1. f3 e5 2. g4 Qh4# 0-1\n");
    assert_eq!(labels(&a), vec![Book, Book, Best, Brilliant]);
    let evals: Vec<i32> = a.moves.iter().map(|m| m.eval_score).collect();
    assert_eq!(evals, vec![30, 30, 35, -5]);
    assert_eq!(a.moves[2].comment, None);
    assert_eq!(a.moves[3].comment.as_deref(), Some("Brilliant move! 2. Qh4# is an exceptional find."));
    assert_eq!(a.moves[3].san, "Qh4#");
    assert_eq!(a.moves[3].played_from.as_deref(), Some("d8"));
    assert_eq!(a.moves[3].played_to.as_deref(), Some("h4"));
    assert_eq!(a.moves[3].fen_before, "rnbqkbnr/pppp1ppp/8/4p3/6P1/5P2/PPPPP2P/RNBQKBNR b KQkq -");
    assert_eq!(a.moves[3].fen_after, "rnb1kbnr/pppp1ppp/8/4p3/6Pq/5P2/PPPPP2P/RNBQKBNR w KQkq -");
    assert_eq!(a.moves[3].best_move_san, None);
    assert_eq!(a.summary.total_moves, 4);
    assert_eq!(a.summary.brilliancies, 1);
    assert_eq!(a.summary.best_moves, 1);
    assert_eq!(a.summary.accuracy, 500);
    assert_eq!(a.key_moments.len(), 1);
    let k = &a.key_moments[0];
    assert_eq!(k.move_index, 3);
    assert_eq!(k.move_number, 2);
    assert_eq!(k.san, "Qh4#");
    assert_eq!(k.color, "black");
    assert_eq!(k.classification, "Brilliant");
    assert_eq!(k.severity, "notable");
    assert_eq!(k.description, "2. Qh4# \u{2014} a brilliant find!");
}

#[test]
fn weak_moves_get_a_better_move() {
    // Seven moves and four words that are no moves: eleven candidates.
    let a = analyze("1. e4 e5 2. Qh5 Nc6 3. Bc4 Nf6 4. d3 Zz Zz Zz Zz");
    assert_eq!(labels(&a), vec![Book, Book, Mistake, Best, Inaccuracy, Mistake, Blunder]);
    let evals: Vec<i32> = a.moves.iter().map(|m| m.eval_score).collect();
    assert_eq!(evals, vec![30, 30, -120, -125, -185, -35, -285]);
    let numbers: Vec<u64> = a.moves.iter().map(|m| m.move_number).collect();
    assert_eq!(numbers, vec![1, 1, 2, 2, 3, 3, 4]);
    assert_eq!(a.moves[2].comment.as_deref(), Some("Mistake! 2. Qh5 gives away part of White's advantage."));
    assert_eq!(a.moves[3].comment, None);
    assert_eq!(a.moves[4].comment.as_deref(), Some("Inaccuracy. White could have played a more precise move here."));
    assert_eq!(a.moves[5].comment.as_deref(), Some("Mistake! 3. Nf6 gives away part of Black's advantage."));
    assert_eq!(a.moves[6].comment.as_deref(), Some("Blunder! 4. d3 is a serious error that changes the evaluation significantly."));
    // No better move is looked for where the move is not weak.
    for i in [0, 1, 3] {
        assert_eq!(a.moves[i].best_move_san, None);
        assert_eq!(a.moves[i].best_from, None);
        assert_eq!(a.moves[i].best_to, None);
    }
    // Several quiet moves towards the centre score 15; the first of them is d3.
    assert_eq!(a.moves[2].best_move_san.as_deref(), Some("d3"));
    assert_eq!(a.moves[2].best_from.as_deref(), Some("d2"));
    assert_eq!(a.moves[2].best_to.as_deref(), Some("d3"));
    assert_eq!(a.moves[4].best_move_san.as_deref(), Some("Qxe5"));
    assert_eq!(a.moves[4].best_from.as_deref(), Some("h5"));
    assert_eq!(a.moves[4].best_to.as_deref(), Some("e5"));
    assert_eq!(a.moves[5].best_move_san.as_deref(), Some("Nd4"));
    assert_eq!(a.moves[5].best_from.as_deref(), Some("c6"));
    assert_eq!(a.moves[5].best_to.as_deref(), Some("d4"));
    assert_eq!(a.moves[6].best_move_san.as_deref(), Some("Qxf7"));
    assert_eq!(a.moves[6].best_from.as_deref(), Some("h5"));
    assert_eq!(a.moves[6].best_to.as_deref(), Some("f7"));
    assert_eq!(a.moves[6].fen_before, "r1bqkb1r/pppp1ppp/2n2n2/4p2Q/2B1P3/8/PPPP1PPP/RNB1K1NR w KQkq -");
    assert_eq!(a.moves[6].fen_after, "r1bqkb1r/pppp1ppp/2n2n2/4p2Q/2B1P3/3P4/PPP2PPP/RNB1K1NR b KQkq -");
    assert_eq!(a.summary.total_moves, 7);
    assert_eq!(a.summary.best_moves, 1);
    assert_eq!(a.summary.inaccuracies, 1);
    assert_eq!(a.summary.mistakes, 2);
    assert_eq!(a.summary.blunders, 1);
    assert_eq!(a.summary.brilliancies + a.summary.great_moves + a.summary.good_moves, 0);
    assert_eq!(a.summary.accuracy, 143);
    let moments: Vec<(usize, &str)> = a.key_moments.iter().map(|k| (k.move_index, k.severity.as_str())).collect();
    assert_eq!(moments, vec![(2, "major"), (4, "notable"), (5, "major"), (6, "critical")]);
}

#[test]
fn words_that_are_no_legal_moves_are_passed_over() {
    // Ke2 is not legal at once; e5 is the second move that is played.
    let a = analyze("1. e4 Ke2 e5");
    assert_eq!(a.moves.len(), 2);
    assert_eq!(a.moves[0].san, "e4");
    assert_eq!(a.moves[1].san, "e5");
    assert_eq!(a.moves[1].color, "black");
    assert_eq!(a.moves[1].move_number, 1);
    assert!(a.moves[1].is_book_move);
    assert_eq!(a.moves[1].classification, Book);
    assert_eq!(a.moves[1].eval_score, 30);
    assert_eq!(a.moves[1].fen_before, a.moves[0].fen_after);
}

#[test]
fn a_word_passed_over_at_the_start_does_not_count_as_a_ply() {
    let a = analyze("Zz e4 e5");
    let got: Vec<(&str, &str, u64)> =
        a.moves.iter().map(|m| (m.san.as_str(), m.color.as_str(), m.move_number)).collect();
    assert_eq!(got, vec![("e4", "white", 1), ("e5", "black", 1)]);
    assert!(a.moves[0].is_book_move && a.moves[1].is_book_move);
}

#[test]
fn plies_are_counted_by_the_moves_played() {
    // Three words are passed over; the labels go by the residues of plies 2
    // and 3 among seven candidates, 51 and 14.
    let a = analyze("e4 Zz e5 Zz Nf3 Zz Nc6");
    let got: Vec<(&str, &str, u64)> =
        a.moves.iter().map(|m| (m.san.as_str(), m.color.as_str(), m.move_number)).collect();
    assert_eq!(got, vec![("e4", "white", 1), ("e5", "black", 1), ("Nf3", "white", 2), ("Nc6", "black", 2)]);
    assert_eq!(labels(&a), vec![Book, Book, Good, Best]);
    let evals: Vec<i32> = a.moves.iter().map(|m| m.eval_score).collect();
    assert_eq!(evals, vec![30, 30, 30, 25]);
}

#[test]
fn ambiguous_and_malformed_words_are_passed_over() {
    // "N5", "Nxx", "Rook", "e9" and "fine" are no notation of a move.
    let a = analyze("1. Nf3 Nf6 2. Nc3 Nc6 3. N5 Nxx Rook e9 Ng1 fine");
    let sans: Vec<&str> = a.moves.iter().map(|m| m.san.as_str()).collect();
    assert_eq!(sans, vec!["Nf3", "Nf6", "Nc3", "Nc6", "Ng1"]);
    assert_eq!(a.moves[4].color, "white");
    assert_eq!(a.moves[4].move_number, 3);
    assert_eq!(a.moves[4].played_from.as_deref(), Some("f3"));
    assert_eq!(a.moves[4].played_to.as_deref(), Some("g1"));
}

#[test]
fn a_move_that_two_pieces_can_make_is_passed_over() {
    // Both knights can go to d2 after 1. Nf3 d5 2. d3 d4: "Nd2" denotes two moves.
    let a = analyze("1. Nf3 d5 2. d3 d4 3. Nd2 Nbd2");
    let sans: Vec<&str> = a.moves.iter().map(|m| m.san.as_str()).collect();
    assert_eq!(sans, vec!["Nf3", "d5", "d3", "d4", "Nbd2"]);
    assert_eq!(a.moves[4].played_from.as_deref(), Some("b1"));
    assert_eq!(a.moves[4].played_to.as_deref(), Some("d2"));
    assert_eq!(a.moves[4].color, "white");
    assert_eq!(a.moves[4].move_number, 3);
}

#[test]
fn no_more_records_than_words() {
    for pgn in ["", "e4", "1. e4 e5 2. Nf3", "x y z", "1. e4 e5 2. Ke2 Ke7 3. Ke1 Ke8 4. Ke2"] {
        let a = analyze(pgn);
        assert!(a.moves.len() <= pgn.split_whitespace().count());
        assert_eq!(a.summary.total_moves as usize, a.moves.len());
        for (k, m) in a.moves.iter().enumerate() {
            assert_eq!(m.color, if k % 2 == 0 { "white" } else { "black" });
            assert_eq!(m.move_number, (k / 2 + 1) as u64);
        }
        for m in &a.moves {
            assert!(-1000 <= m.eval_score && m.eval_score <= 1000);
        }
        assert!(a.summary.accuracy <= 1000);
        assert!(a.key_moments.len() <= 7);
    }
}

#[test]
fn same_input_same_analysis() {
    let pgn = "[Date \"2024.01.01\"]\n\n1. e4 e5 2. Qh5 Nc6 3. Bc4 Nf6 4. Qxf7# 1-0";
    let a = analyze(pgn);
    let b = analyze(pgn);
    assert_eq!(format!("{:?}", a), format!("{:?}", b));
    assert_eq!(a.moves.len(), 7);
    assert_eq!(a.moves[6].classification, MoveClassification::Brilliant);
}

#[test]
fn castling_and_capture_in_passing_are_replayed() {
    let a = analyze("1. e4 e6 2. e5 d5 3. exd6 Bxd6 4. Nf3 Nf6 5. Bc4 O-O 6. O-O");
    let sans: Vec<&str> = a.moves.iter().map(|m| m.san.as_str()).collect();
    assert_eq!(sans, vec!["e4", "e6", "e5", "d5", "exd6", "Bxd6", "Nf3", "Nf6", "Bc4", "O-O", "O-O"]);
    assert_eq!(a.moves[3].fen_after, "rnbqkbnr/ppp2ppp/4p3/3pP3/8/8/PPPP1PPP/RNBQKBNR w KQkq d6");
    assert_eq!(a.moves[4].played_from.as_deref(), Some("e5"));
    assert_eq!(a.moves[4].played_to.as_deref(), Some("d6"));
    assert_eq!(a.moves[9].played_from.as_deref(), Some("e8"));
    assert_eq!(a.moves[9].played_to.as_deref(), Some("g8"));
    assert_eq!(a.moves[9].classification, MoveClassification::Good);
    assert_eq!(a.moves[10].played_from.as_deref(), Some("e1"));
    assert_eq!(a.moves[10].played_to.as_deref(), Some("g1"));
    assert_eq!(a.moves[10].classification, MoveClassification::Good);
    assert_eq!(a.moves[10].fen_after, "rnbq1rk1/ppp2ppp/3bpn2/8/2B5/5N2/PPPP1PPP/RNBQ1RK1 b - -");
}

#[test]
fn replay_from_a_given_position() {
    let tokens: Vec<String> = ["e4", "e5", "Nf3"].iter().map(|t| t.to_string()).collect();
    let moves = walk_moves(Position::new(), &tokens, 0);
    assert_eq!(moves.len(), 3);
    for m in &moves {
        assert!(!m.is_book_move);
        assert_ne!(m.classification, MoveClassification::Book);
    }
    let none = walk_moves(Position::new(), &Vec::new(), 5);
    assert_eq!(none.len(), 0);
    // From another position the same words denote other moves, or none.
    let mut later = Position::new();
    let e4 = later.read_move("e4").unwrap();
    later.play(&e4);
    let moves = walk_moves(later, &tokens, 0);
    let sans: Vec<&str> = moves.iter().map(|m| m.san.as_str()).collect();
    assert_eq!(sans, vec!["e5", "Nf3"]);
    assert_eq!(moves[0].fen_before, "rnbqkbnr/pppppppp/8/8/4P3/8/PPPP1PPP/RNBQKBNR b KQkq -");
}
