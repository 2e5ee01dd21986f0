use chess_coach::models::{MoveAnalysis, MoveClassification};
use chess_coach::summary::{accuracy, calculate_summary};
use chess_coach::models::MoveClassification::{Best, Blunder, Book, Brilliant, ForcedMove, Good, Great, Inaccuracy, Mistake};

fn rec(c: MoveClassification) -> MoveAnalysis {
    MoveAnalysis {
        move_number: 1,
        san: "e4".to_string(),
        color: "white".to_string(),
        classification: c,
        comment: None,
        is_book_move: false,
        fen_after: String::new(),
        played_from: None,
        played_to: None,
        best_move_san: None,
        best_from: None,
        best_to: None,
        fen_before: String::new(),
        eval_score: 0,
    }
}

#[test]
fn accuracy_in_tenths_of_a_percent() {
    assert_eq!(accuracy(0, 0), 0);
    assert_eq!(accuracy(5, 0), 0);
    assert_eq!(accuracy(0, 9), 0);
    assert_eq!(accuracy(7, 7), 1000);
    assert_eq!(accuracy(1, 2), 500);
    assert_eq!(accuracy(1, 3), 333);
    assert_eq!(accuracy(2, 3), 667);
    assert_eq!(accuracy(1, 7), 143);
    assert_eq!(accuracy(1, 16), 63);
    assert_eq!(accuracy(1, 80), 13);
    assert_eq!(accuracy(1, 2000), 1);
    assert_eq!(accuracy(1, 2001), 0);
    assert_eq!(accuracy(9, 7), 1000);
    assert_eq!(accuracy(u64::MAX, u64::MAX), 1000);
    assert_eq!(accuracy(u64::MAX / 2, u64::MAX), 500);
    assert_eq!(accuracy(u64::MAX, 1), 1000);
}

#[test]
fn accuracy_is_a_percentage() {
    for total in 0..60u64 {
        for sound in 0..=total {
            let a = accuracy(sound, total);
            assert!(a <= 1000);
            if total == 0 {
                assert_eq!(a, 0);
            }
        }
    }
}

#[test]
fn summary_tallies_every_label() {
    let moves: Vec<MoveAnalysis> = [
        Book, Book, Brilliant, Great, Great, Best, Best, Best, Good, Inaccuracy, Mistake,
        Mistake, Blunder, ForcedMove, Good, Good,
    ]
    .into_iter()
    .map(rec)
    .collect();
    let s = calculate_summary(&moves, &Some("Italian Game".to_string()));
    assert_eq!(s.total_moves, 16);
    assert_eq!(s.brilliancies, 1);
    assert_eq!(s.great_moves, 2);
    assert_eq!(s.best_moves, 3);
    assert_eq!(s.good_moves, 3);
    assert_eq!(s.inaccuracies, 1);
    assert_eq!(s.mistakes, 2);
    assert_eq!(s.blunders, 1);
    assert_eq!(s.accuracy, 563);
    assert_eq!(s.opening_name.as_deref(), Some("Italian Game"));
}

#[test]
fn summary_of_no_moves() {
    let s = calculate_summary(&[], &None);
    assert_eq!(s.total_moves, 0);
    assert_eq!(s.accuracy, 0);
    assert_eq!(s.brilliancies + s.great_moves + s.best_moves + s.good_moves, 0);
    assert_eq!(s.inaccuracies + s.mistakes + s.blunders, 0);
    assert_eq!(s.opening_name, None);
}

#[test]
fn book_and_forced_moves_count_in_the_total_only() {
    let moves: Vec<MoveAnalysis> = [Book, ForcedMove, Book, Good].into_iter().map(rec).collect();
    let s = calculate_summary(&moves, &None);
    assert_eq!(s.total_moves, 4);
    assert_eq!(s.good_moves, 1);
    assert_eq!(s.accuracy, 250);
}
