use chess_coach::models::{KeyMoment, MoveAnalysis, MoveClassification};
use chess_coach::moments::{detect_key_moments, MAX_KEY_MOMENTS};
use chess_coach::models::MoveClassification::{Best, Blunder, Book, Brilliant, ForcedMove, Good, Great, Inaccuracy, Mistake};

fn rec(i: usize, c: MoveClassification) -> MoveAnalysis {
    MoveAnalysis {
        move_number: (i / 2 + 1) as u64,
        san: format!("m{}", i),
        color: if i % 2 == 0 { "white".to_string() } else { "black".to_string() },
        classification: c,
        comment: None,
        is_book_move: false,
        fen_after: String::new(),
        played_from: None,
        played_to: None,
        best_move_san: None,
        best_from: None,
        best_to: None,
        fen_before: String::new(),
        eval_score: 0,
    }
}

fn game(labels: &[MoveClassification]) -> Vec<MoveAnalysis> {
    labels.iter().enumerate().map(|(i, c)| rec(i, *c)).collect()
}

fn indices(ms: &[KeyMoment]) -> Vec<usize> {
    ms.iter().map(|m| m.move_index).collect()
}

#[test]
fn each_kind_of_key_moment() {
    let moves = game(&[Book, Blunder, Good, Mistake, Brilliant, Best, Great, ForcedMove]);
    let ms = detect_key_moments(&moves);
    assert_eq!(indices(&ms), vec![1, 3, 4]);
    assert_eq!(ms[0].severity, "critical");
    assert_eq!(ms[0].classification, "Blunder");
    assert_eq!(ms[0].description, "1. m1 \u{2014} a blunder that significantly changed the game.");
    assert_eq!(ms[0].move_number, 1);
    assert_eq!(ms[0].san, "m1");
    assert_eq!(ms[0].color, "black");
    assert_eq!(ms[1].severity, "major");
    assert_eq!(ms[1].classification, "Mistake");
    assert_eq!(ms[1].description, "2. m3 \u{2014} a mistake that gave away advantage.");
    assert_eq!(ms[2].severity, "notable");
    assert_eq!(ms[2].classification, "Brilliant");
    assert_eq!(ms[2].description, "3. m4 \u{2014} a brilliant find!");
    assert_eq!(ms[2].color, "white");
}

#[test]
fn inaccuracy_counts_when_a_weak_move_follows() {
    let moves = game(&[Inaccuracy, Good, Inaccuracy, Inaccuracy, Inaccuracy, Mistake, Inaccuracy, Blunder, Inaccuracy, Brilliant, Inaccuracy]);
    let ms = detect_key_moments(&moves);
    assert_eq!(indices(&ms), vec![2, 3, 4, 5, 6, 7, 9]);
    assert_eq!(ms[0].severity, "notable");
    assert_eq!(ms[0].classification, "Inaccuracy");
    assert_eq!(ms[0].description, "2. m2 \u{2014} inaccuracy leading to further trouble.");
}

#[test]
fn lone_inaccuracy_is_no_key_moment() {
    assert_eq!(detect_key_moments(&game(&[Inaccuracy])).len(), 0);
    assert_eq!(detect_key_moments(&game(&[Good, Inaccuracy, Book])).len(), 0);
    assert_eq!(detect_key_moments(&[]).len(), 0);
}

#[test]
fn severity_decides_which_seven_stay() {
    // Notable 0 2 8 11, major 1 4 6 9, critical 3 5 7 10.
    let moves = game(&[
        Brilliant, Mistake, Brilliant, Blunder, Mistake, Blunder, Mistake, Blunder, Brilliant,
        Mistake, Blunder, Brilliant,
    ]);
    let ms = detect_key_moments(&moves);
    assert_eq!(MAX_KEY_MOMENTS, 7);
    assert_eq!(indices(&ms), vec![1, 3, 4, 5, 6, 7, 10]);
    let severities: Vec<&str> = ms.iter().map(|m| m.severity.as_str()).collect();
    assert_eq!(severities, vec!["major", "critical", "major", "critical", "major", "critical", "critical"]);
}

#[test]
fn more_than_seven_blunders() {
    let moves = game(&[Mistake, Blunder, Blunder, Brilliant, Blunder, Blunder, Blunder, Blunder, Blunder, Blunder, Blunder]);
    assert_eq!(indices(&detect_key_moments(&moves)), vec![1, 2, 4, 5, 6, 7, 8]);
}

#[test]
fn key_moments_are_few_and_in_order_of_play() {
    let all = [Brilliant, Great, Best, Good, Book, Inaccuracy, Mistake, Blunder, ForcedMove];
    let mut seed: u32 = 12345;
    for _ in 0..300 {
        let mut labels = Vec::new();
        seed = seed.wrapping_mul(1103515245).wrapping_add(12345);
        let len = (seed >> 16) % 40;
        for _ in 0..len {
            seed = seed.wrapping_mul(1103515245).wrapping_add(12345);
            labels.push(all[((seed >> 16) % 9) as usize]);
        }
        let moves = game(&labels);
        let ms = detect_key_moments(&moves);
        assert!(ms.len() <= 7);
        for w in ms.windows(2) {
            assert!(w[0].move_index < w[1].move_index);
        }
        // The same selection by sorting: severity first, then the order of play.
        let rank = |i: usize| match labels[i] {
            Blunder => 0,
            Mistake => 1,
            Brilliant => 2,
            Inaccuracy if i + 1 < labels.len() && matches!(labels[i + 1], Inaccuracy | Mistake | Blunder) => 2,
            _ => 3,
        };
        let mut wanted: Vec<usize> = (0..labels.len()).filter(|i| rank(*i) < 3).collect();
        wanted.sort_by_key(|i| (rank(*i), *i));
        wanted.truncate(7);
        wanted.sort();
        assert_eq!(indices(&ms), wanted);
    }
}
