use chess_coach::comment::generate_comment;
use chess_coach::models::MoveClassification::{Best, Blunder, Book, Brilliant, ForcedMove, Good, Great, Inaccuracy, Mistake};

#[test]
fn remarks_by_label() {
    assert_eq!(
        generate_comment(&Brilliant, "Qxf7#", "white", 12).as_deref(),
        Some("Brilliant move! 12. Qxf7# is an exceptional find.")
    );
    assert_eq!(
        generate_comment(&Great, "Nf3", "white", 2).as_deref(),
        Some("Great move by White. Nf3 maintains strong pressure.")
    );
    assert_eq!(
        generate_comment(&Great, "Nf6", "black", 2).as_deref(),
        Some("Great move by Black. Nf6 maintains strong pressure.")
    );
    assert_eq!(generate_comment(&Best, "Nf3", "white", 2), None);
    assert_eq!(generate_comment(&Good, "Nf3", "black", 2), None);
    assert_eq!(generate_comment(&Book, "e4", "white", 1).as_deref(), Some("Theory move."));
    assert_eq!(
        generate_comment(&Inaccuracy, "h3", "black", 9).as_deref(),
        Some("Inaccuracy. Black could have played a more precise move here.")
    );
    assert_eq!(
        generate_comment(&Mistake, "Qh5", "white", 2).as_deref(),
        Some("Mistake! 2. Qh5 gives away part of White's advantage.")
    );
    assert_eq!(
        generate_comment(&Blunder, "d3", "white", 104).as_deref(),
        Some("Blunder! 104. d3 is a serious error that changes the evaluation significantly.")
    );
    assert_eq!(generate_comment(&ForcedMove, "Kb1", "white", 40).as_deref(), Some("Only legal move."));
}

#[test]
fn any_side_but_white_is_black() {
    assert_eq!(
        generate_comment(&Inaccuracy, "h3", "White", 9).as_deref(),
        Some("Inaccuracy. Black could have played a more precise move here.")
    );
    assert_eq!(
        generate_comment(&Mistake, "", "", 0).as_deref(),
        Some("Mistake! 0.  gives away part of Black's advantage.")
    );
}

#[test]
fn labels_as_shown() {
    let shown = [
        (Brilliant, "Brilliant"), (Great, "Great"), (Best, "Best"), (Good, "Good"), (Book, "Book"),
        (Inaccuracy, "Inaccuracy"), (Mistake, "Mistake"), (Blunder, "Blunder"), (ForcedMove, "Forced"),
    ];
    for (label, text) in shown {
        assert_eq!(label.label(), text);
    }
    assert_eq!(ForcedMove.name(), "ForcedMove");
    assert_eq!(Blunder.name(), "Blunder");
}
