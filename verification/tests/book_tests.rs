use chess_coach::book::detect_book_moves;

fn toks(ws: &[&str]) -> Vec<String> {
    ws.iter().map(|w| w.to_string()).collect()
}

#[test]
fn line_played_in_full_credits_two_more_moves() {
    assert_eq!(detect_book_moves(&toks(&["e4", "e5", "Nf3", "Nc6", "Bb5"])), 7);
    assert_eq!(detect_book_moves(&toks(&["e4", "e5", "Nf3", "Nc6", "Bc4"])), 7);
    assert_eq!(detect_book_moves(&toks(&["e4", "e5", "Nf3", "Nc6", "Bc4", "Bc5"])), 7);
    assert_eq!(detect_book_moves(&toks(&["e4", "c5", "Nf3", "d6", "d4", "cxd4", "Nxd4", "Nf6"])), 9);
    assert_eq!(detect_book_moves(&toks(&["c4", "e5"])), 4);
    assert_eq!(detect_book_moves(&toks(&["e4", "d5", "exd5"])), 4);
    assert_eq!(detect_book_moves(&toks(&["d4", "d5", "Bf4", "Nf6"])), 5);
    assert_eq!(detect_book_moves(&toks(&["d4", "d5", "c4", "e6"])), 5);
    assert_eq!(detect_book_moves(&toks(&["d4", "Nf6", "c4", "g6"])), 6);
    assert_eq!(detect_book_moves(&toks(&["e4", "e6", "d4", "d5"])), 6);
    assert_eq!(detect_book_moves(&toks(&["e4", "c6", "d4", "d5"])), 6);
    assert_eq!(detect_book_moves(&toks(&["e4", "d6", "d4", "Nf6"])), 6);
    assert_eq!(detect_book_moves(&toks(&["e4", "e5", "Nf3", "Nc6", "d4", "exd4"])), 7);
}

#[test]
fn game_off_the_book_has_two_book_moves() {
    assert_eq!(detect_book_moves(&toks(&["e4", "e5", "Nf3", "Nc6", "Be2"])), 2);
    assert_eq!(detect_book_moves(&toks(&["e4", "e5", "Nf3", "Nc6"])), 2);
    assert_eq!(detect_book_moves(&toks(&["a3", "a6", "b3"])), 2);
    assert_eq!(detect_book_moves(&toks(&["e4", "e5"])), 2);
    assert_eq!(detect_book_moves(&toks(&["e4"])), 1);
    assert_eq!(detect_book_moves(&toks(&[])), 0);
    assert_eq!(detect_book_moves(&toks(&["d4", "d5"])), 2);
}

#[test]
fn decorations_do_not_count() {
    assert_eq!(detect_book_moves(&toks(&["e4+", "d5#"])), 4);
    assert_eq!(detect_book_moves(&toks(&["c4++", "e5+#"])), 2);
    assert_eq!(detect_book_moves(&toks(&["c4++", "e5##"])), 4);
    assert_eq!(detect_book_moves(&toks(&["c4#+", "e5"])), 4);
    assert_eq!(detect_book_moves(&toks(&["c4+#+", "e5"])), 2);
}

#[test]
fn longer_line_wins() {
    assert_eq!(detect_book_moves(&toks(&["d4", "d5", "c4", "x", "y", "z"])), 5);
    assert_eq!(detect_book_moves(&toks(&["e4", "d5", "Nf3", "Nc6", "Bb5"])), 4);
}
