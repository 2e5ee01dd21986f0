use chess_coach::pgn::{
    extract_date_from_pgn, extract_moves_from_pgn, extract_opening_from_pgn, parse_san_moves,
};

const RECORD: &str = "[Event \"Live Chess\"]\n[Site \"Chess.com\"]\n[Date \"2024.03.09\"]\n[ECOUrl \"https://www.chess.com/openings/Italian-Game-Giuoco-Piano\"]\n[UTCDate \"2024.03.10\"]\n\n1. e4 {[%clk 0:09:58]} 1... e5 2. Nf3 Nc6 3. Bc4 Bc5 1-0\n";

#[test]
fn move_text_follows_the_header() {
    assert_eq!(
        extract_moves_from_pgn(RECORD),
        "1. e4 {[%clk 0:09:58]} 1... e5 2. Nf3 Nc6 3. Bc4 Bc5 1-0"
    );
}

#[test]
fn record_without_header_is_move_text() {
    assert_eq!(extract_moves_from_pgn("  1. e4 e5\n2. Nf3  "), "1. e4 e5\n2. Nf3");
    assert_eq!(extract_moves_from_pgn(""), "");
    assert_eq!(extract_moves_from_pgn("\n\n"), "");
}

#[test]
fn header_without_moves_leaves_the_record() {
    assert_eq!(extract_moves_from_pgn("[Event \"x\"]\n[Site \"y\"]\n"), "[Event \"x\"]\n[Site \"y\"]");
}

#[test]
fn text_before_the_first_tag_is_no_move_text() {
    assert_eq!(extract_moves_from_pgn("intro\n[Event \"x\"]\n\n1. d4 d5"), "1. d4 d5");
}

#[test]
fn move_text_starts_at_its_line_with_carriage_returns() {
    assert_eq!(
        extract_moves_from_pgn("[Event \"x\"]\r\n[Site \"y\"]\r\n\r\n1. e4 e5\r\n2. Nf3\r\n"),
        "1. e4 e5\r\n2. Nf3"
    );
}

#[test]
fn move_text_keeps_later_tags() {
    assert_eq!(
        extract_moves_from_pgn("[Event \"x\"]\n1. e4\n[Late \"tag\"]\n"),
        "1. e4\n[Late \"tag\"]"
    );
}

#[test]
fn tokenizer_keeps_moves_only() {
    let tokens = parse_san_moves("1. e4 {[%clk 0:09:58]} 1... e5 2. Nf3 Nc6 3. Bc4 Bc5 1-0");
    assert_eq!(tokens, vec!["e4", "e5", "Nf3", "Nc6", "Bc4", "Bc5"]);
}

#[test]
fn tokenizer_drops_results_comments_and_annotations() {
    assert_eq!(parse_san_moves("1-0 0-1 1/2-1/2 * {note} {x note} %eval [%clk $1 12 3. ..."), Vec::<String>::new());
    assert_eq!(parse_san_moves("{ e4 }"), vec!["e4"]);
    assert_eq!(parse_san_moves("e4}"), Vec::<String>::new());
    assert_eq!(parse_san_moves("e4."), Vec::<String>::new());
}

#[test]
fn tokenizer_keeps_castling_and_decorations() {
    assert_eq!(
        parse_san_moves("O-O O-O-O Qh5+ Qxf7# Nf3+# e8=Q+ Qh5++ exd5"),
        vec!["O-O", "O-O-O", "Qh5+", "Qxf7#", "Nf3+#", "e8=Q+", "Qh5++", "exd5"]
    );
}

#[test]
fn tokenizer_keeps_words_that_begin_with_a_letter() {
    assert_eq!(parse_san_moves("hello 0-0 Zz \u{e9}4 x"), vec!["hello", "Zz", "x"]);
    assert_eq!(parse_san_moves(""), Vec::<String>::new());
    assert_eq!(parse_san_moves(" \n\t"), Vec::<String>::new());
}

#[test]
fn tokenizer_cuts_at_every_white_space() {
    assert_eq!(parse_san_moves("e4\ne5\r\nNf3\tNc6\u{a0}Bb5"), vec!["e4", "e5", "Nf3", "Nc6", "Bb5"]);
}

#[test]
fn opening_from_eco_url() {
    assert_eq!(extract_opening_from_pgn(RECORD).as_deref(), Some("Italian Game Giuoco Piano"));
    assert_eq!(
        extract_opening_from_pgn("[ECOUrl \"Kings-Pawn\"]").as_deref(),
        Some("Kings Pawn")
    );
    assert_eq!(extract_opening_from_pgn("[ECOUrl \"a/b-c/\"]").as_deref(), Some(""));
}

#[test]
fn opening_from_opening_tag() {
    assert_eq!(
        extract_opening_from_pgn("[Event \"x\"]\n  [Opening \"Ruy-Lopez: Berlin\"]  \n[ECOUrl \"a/b\"]\n").as_deref(),
        Some("Ruy-Lopez: Berlin")
    );
}

#[test]
fn opening_needs_two_quotes() {
    assert_eq!(extract_opening_from_pgn("[Opening \"broken]\n[Opening none]\n"), None);
    assert_eq!(
        extract_opening_from_pgn("[Opening \"broken]\n[ECOUrl \"x/Bird-Opening\"]").as_deref(),
        Some("Bird Opening")
    );
    assert_eq!(extract_opening_from_pgn("[Opening \"\"]").as_deref(), Some(""));
    assert_eq!(extract_opening_from_pgn("[Opening \"a\" \"b\"]").as_deref(), Some("a\" \"b"));
    assert_eq!(extract_opening_from_pgn("[OpeningX \"a\"]"), None);
    assert_eq!(extract_opening_from_pgn(""), None);
}

#[test]
fn date_from_first_date_tag() {
    assert_eq!(extract_date_from_pgn(RECORD).as_deref(), Some("2024.03.09"));
    assert_eq!(
        extract_date_from_pgn("[UTCDate \"2023.01.02\"]\n[Date \"2023.01.01\"]").as_deref(),
        Some("2023.01.02")
    );
    assert_eq!(extract_date_from_pgn("[Event \"x\"]\n\n1. e4"), None);
    assert_eq!(extract_date_from_pgn("[Date 2023]"), None);
}
