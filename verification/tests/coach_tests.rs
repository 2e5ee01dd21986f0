use chess_coach::coach::{build_coach_prompt, coach_command, read_coach_reply, shell_escape};

#[test]
fn prompt_with_best_move() {
    let p = build_coach_prompt("8/8/8/8/8/8/8/K6k w - -", "Qh5", Some("Nf3"), "Blunder", "white", 2);
    let want = "You are a friendly chess coach helping a player improve. Analyze this specific moment:\n\nPosition (FEN): 8/8/8/8/8/8/8/K6k w - -\nMove played: 2. Qh5 (white)\nThe best move was: Nf3\nClassification: Blunder\n\nThis was a BLUNDER \u{2014} a serious mistake that significantly worsens the position.\n\nGive a short, educational explanation (2-3 sentences max) in a warm coaching tone. Focus on:\n- WHY the played move is blunder (what does it miss or achieve?)\n- WHAT the better alternative does (if applicable)\n- A practical TIP the player can remember\n\nKeep it concise, specific to this position, and avoid generic advice. Do NOT include the FEN or move notation in your response \u{2014} the player already sees those. Do NOT use markdown formatting.";
    assert_eq!(p, want);
}

#[test]
fn prompt_without_best_move() {
    let p = build_coach_prompt("fen", "e4", None, "Book", "black", 17);
    assert!(p.contains("\nMove played: 17. e4 (black)\nClassification: Book\n\nAnalyze this chess move.\n\nGive a short"));
    assert!(p.contains("- WHY the played move is book (what does it miss or achieve?)"));
    assert!(!p.contains("The best move was"));
}

#[test]
fn prompt_context_by_label() {
    let cases = [
        ("Mistake", "This was a MISTAKE \u{2014} it gives away a meaningful advantage."),
        ("Inaccuracy", "This was an INACCURACY \u{2014} a slightly imprecise move that misses a better option."),
        ("Brilliant", "This was a BRILLIANT move \u{2014} an exceptional and hard-to-find move!"),
        ("Great", "This was a GREAT move \u{2014} strong and well-calculated."),
        ("great", "Analyze this chess move."),
        ("", "Analyze this chess move."),
    ];
    for (label, context) in cases {
        let p = build_coach_prompt("f", "m", None, label, "white", 1);
        let want = format!("Classification: {}\n\n{}\n\nGive", label, context);
        assert!(p.contains(&want), "{}", p);
    }
}

#[test]
fn prompt_puts_the_label_in_lower_case() {
    let p = build_coach_prompt("f", "m", None, "ForcedMove \u{c9}", "white", 1);
    assert!(p.contains("- WHY the played move is forcedmove \u{e9} (what"));
}

#[test]
fn shell_words() {
    assert_eq!(shell_escape("abc"), "'abc'");
    assert_eq!(shell_escape(""), "''");
    assert_eq!(shell_escape("it's"), "'it'\\''s'");
    assert_eq!(shell_escape("'"), "''\\'''");
    assert_eq!(shell_escape("a b\n$x \"q\" \\"), "'a b\n$x \"q\" \\'");
    assert_eq!(shell_escape("''"), "''\\'''\\'''");
}

#[test]
fn command_line() {
    assert_eq!(coach_command("hi"), "echo 'hi' | gemini 2>/dev/null");
    assert_eq!(coach_command("White's move"), "echo 'White'\\''s move' | gemini 2>/dev/null");
}

#[test]
fn reply_of_the_client() {
    assert_eq!(read_coach_reply(true, "  Nice move.\n", "noise"), Ok("Nice move.".to_string()));
    assert_eq!(
        read_coach_reply(true, " \n\t", ""),
        Err("Gemini CLI returned empty response".to_string())
    );
    assert_eq!(read_coach_reply(true, "", "x"), Err("Gemini CLI returned empty response".to_string()));
    assert_eq!(
        read_coach_reply(false, "Nice move.", "  not logged in \n"),
        Err("Gemini CLI error: not logged in".to_string())
    );
    assert_eq!(read_coach_reply(false, "", ""), Err("Gemini CLI error: ".to_string()));
}
