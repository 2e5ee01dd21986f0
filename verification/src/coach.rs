//! Asking a language model for a coaching remark: the question that is put
//! to it, the command line that carries the question, and what is made of
//! the answer.

use vstd::prelude::*;
use crate::text::{
    append, append_decimal, append_str, chars_of, decimal, is_text, lowercase, lowercase_of,
    string_of, trim, trimmed,
};

verus! {

/// What the question says of a label.
pub open spec fn label_context(classification: Seq<char>) -> Seq<char> {
    if classification == "Blunder"@ {
        "This was a BLUNDER \u{2014} a serious mistake that significantly worsens the position."@
    } else if classification == "Mistake"@ {
        "This was a MISTAKE \u{2014} it gives away a meaningful advantage."@
    } else if classification == "Inaccuracy"@ {
        "This was an INACCURACY \u{2014} a slightly imprecise move that misses a better option."@
    } else if classification == "Brilliant"@ {
        "This was a BRILLIANT move \u{2014} an exceptional and hard-to-find move!"@
    } else if classification == "Great"@ {
        "This was a GREAT move \u{2014} strong and well-calculated."@
    } else {
        "Analyze this chess move."@
    }
}

/// The line of the question that names the best move, if one is known.
pub open spec fn best_move_line(best: Option<Seq<char>>) -> Seq<char> {
    match best {
        Some(b) => "The best move was: "@ + b + "\n"@,
        None => Seq::empty(),
    }
}

/// The question that is put to the language model about one move.
pub open spec fn prompt_of(
    fen: Seq<char>,
    played: Seq<char>,
    best: Option<Seq<char>>,
    classification: Seq<char>,
    color: Seq<char>,
    number: nat,
) -> Seq<char> {
    "You are a friendly chess coach helping a player improve. Analyze this specific moment:\n\nPosition (FEN): "@
        + fen + "\nMove played: "@ + decimal(number) + ". "@ + played + " ("@ + color + ")\n"@
        + best_move_line(best) + "Classification: "@ + classification + "\n\n"@ + label_context(
        classification,
    )
        + "\n\nGive a short, educational explanation (2-3 sentences max) in a warm coaching tone. Focus on:\n- WHY the played move is "@
        + lowercase_of(classification)
        + " (what does it miss or achieve?)\n- WHAT the better alternative does (if applicable)\n- A practical TIP the player can remember\n\nKeep it concise, specific to this position, and avoid generic advice. Do NOT include the FEN or move notation in your response \u{2014} the player already sees those. Do NOT use markdown formatting."@
}

/// `s` up to `n` with every single quote written as `'\''`: the quote that
/// ends the quoted text, an escaped quote, and the quote that opens it
/// again.
pub open spec fn quotes_escaped(s: Seq<char>, n: int) -> Seq<char>
    decreases n,
{
    if n <= 0 {
        Seq::empty()
    } else if s[n - 1] == '\'' {
        quotes_escaped(s, n - 1) + seq!['\'', '\\', '\'', '\'']
    } else {
        quotes_escaped(s, n - 1).push(s[n - 1])
    }
}

/// `s` as one word of a shell command: between single quotes, with its own
/// single quotes escaped.
pub open spec fn shell_quoted(s: Seq<char>) -> Seq<char> {
    seq!['\''] + quotes_escaped(s, s.len() as int) + seq!['\'']
}

/// The shell command that pipes the question into the language model's
/// command-line client.
pub open spec fn command_of(prompt: Seq<char>) -> Seq<char> {
    "echo "@ + shell_quoted(prompt) + " | gemini 2>/dev/null"@
}

/// What is made of the client's answer: its trimmed output if it ended well
/// and said anything, else an error.
pub open spec fn reply_of(success: bool, stdout: Seq<char>, stderr: Seq<char>) -> Result<
    Seq<char>,
    Seq<char>,
> {
    if !success {
        Err("Gemini CLI error: "@ + trimmed(stderr))
    } else if trimmed(stdout).len() == 0 {
        Err("Gemini CLI returned empty response"@)
    } else {
        Ok(trimmed(stdout))
    }
}

/// The text of a result of strings.
pub open spec fn result_text(r: Result<String, String>) -> Result<Seq<char>, Seq<char>> {
    match r {
        Ok(s) => Ok(s@),
        Err(e) => Err(e@),
    }
}

/// The text of an optional string slice.
pub open spec fn opt_str(o: Option<&str>) -> Option<Seq<char>> {
    match o {
        Some(s) => Some(s@),
        None => None,
    }
}

/// What the question says of a label.
fn context_for(classification: &str) -> (r: &'static str)
    ensures
        r@ == label_context(classification@),
{
    let c = chars_of(classification);
    if is_text(&c, "Blunder") {
        "This was a BLUNDER \u{2014} a serious mistake that significantly worsens the position."
    } else if is_text(&c, "Mistake") {
        "This was a MISTAKE \u{2014} it gives away a meaningful advantage."
    } else if is_text(&c, "Inaccuracy") {
        "This was an INACCURACY \u{2014} a slightly imprecise move that misses a better option."
    } else if is_text(&c, "Brilliant") {
        "This was a BRILLIANT move \u{2014} an exceptional and hard-to-find move!"
    } else if is_text(&c, "Great") {
        "This was a GREAT move \u{2014} strong and well-calculated."
    } else {
        "Analyze this chess move."
    }
}

/// The question that is put to the language model about one move: the
/// position, the move and its label, the best move if one is known, and what
/// kind of answer is wanted.
pub fn build_coach_prompt(
    fen: &str,
    played_move: &str,
    best_move: Option<&str>,
    classification: &str,
    color: &str,
    move_number: u32,
) -> (r: String)
    ensures
        r@ == prompt_of(
            fen@,
            played_move@,
            opt_str(best_move),
            classification@,
            color@,
            move_number as nat,
        ),
{
    let mut out: Vec<char> = Vec::new();
    let head =
        "You are a friendly chess coach helping a player improve. Analyze this specific moment:\n\nPosition (FEN): ";
    append_str(&mut out, head);
    append_str(&mut out, fen);
    append_str(&mut out, "\nMove played: ");
    append_decimal(&mut out, move_number as u64);
    append_str(&mut out, ". ");
    append_str(&mut out, played_move);
    append_str(&mut out, " (");
    append_str(&mut out, color);
    append_str(&mut out, ")\n");
    let ghost so_far = out@;
    match best_move {
        Some(bm) => {
            append_str(&mut out, "The best move was: ");
            append_str(&mut out, bm);
            append_str(&mut out, "\n");
            assert(out@ == so_far + best_move_line(opt_str(best_move))) by {
                assert(so_far + "The best move was: "@ + bm@ + "\n"@ == so_far + (
                "The best move was: "@ + bm@ + "\n"@));
            }
        },
        None => {},
    }
    append_str(&mut out, "Classification: ");
    append_str(&mut out, classification);
    append_str(&mut out, "\n\n");
    append_str(&mut out, context_for(classification));
    append_str(
        &mut out,
        "\n\nGive a short, educational explanation (2-3 sentences max) in a warm coaching tone. Focus on:\n- WHY the played move is ",
    );
    let lower = lowercase(classification);
    append_str(&mut out, lower.as_str());
    append_str(
        &mut out,
        " (what does it miss or achieve?)\n- WHAT the better alternative does (if applicable)\n- A practical TIP the player can remember\n\nKeep it concise, specific to this position, and avoid generic advice. Do NOT include the FEN or move notation in your response \u{2014} the player already sees those. Do NOT use markdown formatting.",
    );
    string_of(&out)
}

/// Appends `s` to `out` as one word of a shell command.
fn append_quoted(out: &mut Vec<char>, s: &Vec<char>)
    ensures
        final(out)@ == old(out)@ + shell_quoted(s@),
{
    let ghost start = out@;
    out.push('\'');
    let mut i: usize = 0;
    while i < s.len()
        invariant
            i <= s.len(),
            out@ == start + seq!['\''] + quotes_escaped(s@, i as int),
        decreases s.len() - i,
    {
        let c = s[i];
        if c == '\'' {
            out.push('\'');
            out.push('\\');
            out.push('\'');
            out.push('\'');
        } else {
            out.push(c);
        }
        i = i + 1;
    }
    out.push('\'');
}

/// Writes `s` as one word of a shell command: between single quotes, each
/// single quote of its own as `'\''`.
pub fn shell_escape(s: &str) -> (r: String)
    ensures
        r@ == shell_quoted(s@),
{
    let v = chars_of(s);
    let mut out: Vec<char> = Vec::new();
    append_quoted(&mut out, &v);
    string_of(&out)
}

/// The shell command that pipes a question into the language model's
/// command-line client and drops what the client writes to standard error.
pub fn coach_command(prompt: &str) -> (r: String)
    ensures
        r@ == command_of(prompt@),
{
    let v = chars_of(prompt);
    let mut out: Vec<char> = Vec::new();
    append_str(&mut out, "echo ");
    append_quoted(&mut out, &v);
    append_str(&mut out, " | gemini 2>/dev/null");
    string_of(&out)
}

/// Makes the coaching remark of what the client returned.
///
/// A client that failed gives an error with its trimmed error output; one
/// that wrote nothing but white space gives an error too; otherwise the
/// remark is the trimmed output.
pub fn read_coach_reply(success: bool, stdout: &str, stderr: &str) -> (r: Result<String, String>)
    ensures
        result_text(r) == reply_of(success, stdout@, stderr@),
        r is Ok <==> success && trimmed(stdout@).len() > 0,
{
    if !success {
        let e = trim(&chars_of(stderr));
        let mut out: Vec<char> = Vec::new();
        append_str(&mut out, "Gemini CLI error: ");
        append(&mut out, &e);
        return Err(string_of(&out));
    }
    let response = trim(&chars_of(stdout));
    if response.len() == 0 {
        return Err("Gemini CLI returned empty response".to_owned());
    }
    Ok(string_of(&response))
}

} // verus!
