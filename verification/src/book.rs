//! Opening theory: how many of a game's first moves are book moves.

use vstd::prelude::*;
use crate::text::{chars_of, is_text, texts, trim_trailing, without_trailing};

verus! {

/// How many lines the opening book holds.
pub const BOOK_LINES: usize = 12;

/// How many moves after a known line still count as theory.
pub const THEORY_MARGIN: usize = 2;

/// A move without its check or mate decoration: trailing `+` are dropped,
/// then trailing `#`.
pub open spec fn bare_move(t: Seq<char>) -> Seq<char> {
    without_trailing(without_trailing(t, '+'), '#')
}

/// The line of the opening book with the given number.
pub open spec fn book_line(k: int) -> Seq<Seq<char>> {
    if k == 0 {
        // Italian Game
        seq!["e4"@, "e5"@, "Nf3"@, "Nc6"@, "Bc4"@]
    } else if k == 1 {
        // Ruy Lopez
        seq!["e4"@, "e5"@, "Nf3"@, "Nc6"@, "Bb5"@]
    } else if k == 2 {
        // Sicilian Defense
        seq!["e4"@, "c5"@, "Nf3"@, "d6"@, "d4"@, "cxd4"@, "Nxd4"@]
    } else if k == 3 {
        // French Defense
        seq!["e4"@, "e6"@, "d4"@, "d5"@]
    } else if k == 4 {
        // Caro-Kann
        seq!["e4"@, "c6"@, "d4"@, "d5"@]
    } else if k == 5 {
        // Queen's Gambit
        seq!["d4"@, "d5"@, "c4"@]
    } else if k == 6 {
        // King's Indian
        seq!["d4"@, "Nf6"@, "c4"@, "g6"@]
    } else if k == 7 {
        // English Opening
        seq!["c4"@, "e5"@]
    } else if k == 8 {
        // Scotch Game
        seq!["e4"@, "e5"@, "Nf3"@, "Nc6"@, "d4"@]
    } else if k == 9 {
        // Pirc Defense
        seq!["e4"@, "d6"@, "d4"@, "Nf6"@]
    } else if k == 10 {
        // London System
        seq!["d4"@, "d5"@, "Bf4"@]
    } else {
        // Scandinavian
        seq!["e4"@, "d5"@]
    }
}

/// Whether the game begins with the whole of `line`.
pub open spec fn plays_line(tokens: Seq<Seq<char>>, line: Seq<Seq<char>>) -> bool {
    line.len() <= tokens.len() && forall|i: int|
        0 <= i < line.len() ==> bare_move(#[trigger] tokens[i]) == line[i]
}

/// The length of the longest among the first `k` book lines that the game
/// plays in full; 0 if it plays none of them.
pub open spec fn longest_line(tokens: Seq<Seq<char>>, k: int) -> int
    decreases k,
{
    if k <= 0 {
        0
    } else {
        let before = longest_line(tokens, k - 1);
        let line = book_line(k - 1);
        if plays_line(tokens, line) && line.len() > before {
            line.len() as int
        } else {
            before
        }
    }
}

/// How many of the first plies of a game are book moves: two more than the
/// longest book line that the game plays in full, or, if it plays none, its
/// first two moves (as far as it has them).
pub open spec fn book_moves(tokens: Seq<Seq<char>>) -> int {
    let best = longest_line(tokens, BOOK_LINES as int);
    if best > 0 {
        best + THEORY_MARGIN
    } else if tokens.len() < 2 {
        tokens.len() as int
    } else {
        2
    }
}

/// No book line is longer than seven moves.
proof fn lemma_lines_are_short(tokens: Seq<Seq<char>>, k: int)
    requires
        0 <= k <= BOOK_LINES,
    ensures
        0 <= longest_line(tokens, k) <= 7,
    decreases k,
{
    if k > 0 {
        lemma_lines_are_short(tokens, k - 1);
    }
}

/// The texts held by a sequence of string slices.
pub open spec fn strs(v: Seq<&'static str>) -> Seq<Seq<char>> {
    Seq::new(v.len(), |i: int| v[i]@)
}

/// The line of the opening book with the given number.
fn line_of_book(k: usize) -> (r: Vec<&'static str>)
    requires
        k < BOOK_LINES,
    ensures
        strs(r@) == book_line(k as int),
        r.len() <= 7,
{
    let r = if k == 0 {
        vec!["e4", "e5", "Nf3", "Nc6", "Bc4"]
    } else if k == 1 {
        vec!["e4", "e5", "Nf3", "Nc6", "Bb5"]
    } else if k == 2 {
        vec!["e4", "c5", "Nf3", "d6", "d4", "cxd4", "Nxd4"]
    } else if k == 3 {
        vec!["e4", "e6", "d4", "d5"]
    } else if k == 4 {
        vec!["e4", "c6", "d4", "d5"]
    } else if k == 5 {
        vec!["d4", "d5", "c4"]
    } else if k == 6 {
        vec!["d4", "Nf6", "c4", "g6"]
    } else if k == 7 {
        vec!["c4", "e5"]
    } else if k == 8 {
        vec!["e4", "e5", "Nf3", "Nc6", "d4"]
    } else if k == 9 {
        vec!["e4", "d6", "d4", "Nf6"]
    } else if k == 10 {
        vec!["d4", "d5", "Bf4"]
    } else {
        vec!["e4", "d5"]
    };
    r
}

/// A move without its check or mate decoration.
fn strip_decoration(token: &String) -> (r: Vec<char>)
    ensures
        r@ == bare_move(token@),
{
    let v = chars_of(token.as_str());
    let a = trim_trailing(&v, '+');
    trim_trailing(&a, '#')
}

/// Whether the game, given without decorations, begins with the whole of
/// `line`.
fn begins_with(bare: &Vec<Vec<char>>, line: &Vec<&'static str>) -> (r: bool)
    ensures
        r == (line.len() <= bare.len() && forall|i: int|
            0 <= i < line.len() ==> (#[trigger] bare[i])@ == line[i]@),
{
    if line.len() > bare.len() {
        return false;
    }
    let mut i: usize = 0;
    while i < line.len()
        invariant
            i <= line.len() <= bare.len(),
            forall|j: int| 0 <= j < i ==> (#[trigger] bare[j])@ == line[j]@,
        decreases line.len() - i,
    {
        if !is_text(&bare[i], line[i]) {
            return false;
        }
        i = i + 1;
    }
    true
}

/// How many of the first plies of a game are book moves.
///
/// Each move is compared without its check or mate decoration. The game may
/// begin with several lines of the opening book; the longest of them counts,
/// and two more moves after it are credited as theory. A game that begins
/// with none has its first two moves credited.
pub fn detect_book_moves(moves: &[String]) -> (r: usize)
    ensures
        r as int == book_moves(texts(moves@)),
        r <= 9,
{
    let ghost tokens = texts(moves@);
    let mut bare: Vec<Vec<char>> = Vec::new();
    let mut j: usize = 0;
    while j < moves.len()
        invariant
            j <= moves.len(),
            bare.len() == j,
            forall|i: int| 0 <= i < j ==> (#[trigger] bare[i])@ == bare_move(moves[i]@),
        decreases moves.len() - j,
    {
        bare.push(strip_decoration(&moves[j]));
        j = j + 1;
    }
    let mut best: usize = 0;
    let mut k: usize = 0;
    while k < BOOK_LINES
        invariant
            k <= BOOK_LINES,
            tokens == texts(moves@),
            bare.len() == moves.len(),
            forall|i: int| 0 <= i < bare.len() ==> (#[trigger] bare[i])@ == bare_move(moves[i]@),
            best as int == longest_line(tokens, k as int),
            best <= 7,
        decreases BOOK_LINES - k,
    {
        let line = line_of_book(k);
        let ghost wanted = book_line(k as int);
        let played = begins_with(&bare, &line);
        proof {
            lemma_lines_are_short(tokens, k as int + 1);
            if played {
                assert forall|i: int| 0 <= i < wanted.len() implies bare_move(
                    #[trigger] tokens[i],
                ) == wanted[i] by {
                    assert(bare[i]@ == line[i]@);
                }
            } else if plays_line(tokens, wanted) {
                assert forall|i: int| 0 <= i < line.len() implies (#[trigger] bare[i])@
                    == line[i]@ by {
                    assert(bare_move(tokens[i]) == wanted[i]);
                }
            }
        }
        if played && line.len() > best {
            best = line.len();
        }
        k = k + 1;
    }
    if best > 0 {
        best + THEORY_MARGIN
    } else if moves.len() < 2 {
        moves.len()
    } else {
        2
    }
}

} // verus!
