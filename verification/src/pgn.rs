//! Reading a game record: where the move text begins, which moves it
//! lists, and what its header tags say of the opening and the date.

use vstd::prelude::*;
use crate::text::{
    chars_of, find_from, is_ascii_letter, is_letter, is_text, replaced, rfind_before, rows,
    slice_of, split_words, starts_with, string_of, texts, trim, trimmed, words,
};

verus! {

/// The line that begins at `start` and ends before `end`, without the white
/// space around it.
pub open spec fn line_text(s: Seq<char>, start: int, end: int) -> Seq<char> {
    trimmed(s.subrange(start, end))
}

/// Whether a line is a header tag: it begins with a bracket.
pub open spec fn is_tag_line(line: Seq<char>) -> bool {
    line.len() > 0 && line[0] == '['
}

/// Where the move text begins, scanning from `i` in a line that began at
/// `start`: the start of the first line that is neither empty nor a tag and
/// comes after a tag line; 0 if there is no such line. `in_header` tells
/// whether a tag line was seen.
pub open spec fn moves_start_scan(s: Seq<char>, i: int, start: int, in_header: bool) -> int
    decreases s.len() - i,
{
    if i < 0 || i > s.len() {
        0
    } else if i == s.len() || s[i] == '\n' {
        let line = line_text(s, start, i);
        if is_tag_line(line) {
            if i == s.len() {
                0
            } else {
                moves_start_scan(s, i + 1, i + 1, true)
            }
        } else if in_header && line.len() > 0 {
            start
        } else if i == s.len() {
            0
        } else {
            moves_start_scan(s, i + 1, i + 1, in_header)
        }
    } else {
        moves_start_scan(s, i + 1, start, in_header)
    }
}

/// Where the move text of a game record begins.
pub open spec fn moves_start(s: Seq<char>) -> int {
    moves_start_scan(s, 0, 0, false)
}

/// The move text of a game record: what follows the header tags, without
/// the white space around it. A record without tags is move text as a whole.
pub open spec fn moves_text(s: Seq<char>) -> Seq<char> {
    trimmed(s.skip(moves_start(s)))
}

/// A game result as move text ends with it.
pub open spec fn is_result_token(t: Seq<char>) -> bool {
    t == "1-0"@ || t == "0-1"@ || t == "1/2-1/2"@ || t == "*"@
}

/// Whether a word of the move text may be a move: it is no move number, no
/// result, no comment and no clock annotation, and it begins with an ASCII
/// letter or is a castling notation.
pub open spec fn is_move_candidate(t: Seq<char>) -> bool {
    &&& t.len() > 0
    &&& t.last() != '.'
    &&& !is_result_token(t)
    &&& t[0] != '{'
    &&& t.last() != '}'
    &&& !"[%"@.is_prefix_of(t)
    &&& t[0] != '%'
    &&& (is_ascii_letter(t[0]) || t == "O-O"@ || t == "O-O-O"@)
}

/// The candidate moves of a move text, in order: its words, without those
/// that cannot be moves. Each is kept as it was written.
pub open spec fn candidate_moves(s: Seq<char>) -> Seq<Seq<char>> {
    words(s).filter(|t: Seq<char>| is_move_candidate(t))
}

/// The text between the first and the last double quote of a line, if it has
/// two of them.
pub open spec fn quoted(line: Seq<char>) -> Option<Seq<char>> {
    let open = find_from(line, '"', 0);
    let close = rfind_before(line, '"', line.len() as int) - 1;
    if open < close {
        Some(line.subrange(open + 1, close))
    } else {
        None
    }
}

/// What follows the last `/` of `v` (all of `v` if it has none).
pub open spec fn last_segment(v: Seq<char>) -> Seq<char> {
    v.skip(rfind_before(v, '/', v.len() as int))
}

/// The header tags that the analysis reads.
#[derive(Debug, Clone, Copy, PartialEq, Eq, Structural)]
pub enum HeaderField {
    /// The opening: the tag `Opening`, or the last path segment of the tag
    /// `ECOUrl` with its hyphens turned into spaces.
    Opening,
    /// The date: the tag `Date` or `UTCDate`.
    Date,
}

/// What one line says of a header field, if anything.
pub open spec fn line_value(field: HeaderField, line: Seq<char>) -> Option<Seq<char>> {
    match field {
        HeaderField::Opening => if "[ECOUrl "@.is_prefix_of(line) {
            match quoted(line) {
                Some(v) => Some(replaced(last_segment(v), '-', ' ')),
                None => None,
            }
        } else if "[Opening "@.is_prefix_of(line) {
            quoted(line)
        } else {
            None
        },
        HeaderField::Date => if "[Date "@.is_prefix_of(line) || "[UTCDate "@.is_prefix_of(line) {
            quoted(line)
        } else {
            None
        },
    }
}

/// The value of a header field, scanning from `i` in a line that began at
/// `start`: what the first line that says anything of the field says.
pub open spec fn header_scan(s: Seq<char>, field: HeaderField, i: int, start: int) -> Option<
    Seq<char>,
>
    decreases s.len() - i,
{
    if i < 0 || i > s.len() {
        None
    } else if i == s.len() || s[i] == '\n' {
        match line_value(field, line_text(s, start, i)) {
            Some(v) => Some(v),
            None => if i == s.len() {
                None
            } else {
                header_scan(s, field, i + 1, i + 1)
            },
        }
    } else {
        header_scan(s, field, i + 1, start)
    }
}

/// The value of a header field in a game record.
pub open spec fn header_value(s: Seq<char>, field: HeaderField) -> Option<Seq<char>> {
    header_scan(s, field, 0, 0)
}

/// The text of an optional character vector.
pub open spec fn opt_row(o: Option<Vec<char>>) -> Option<Seq<char>> {
    match o {
        Some(v) => Some(v@),
        None => None,
    }
}

/// The trimmed line of `v` from `start` up to `end`.
fn line_of(v: &Vec<char>, start: usize, end: usize) -> (line: Vec<char>)
    requires
        start <= end <= v.len(),
    ensures
        line@ == line_text(v@, start as int, end as int),
{
    let raw = slice_of(v, start, end);
    trim(&raw)
}

/// Where the move text of `v` begins.
fn find_moves_start(v: &Vec<char>) -> (r: usize)
    ensures
        r == moves_start(v@),
        r <= v.len(),
{
    let n = v.len();
    let mut in_header = false;
    let mut start: usize = 0;
    let mut i: usize = 0;
    while i < n
        invariant
            start <= i <= n,
            n == v.len(),
            moves_start(v@) == moves_start_scan(v@, i as int, start as int, in_header),
        decreases n - i,
    {
        if v[i] == '\n' {
            let line = line_of(v, start, i);
            if line.len() > 0 && line[0] == '[' {
                in_header = true;
            } else if in_header && line.len() > 0 {
                return start;
            }
            start = i + 1;
        }
        i = i + 1;
    }
    let line = line_of(v, start, n);
    if line.len() > 0 && line[0] == '[' {
        0
    } else if in_header && line.len() > 0 {
        start
    } else {
        0
    }
}

/// The move text of a game record: what follows its header tags, trimmed.
///
/// The move text begins with the first line that is neither empty nor a tag
/// and follows at least one tag line. A record without such a line is taken
/// as move text from its first character.
pub fn extract_moves_from_pgn(pgn: &str) -> (r: String)
    ensures
        r@ == moves_text(pgn@),
{
    let v = chars_of(pgn);
    let start = find_moves_start(&v);
    let rest = slice_of(&v, start, v.len());
    let body = trim(&rest);
    string_of(&body)
}

/// Whether a word of the move text may be a move.
fn keeps_word(t: &Vec<char>) -> (r: bool)
    ensures
        r == is_move_candidate(t@),
{
    let n = t.len();
    if n == 0 {
        return false;
    }
    let first = t[0];
    let last = t[n - 1];
    if last == '.' || is_text(t, "1-0") || is_text(t, "0-1") || is_text(t, "1/2-1/2") || is_text(
        t,
        "*",
    ) || first == '{' || last == '}' {
        return false;
    }
    if starts_with(t, "[%") || first == '%' {
        return false;
    }
    is_letter(first) || is_text(t, "O-O") || is_text(t, "O-O-O")
}

/// The candidate moves of a move text, in order.
///
/// The text is cut at white space. Move numbers (words that end with a
/// dot), results, comments in braces and clock annotations are dropped, and
/// so is every other word that neither begins with an ASCII letter nor is a
/// castling notation. A kept word is returned as written, with its `+` or
/// `#`.
pub fn parse_san_moves(moves_text: &str) -> (r: Vec<String>)
    ensures
        texts(r@) == candidate_moves(moves_text@),
        r.len() <= words(moves_text@).len(),
{
    let v = chars_of(moves_text);
    let ws = split_words(&v);
    let ghost keep = |t: Seq<char>| is_move_candidate(t);
    let mut out: Vec<String> = Vec::new();
    let mut k: usize = 0;
    while k < ws.len()
        invariant
            k <= ws.len(),
            rows(ws@) == words(moves_text@),
            keep == |t: Seq<char>| is_move_candidate(t),
            texts(out@) == rows(ws@).take(k as int).filter(keep),
            out.len() <= k,
        decreases ws.len() - k,
    {
        proof {
            let all = rows(ws@);
            all.lemma_take_succ_push(k as int);
            all.take(k as int).lemma_filter_push(all[k as int], keep);
        }
        if keeps_word(&ws[k]) {
            out.push(string_of(&ws[k]));
        }
        k = k + 1;
    }
    proof {
        rows(ws@).lemma_take_len();
    }
    out
}

/// The text between the first and the last double quote of `line`.
fn quoted_part(line: &Vec<char>) -> (r: Option<Vec<char>>)
    ensures
        opt_row(r) == quoted(line@),
{
    let n = line.len();
    let mut open: usize = 0;
    while open < n && line[open] != '"'
        invariant
            open <= n,
            n == line.len(),
            find_from(line@, '"', 0) == find_from(line@, '"', open as int),
        decreases n - open,
    {
        open = open + 1;
    }
    let mut close: usize = n;
    while close > 0 && line[close - 1] != '"'
        invariant
            close <= n,
            n == line.len(),
            rfind_before(line@, '"', n as int) == rfind_before(line@, '"', close as int),
        decreases close,
    {
        close = close - 1;
    }
    if close > 0 && open < close - 1 {
        Some(slice_of(line, open + 1, close - 1))
    } else {
        None
    }
}

/// What follows the last `/` of `v`, with every hyphen turned into a space.
fn spaced_last_segment(v: &Vec<char>) -> (r: Vec<char>)
    ensures
        r@ == replaced(last_segment(v@), '-', ' '),
{
    let n = v.len();
    let mut from: usize = n;
    while from > 0 && v[from - 1] != '/'
        invariant
            from <= n,
            n == v.len(),
            rfind_before(v@, '/', n as int) == rfind_before(v@, '/', from as int),
        decreases from,
    {
        from = from - 1;
    }
    let mut out: Vec<char> = Vec::new();
    let mut i: usize = from;
    while i < n
        invariant
            from <= i <= n,
            n == v.len(),
            out@ == replaced(v@.subrange(from as int, i as int), '-', ' '),
        decreases n - i,
    {
        let c = v[i];
        if c == '-' {
            out.push(' ');
        } else {
            out.push(c);
        }
        i = i + 1;
    }
    out
}

/// What one line says of a header field.
fn value_in_line(field: HeaderField, line: &Vec<char>) -> (r: Option<Vec<char>>)
    ensures
        opt_row(r) == line_value(field, line@),
{
    match field {
        HeaderField::Opening => {
            if starts_with(line, "[ECOUrl ") {
                match quoted_part(line) {
                    Some(v) => Some(spaced_last_segment(&v)),
                    None => None,
                }
            } else if starts_with(line, "[Opening ") {
                quoted_part(line)
            } else {
                None
            }
        },
        HeaderField::Date => {
            if starts_with(line, "[Date ") || starts_with(line, "[UTCDate ") {
                quoted_part(line)
            } else {
                None
            }
        },
    }
}

/// The value of a header field in a game record: what the first line that
/// holds the field between two double quotes says.
pub fn extract_header(pgn: &str, field: HeaderField) -> (r: Option<String>)
    ensures
        crate::models::opt_text(r) == header_value(pgn@, field),
{
    let v = chars_of(pgn);
    let n = v.len();
    let mut start: usize = 0;
    let mut i: usize = 0;
    while i < n
        invariant
            start <= i <= n,
            n == v.len(),
            v@ == pgn@,
            header_value(pgn@, field) == header_scan(v@, field, i as int, start as int),
        decreases n - i,
    {
        if v[i] == '\n' {
            let line = line_of(&v, start, i);
            match value_in_line(field, &line) {
                Some(value) => {
                    return Some(string_of(&value));
                },
                None => {},
            }
            start = i + 1;
        }
        i = i + 1;
    }
    let line = line_of(&v, start, n);
    match value_in_line(field, &line) {
        Some(value) => Some(string_of(&value)),
        None => None,
    }
}

/// The opening that the header of a game record names.
///
/// The first line with an `ECOUrl` or an `Opening` tag whose value stands
/// between two double quotes decides. Of an `ECOUrl` the last path segment
/// is taken, with spaces for its hyphens.
pub fn extract_opening_from_pgn(pgn: &str) -> (r: Option<String>)
    ensures
        crate::models::opt_text(r) == header_value(pgn@, HeaderField::Opening),
{
    extract_header(pgn, HeaderField::Opening)
}

/// The date that the header of a game record gives: the value of its first
/// `Date` or `UTCDate` tag.
pub fn extract_date_from_pgn(pgn: &str) -> (r: Option<String>)
    ensures
        crate::models::opt_text(r) == header_value(pgn@, HeaderField::Date),
{
    extract_header(pgn, HeaderField::Date)
}

/// The move text begins within the game record.
proof fn lemma_moves_start_scan_in_text(s: Seq<char>, i: int, start: int, in_header: bool)
    requires
        0 <= start <= i <= s.len(),
    ensures
        0 <= moves_start_scan(s, i, start, in_header) <= s.len(),
    decreases s.len() - i,
{
    if i < s.len() {
        if s[i] == '\n' {
            lemma_moves_start_scan_in_text(s, i + 1, i + 1, true);
            lemma_moves_start_scan_in_text(s, i + 1, i + 1, in_header);
        } else {
            lemma_moves_start_scan_in_text(s, i + 1, start, in_header);
        }
    }
}

/// The move text begins within the game record.
pub proof fn lemma_moves_start_in_text(s: Seq<char>)
    ensures
        0 <= moves_start(s) <= s.len(),
{
    lemma_moves_start_scan_in_text(s, 0, 0, false);
}

/// Every candidate move is a word of the move text that may be a move, and
/// there are no more candidates than words.
pub proof fn lemma_candidates_are_words(s: Seq<char>)
    ensures
        candidate_moves(s).len() <= words(s).len(),
        forall|k: int|
            0 <= k < candidate_moves(s).len() ==> is_move_candidate(
                #[trigger] candidate_moves(s)[k],
            ) && words(s).contains(candidate_moves(s)[k]),
{
    let keep = |t: Seq<char>| is_move_candidate(t);
    words(s).lemma_filter_len(keep);
    assert forall|k: int| 0 <= k < candidate_moves(s).len() implies is_move_candidate(
        #[trigger] candidate_moves(s)[k],
    ) && words(s).contains(candidate_moves(s)[k]) by {
        words(s).lemma_filter_pred(keep, k);
        words(s).lemma_filter_contains_rev(keep, candidate_moves(s)[k]);
    }
}

/// The move text has no more words than the game record.
pub proof fn lemma_move_text_words_fit(s: Seq<char>)
    ensures
        candidate_moves(moves_text(s)).len() <= words(moves_text(s)).len() <= words(s).len(),
{
    lemma_candidates_are_words(moves_text(s));
    lemma_moves_start_in_text(s);
    let rest = s.skip(moves_start(s));
    assert(rest == s.subrange(moves_start(s), s.len() as int));
    crate::text::lemma_words_of_part(s, moves_start(s), s.len() as int);
    crate::text::lemma_words_of_trimmed(rest);
}

} // verus!
