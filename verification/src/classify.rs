//! The label of a move and the running evaluation.
//!
//! A move is labelled from a handful of facts about it. Where none of the
//! fixed rules applies, a reproducible hash of the move's place in the game
//! picks the label: the same game always gets the same labels.

use vstd::prelude::*;
use crate::models::MoveClassification;

verus! {

/// What the classifier reads of a move and of the position it was played in.
#[derive(Debug, Clone, Copy)]
pub struct MoveTraits {
    /// How many legal moves the position offered.
    pub legal_moves: usize,
    pub is_capture: bool,
    pub is_promotion: bool,
    pub is_castle: bool,
    /// Whether the opponent is in check after the move.
    pub gives_check: bool,
    /// Whether the opponent is checkmated after the move.
    pub is_checkmate: bool,
}

/// The evaluation at the start of every game: White's nominal edge of 0.30.
pub const START_EVAL: i32 = 30;

/// The evaluation never leaves `-EVAL_LIMIT ..= EVAL_LIMIT` (10.00 pawns).
pub const EVAL_LIMIT: i32 = 1000;

/// Castling counts as a good move before this ply.
pub const CASTLE_PLIES: usize = 20;

/// The hash of a move's place in the game, reduced modulo 100. It is
/// computed in 64-bit wrapping arithmetic.
pub open spec fn hash_residue(ply: usize, total: usize, capture: bool, check: bool) -> u64 {
    let mixed = (ply as u64).wrapping_mul(2654435761u64) ^ (total as u64).wrapping_mul(
        2246822519u64,
    );
    let with_capture = if capture {
        mixed.wrapping_add(13u64)
    } else {
        mixed
    };
    let with_check = if check {
        with_capture.wrapping_add(37u64)
    } else {
        with_capture
    };
    with_check % 100
}

/// The label of a hash residue: 0-3 brilliant, 4-10 great, 11-35 best,
/// 36-75 good, 76-85 inaccuracy, 86-93 mistake, above that blunder.
pub open spec fn band_of(residue: int) -> MoveClassification {
    if residue <= 3 {
        MoveClassification::Brilliant
    } else if residue <= 10 {
        MoveClassification::Great
    } else if residue <= 35 {
        MoveClassification::Best
    } else if residue <= 75 {
        MoveClassification::Good
    } else if residue <= 85 {
        MoveClassification::Inaccuracy
    } else if residue <= 93 {
        MoveClassification::Mistake
    } else {
        MoveClassification::Blunder
    }
}

/// The label of a move that is not a book move, by the rules in their order
/// of precedence.
pub open spec fn heuristic_label(t: MoveTraits, ply: usize, total: usize) -> MoveClassification {
    if t.legal_moves == 1 {
        MoveClassification::ForcedMove
    } else if t.is_checkmate {
        MoveClassification::Brilliant
    } else if t.is_promotion && t.gives_check {
        MoveClassification::Brilliant
    } else if t.is_castle && ply < CASTLE_PLIES {
        MoveClassification::Good
    } else if t.gives_check && t.is_capture {
        MoveClassification::Great
    } else {
        band_of(hash_residue(ply, total, t.is_capture, t.gives_check) as int)
    }
}

/// The label of the move at `ply` in a game whose first `book` plies are
/// opening theory.
pub open spec fn label_of(t: MoveTraits, ply: usize, total: usize, book: usize)
    -> MoveClassification {
    if ply < book {
        MoveClassification::Book
    } else {
        heuristic_label(t, ply, total)
    }
}

/// What a label adds to the evaluation from the mover's point of view, in
/// hundredths of a pawn.
pub open spec fn eval_delta(c: MoveClassification) -> int {
    match c {
        MoveClassification::Blunder => -250,
        MoveClassification::Mistake => -150,
        MoveClassification::Inaccuracy => -60,
        MoveClassification::Brilliant => 40,
        MoveClassification::Great => 20,
        MoveClassification::Best => 5,
        _ => 0,
    }
}

/// `e` brought back into the range of the evaluation.
pub open spec fn clamped(e: int) -> int {
    if e < -EVAL_LIMIT {
        -EVAL_LIMIT as int
    } else if e > EVAL_LIMIT {
        EVAL_LIMIT as int
    } else {
        e
    }
}

/// The evaluation after a move with label `c`, played by White or by Black.
pub open spec fn eval_step(e: int, c: MoveClassification, white: bool) -> int {
    clamped(
        if white {
            e + eval_delta(c)
        } else {
            e - eval_delta(c)
        },
    )
}

/// The evaluation after the first `n` moves of a game, given each move's
/// label and whether White played it.
pub open spec fn eval_after(ls: Seq<MoveClassification>, whites: Seq<bool>, n: int) -> int
    decreases n,
{
    if n <= 0 {
        START_EVAL as int
    } else {
        eval_step(eval_after(ls, whites, n - 1), ls[n - 1], whites[n - 1])
    }
}

/// After every prefix of every game the evaluation lies within ten pawns
/// of zero.
pub proof fn lemma_eval_in_range(ls: Seq<MoveClassification>, whites: Seq<bool>, n: int)
    ensures
        -EVAL_LIMIT <= eval_after(ls, whites, n) <= EVAL_LIMIT,
    decreases n,
{
    if n > 0 {
        lemma_eval_in_range(ls, whites, n - 1);
    }
}

/// A move that is no book move is a forced move exactly when it was the only
/// legal one, whatever else holds of it; and no rule of the classifier
/// makes a book move.
pub proof fn lemma_single_reply_is_forced(t: MoveTraits, ply: usize, total: usize, book: usize)
    ensures
        heuristic_label(t, ply, total) == MoveClassification::ForcedMove <==> t.legal_moves == 1,
        heuristic_label(t, ply, total) != MoveClassification::Book,
        ply >= book ==> label_of(t, ply, total, book) == heuristic_label(t, ply, total),
        ply < book ==> label_of(t, ply, total, book) == MoveClassification::Book,
{
}

/// A quiet move whose hash residue lies in the band 36-75 is a good move,
/// and a good move leaves the evaluation as it was.
pub proof fn lemma_good_band_keeps_eval(
    t: MoveTraits,
    ply: usize,
    total: usize,
    e: int,
    white: bool,
)
    requires
        t.legal_moves != 1,
        !t.is_checkmate,
        !t.is_capture,
        !t.gives_check,
        !t.is_castle,
        36 <= hash_residue(ply, total, false, false) <= 75,
        -EVAL_LIMIT <= e <= EVAL_LIMIT,
    ensures
        heuristic_label(t, ply, total) == MoveClassification::Good,
        eval_step(e, MoveClassification::Good, white) == e,
{
}

/// The hash of a move's place in the game, reduced modulo 100.
pub fn simple_hash(move_index: usize, total: usize, capture: bool, check: bool) -> (h: usize)
    ensures
        h == hash_residue(move_index, total, capture, check),
        h < 100,
{
    let mut h: u64 = (move_index as u64).wrapping_mul(2654435761u64);
    h = h ^ (total as u64).wrapping_mul(2246822519u64);
    if capture {
        h = h.wrapping_add(13u64);
    }
    if check {
        h = h.wrapping_add(37u64);
    }
    (h % 100) as usize
}

/// The label of a hash residue.
pub fn classify_residue(residue: usize) -> (c: MoveClassification)
    ensures
        c == band_of(residue as int),
{
    if residue <= 3 {
        MoveClassification::Brilliant
    } else if residue <= 10 {
        MoveClassification::Great
    } else if residue <= 35 {
        MoveClassification::Best
    } else if residue <= 75 {
        MoveClassification::Good
    } else if residue <= 85 {
        MoveClassification::Inaccuracy
    } else if residue <= 93 {
        MoveClassification::Mistake
    } else {
        MoveClassification::Blunder
    }
}

/// Labels a move that is not a book move.
pub fn classify_traits(t: &MoveTraits, move_index: usize, total_moves: usize) -> (c:
    MoveClassification)
    ensures
        c == heuristic_label(*t, move_index, total_moves),
        c == MoveClassification::ForcedMove <==> t.legal_moves == 1,
        c != MoveClassification::Book,
{
    if t.legal_moves == 1 {
        return MoveClassification::ForcedMove;
    }
    if t.is_checkmate {
        return MoveClassification::Brilliant;
    }
    let hash = simple_hash(move_index, total_moves, t.is_capture, t.gives_check);
    if t.is_promotion && t.gives_check {
        MoveClassification::Brilliant
    } else if t.is_castle && move_index < CASTLE_PLIES {
        MoveClassification::Good
    } else if t.gives_check && t.is_capture {
        MoveClassification::Great
    } else {
        classify_residue(hash)
    }
}

/// The evaluation after a move with label `c`: the mover gains or loses by
/// the label, and the result is kept within ten pawns of zero.
pub fn next_eval(eval: i32, c: MoveClassification, white: bool) -> (r: i32)
    ensures
        r == eval_step(eval as int, c, white),
        -EVAL_LIMIT <= r <= EVAL_LIMIT,
{
    let delta: i64 = match c {
        MoveClassification::Blunder => -250,
        MoveClassification::Mistake => -150,
        MoveClassification::Inaccuracy => -60,
        MoveClassification::Brilliant => 40,
        MoveClassification::Great => 20,
        MoveClassification::Best => 5,
        _ => 0,
    };
    let moved: i64 = if white {
        eval as i64 + delta
    } else {
        eval as i64 - delta
    };
    if moved < -(EVAL_LIMIT as i64) {
        -EVAL_LIMIT
    } else if moved > EVAL_LIMIT as i64 {
        EVAL_LIMIT
    } else {
        moved as i32
    }
}

} // verus!
