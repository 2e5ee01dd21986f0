//! The better move that is shown for a weak one: every other legal move is
//! scored by what it achieves at once, and the first with the highest score
//! is recommended.

use vstd::prelude::*;
use crate::board::{
    extract_move_squares, file_of, on_board, rank_of, square_name, ChessMove, PieceKind,
};
use crate::engine::{in_check, is_mated, legal_moves_of, piece_on, position_after, san_text};
use crate::models::opt_text;
use crate::position::Position;

verus! {

/// The score of a move that mates.
pub const MATE_SCORE: i32 = 10000;

/// What the rules engine tells of a candidate move.
#[derive(Debug, Clone, Copy)]
pub struct Outlook {
    /// The move checkmates.
    pub mates: bool,
    /// The move gives check.
    pub checks: bool,
    /// For a capture: the piece that stands on the destination square.
    pub target: Option<PieceKind>,
    /// How many capturing replies the opponent has after the move.
    pub capture_replies: usize,
}

/// The material value of a piece.
pub open spec fn piece_value(k: PieceKind) -> int {
    match k {
        PieceKind::Pawn => 100,
        PieceKind::Knight => 320,
        PieceKind::Bishop => 330,
        PieceKind::Rook => 500,
        PieceKind::Queen => 900,
        PieceKind::King => 0,
    }
}

/// What a capture wins: the value of the piece on the destination square;
/// a capture in passing, whose destination is empty, wins a pawn.
pub open spec fn capture_gain(m: ChessMove, target: Option<PieceKind>) -> int {
    match m {
        ChessMove::Normal { .. } => match target {
            Some(k) => piece_value(k),
            None => 0,
        },
        ChessMove::EnPassant { .. } => match target {
            Some(k) => piece_value(k),
            None => 100,
        },
        _ => 0,
    }
}

/// The distance of `x` from 3.
pub open spec fn off_centre(x: int) -> int {
    if x >= 3 {
        x - 3
    } else {
        3 - x
    }
}

/// The bonus for a square near the centre: 5 for each step that it is
/// nearer to d4 than four steps.
pub open spec fn square_bonus(sq: u8) -> int {
    let away = off_centre(file_of(sq)) + off_centre(rank_of(sq));
    if away < 4 {
        (4 - away) * 5
    } else {
        0
    }
}

/// The bonus of a move for ending near the centre. Castling ends where the
/// king arrives.
pub open spec fn centre_bonus(m: ChessMove) -> int {
    square_bonus(m.arrow().1)
}

/// The score of a candidate move.
pub open spec fn score_of(m: ChessMove, o: Outlook) -> int {
    if o.mates {
        MATE_SCORE as int
    } else {
        (if o.checks {
            50int
        } else {
            0
        }) + (if m.captures() {
            capture_gain(m, o.target)
        } else {
            0
        }) + (if m.promotes() {
            800int
        } else {
            0
        }) + (if m.castles() {
            60int
        } else {
            0
        }) + centre_bonus(m) - (if o.capture_replies > 0 && !m.captures() {
            20int
        } else {
            0
        })
    }
}

/// How many of the first `n` moves capture.
pub open spec fn capture_count(ms: Seq<ChessMove>, n: int) -> nat
    decreases n,
{
    if n <= 0 {
        0
    } else {
        capture_count(ms, n - 1) + if ms[n - 1].captures() {
            1nat
        } else {
            0nat
        }
    }
}

/// The square on which a capture takes.
pub open spec fn capture_square(m: ChessMove) -> Option<u8> {
    match m {
        ChessMove::Normal { to, capture, .. } => if capture is Some {
            Some(to)
        } else {
            None
        },
        ChessMove::EnPassant { to, .. } => Some(to),
        _ => None,
    }
}

/// What the rules engine tells of the move `m` in the position `pos`.
pub open spec fn outlook_of(pos: shakmaty::Chess, m: ChessMove) -> Outlook {
    let after = position_after(pos, m);
    Outlook {
        mates: is_mated(after),
        checks: in_check(after),
        target: match capture_square(m) {
            Some(sq) => piece_on(pos, sq),
            None => None,
        },
        capture_replies: capture_count(
            legal_moves_of(after),
            legal_moves_of(after).len() as int,
        ) as usize,
    }
}

/// The score of the move `m` in the position `pos`.
pub open spec fn move_score(pos: shakmaty::Chess, m: ChessMove) -> int {
    score_of(m, outlook_of(pos, m))
}

/// The index of the first among the first `n` candidates that has the
/// highest score, leaving out those marked in `skip`; `None` if all are left
/// out.
pub open spec fn first_best(scores: Seq<int>, skip: Seq<bool>, n: int) -> Option<int>
    decreases n,
{
    if n <= 0 {
        None
    } else {
        let before = first_best(scores, skip, n - 1);
        if skip[n - 1] {
            before
        } else {
            match before {
                Some(i) => if scores[n - 1] > scores[i] {
                    Some(n - 1)
                } else {
                    before
                },
                None => Some(n - 1),
            }
        }
    }
}

/// The first best candidate is a candidate that was not left out, no other
/// such candidate scores higher, and none before it scores as high.
pub proof fn lemma_first_best(scores: Seq<int>, skip: Seq<bool>, n: int)
    requires
        0 <= n <= scores.len(),
        scores.len() == skip.len(),
    ensures
        first_best(scores, skip, n) is None <==> (forall|j: int| 0 <= j < n ==> skip[j]),
        first_best(scores, skip, n) matches Some(i) ==> {
            &&& 0 <= i < n
            &&& !skip[i]
            &&& forall|j: int| 0 <= j < n && !skip[j] ==> scores[j] <= scores[i]
            &&& forall|j: int| 0 <= j < i && !skip[j] ==> scores[j] < scores[i]
        },
    decreases n,
{
    if n > 0 {
        lemma_first_best(scores, skip, n - 1);
    }
}

/// The scores of the legal moves of a position, in their order.
pub open spec fn candidate_scores(pos: shakmaty::Chess) -> Seq<int> {
    let ms = legal_moves_of(pos);
    Seq::new(ms.len(), |i: int| move_score(pos, ms[i]))
}

/// For each legal move of a position, whether it is the move that was
/// played.
pub open spec fn played_marks(pos: shakmaty::Chess, played: ChessMove) -> Seq<bool> {
    let ms = legal_moves_of(pos);
    Seq::new(ms.len(), |i: int| ms[i] == played)
}

/// The move to recommend in place of `played`: the first of the other legal
/// moves with the highest score; none where the position has fewer than two
/// legal moves.
pub open spec fn best_alternative(pos: shakmaty::Chess, played: ChessMove) -> Option<ChessMove> {
    let ms = legal_moves_of(pos);
    if ms.len() <= 1 {
        None
    } else {
        match first_best(candidate_scores(pos), played_marks(pos, played), ms.len() as int) {
            Some(i) => Some(ms[i]),
            None => None,
        }
    }
}

/// The material value of a piece.
pub fn value_of(k: PieceKind) -> (v: i32)
    ensures
        v == piece_value(k),
{
    match k {
        PieceKind::Pawn => 100,
        PieceKind::Knight => 320,
        PieceKind::Bishop => 330,
        PieceKind::Rook => 500,
        PieceKind::Queen => 900,
        PieceKind::King => 0,
    }
}

/// The bonus for a square near the centre.
pub fn centre_bonus_of(sq: u8) -> (bonus: i32)
    requires
        on_board(sq),
    ensures
        bonus == square_bonus(sq),
        0 <= bonus <= 20,
{
    let file: i32 = (sq % 8) as i32;
    let rank: i32 = (sq / 8) as i32;
    let file_away: i32 = if file >= 3 {
        file - 3
    } else {
        3 - file
    };
    let rank_away: i32 = if rank >= 3 {
        rank - 3
    } else {
        3 - rank
    };
    let away: i32 = file_away + rank_away;
    if away < 4 {
        (4 - away) * 5
    } else {
        0
    }
}

/// The score of a candidate move, from the move and what the rules engine
/// tells of it.
///
/// A mating move scores 10000 and nothing else counts. Otherwise: 50 for a
/// check; for a capture the value of the piece taken; 800 for a promotion;
/// 60 for castling; up to 20 for a move that ends near the centre; and 20
/// less for a move that takes nothing and leaves the opponent a capture.
pub fn score_candidate(m: &ChessMove, o: &Outlook) -> (score: i32)
    requires
        m.wf(),
    ensures
        score == score_of(*m, *o),
        -20 <= score <= MATE_SCORE,
{
    if o.mates {
        return MATE_SCORE;
    }
    let mut score: i32 = 0;
    if o.checks {
        score = score + 50;
    }
    if m.is_capture() {
        let gain: i32 = match m {
            ChessMove::Normal { .. } => match o.target {
                Some(k) => value_of(k),
                None => 0,
            },
            ChessMove::EnPassant { .. } => match o.target {
                Some(k) => value_of(k),
                None => 100,
            },
            _ => 0,
        };
        score = score + gain;
    }
    if m.is_promotion() {
        score = score + 800;
    }
    if m.is_castle() {
        score = score + 60;
    }
    score = score + centre_bonus_of(m.destination());
    if o.capture_replies > 0 && !m.is_capture() {
        score = score - 20;
    }
    score
}

/// How many of the moves capture.
fn count_captures(ms: &Vec<ChessMove>) -> (n: usize)
    ensures
        n == capture_count(ms@, ms.len() as int),
{
    let mut n: usize = 0;
    let mut i: usize = 0;
    while i < ms.len()
        invariant
            i <= ms.len(),
            n == capture_count(ms@, i as int),
            n <= i,
        decreases ms.len() - i,
    {
        if ms[i].is_capture() {
            n = n + 1;
        }
        i = i + 1;
    }
    n
}

/// Scores a legal move of a position by what it achieves at once.
pub fn evaluate_move(pos: &Position, m: &ChessMove) -> (score: i32)
    requires
        m.wf(),
        legal_moves_of(pos@).contains(*m),
    ensures
        score == move_score(pos@, *m),
        -20 <= score <= MATE_SCORE,
{
    let test_pos = pos.after(m);
    if test_pos.is_checkmate() {
        return MATE_SCORE;
    }
    let checks = test_pos.is_check();
    let target = match m {
        ChessMove::Normal { to, capture, .. } => if capture.is_some() {
            pos.piece_at(*to)
        } else {
            None
        },
        ChessMove::EnPassant { to, .. } => pos.piece_at(*to),
        _ => None,
    };
    let replies = test_pos.legal_moves();
    let capture_replies = count_captures(&replies);
    let outlook = Outlook { mates: false, checks, target, capture_replies };
    score_candidate(m, &outlook)
}

/// Finds the move to recommend in place of the move that was played.
///
/// Returns the recommended move in standard algebraic notation and the names
/// of its origin and destination squares, or nothing three times where the
/// position offers no other legal move.
pub fn find_best_move(pos: &Position, played_move: &ChessMove) -> (r: (
    Option<String>,
    Option<String>,
    Option<String>,
))
    ensures
        match best_alternative(pos@, *played_move) {
            Some(m) => {
                &&& opt_text(r.0) == Some(san_text(pos@, m))
                &&& opt_text(r.1) == Some(square_name(m.arrow().0))
                &&& opt_text(r.2) == Some(square_name(m.arrow().1))
            },
            None => r.0 is None && r.1 is None && r.2 is None,
        },
{
    let moves = pos.legal_moves();
    if moves.len() <= 1 {
        return (None, None, None);
    }
    let ghost scores = candidate_scores(pos@);
    let ghost marks = played_marks(pos@, *played_move);
    let mut best_score: i32 = i32::MIN;
    let mut best: Option<usize> = None;
    let mut i: usize = 0;
    while i < moves.len()
        invariant
            i <= moves.len(),
            moves@ == legal_moves_of(pos@),
            forall|j: int| 0 <= j < moves.len() ==> (#[trigger] moves[j]).wf(),
            scores == candidate_scores(pos@),
            marks == played_marks(pos@, *played_move),
            match best {
                Some(b) => first_best(scores, marks, i as int) == Some(b as int) && b < i
                    && best_score == scores[b as int],
                None => first_best(scores, marks, i as int) is None && best_score == i32::MIN,
            },
        decreases moves.len() - i,
    {
        let m = &moves[i];
        if !m.same_as(played_move) {
            let score = evaluate_move(pos, m);
            if score > best_score {
                best_score = score;
                best = Some(i);
            }
        }
        i = i + 1;
    }
    match best {
        Some(b) => {
            let m = &moves[b];
            let squares = extract_move_squares(m);
            let san = pos.san(m);
            (Some(san), Some(squares.0), Some(squares.1))
        },
        None => (None, None, None),
    }
}

} // verus!
