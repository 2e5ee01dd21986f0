//! The analysis of a game: its moves are replayed one by one, each is
//! labelled, and the game is summarised.

use vstd::prelude::*;
use crate::board::{extract_move_squares, square_name, ChessMove};
use crate::book::{book_moves, detect_book_moves};
use crate::classify::{
    classify_traits, eval_step, heuristic_label, next_eval, MoveTraits, EVAL_LIMIT, START_EVAL,
};
use crate::comment::{comment_of, generate_comment};
use crate::engine::{
    epd_text, format_timestamp, in_check, initial_position, is_mated, legal_moves_of,
    position_after, san_text, timestamp_date,
};
use crate::models::{
    records, AnalysisRecord, GameAnalysis, MoveAnalysis, MoveClassification, MoveRecord,
};
use crate::moments::{detect_key_moments, key_moments_of, MAX_KEY_MOMENTS};
use crate::pgn::{
    candidate_moves, extract_date_from_pgn, extract_moves_from_pgn, extract_opening_from_pgn,
    header_value, lemma_move_text_words_fit, moves_text, parse_san_moves, HeaderField,
};
use crate::position::{denoted_move, Position};
use crate::recommend::{best_alternative, find_best_move};
use crate::summary::{calculate_summary, summary_of};
use crate::text::{texts, words};

verus! {

/// What the classifier reads of the move `m` in the position `pos`.
pub open spec fn traits_of(pos: shakmaty::Chess, m: ChessMove) -> MoveTraits {
    let after = position_after(pos, m);
    MoveTraits {
        legal_moves: if legal_moves_of(pos).len() <= usize::MAX {
            legal_moves_of(pos).len() as usize
        } else {
            usize::MAX
        },
        is_capture: m.captures(),
        is_promotion: m.promotes(),
        is_castle: m.castles(),
        gives_check: in_check(after),
        is_checkmate: is_mated(after),
    }
}

/// The side that moves at a ply: White at the even plies.
pub open spec fn color_at(ply: int) -> Seq<char> {
    if ply % 2 == 0 {
        "white"@
    } else {
        "black"@
    }
}

/// The number of the move to which a ply belongs: both sides' first moves
/// have the number 1.
pub open spec fn move_number_at(ply: int) -> nat {
    (ply / 2 + 1) as nat
}

/// The label of the legal move `m`, played in `pos` at `ply` of a game of
/// `total` candidate moves whose first `book` plies are theory.
pub open spec fn move_label(pos: shakmaty::Chess, m: ChessMove, ply: int, total: int, book: int)
    -> MoveClassification {
    if ply < book {
        MoveClassification::Book
    } else {
        heuristic_label(traits_of(pos, m), ply as usize, total as usize)
    }
}

/// The record of the legal move `m`, written `token`, played in `pos` as the
/// move at `ply`, when the evaluation before the move is `eval`.
pub open spec fn record_of(
    pos: shakmaty::Chess,
    m: ChessMove,
    token: Seq<char>,
    ply: int,
    total: int,
    book: int,
    eval: int,
) -> MoveRecord {
    let label = move_label(pos, m, ply, total, book);
    let advice = if label.is_weak() {
        best_alternative(pos, m)
    } else {
        None
    };
    MoveRecord {
        move_number: move_number_at(ply),
        san: token,
        color: color_at(ply),
        classification: label,
        comment: comment_of(label, token, color_at(ply), move_number_at(ply)),
        is_book_move: ply < book,
        fen_after: epd_text(position_after(pos, m)),
        played_from: Some(square_name(m.arrow().0)),
        played_to: Some(square_name(m.arrow().1)),
        best_move_san: match advice {
            Some(a) => Some(san_text(pos, a)),
            None => None,
        },
        best_from: match advice {
            Some(a) => Some(square_name(a.arrow().0)),
            None => None,
        },
        best_to: match advice {
            Some(a) => Some(square_name(a.arrow().1)),
            None => None,
        },
        fen_before: epd_text(pos),
        eval_score: eval_step(eval, label, ply % 2 == 0),
    }
}

/// Where the replay of a game stands.
pub struct Walk {
    /// The position that was reached.
    pub pos: shakmaty::Chess,
    /// The running evaluation.
    pub eval: int,
    /// The records of the moves that were played. The ply of a move is the
    /// number of records before its own.
    pub moves: Seq<MoveRecord>,
    /// For each record, the place of its token among the candidate moves.
    pub sources: Seq<int>,
    /// For each record, the position in which its move was played.
    pub positions: Seq<shakmaty::Chess>,
}

/// The replay after the token at place `at`: a token that denotes no legal
/// move is passed over and changes nothing, not even the count of plies; a
/// move is recorded and played.
pub open spec fn walk_step(w: Walk, tokens: Seq<Seq<char>>, book: int, at: int) -> Walk {
    match denoted_move(w.pos, tokens[at]) {
        None => w,
        Some(m) => {
            let rec = record_of(
                w.pos,
                m,
                tokens[at],
                w.moves.len() as int,
                tokens.len() as int,
                book,
                w.eval,
            );
            Walk {
                pos: position_after(w.pos, m),
                eval: rec.eval_score,
                moves: w.moves.push(rec),
                sources: w.sources.push(at),
                positions: w.positions.push(w.pos),
            }
        },
    }
}

/// The replay of the first `n` tokens from the position `start`.
pub open spec fn walk(start: shakmaty::Chess, tokens: Seq<Seq<char>>, book: int, n: int) -> Walk
    decreases n,
{
    if n <= 0 {
        Walk {
            pos: start,
            eval: START_EVAL as int,
            moves: Seq::empty(),
            sources: Seq::empty(),
            positions: Seq::empty(),
        }
    } else {
        walk_step(walk(start, tokens, book, n - 1), tokens, book, n - 1)
    }
}

/// The records of a game with the given candidate moves, replayed from
/// `start`.
pub open spec fn game_records(start: shakmaty::Chess, tokens: Seq<Seq<char>>) -> Seq<MoveRecord> {
    walk(start, tokens, book_moves(tokens), tokens.len() as int).moves
}

/// The date of a game: what its header says, else the day on which it
/// ended.
pub open spec fn game_date(pgn: Seq<char>, end_time: u64) -> Seq<char> {
    match header_value(pgn, HeaderField::Date) {
        Some(d) => d,
        None => timestamp_date(end_time),
    }
}

/// The analysis of a game that is replayed from `start`.
pub open spec fn analysis_of(
    start: shakmaty::Chess,
    pgn: Seq<char>,
    white: Seq<char>,
    black: Seq<char>,
    result: Seq<char>,
    time_control: Seq<char>,
    time_class: Seq<char>,
    game_url: Seq<char>,
    end_time: u64,
) -> AnalysisRecord {
    let moves = game_records(start, candidate_moves(moves_text(pgn)));
    AnalysisRecord {
        game_url,
        white,
        black,
        result,
        time_control,
        time_class,
        date: game_date(pgn, end_time),
        pgn,
        moves,
        summary: summary_of(moves, header_value(pgn, HeaderField::Opening)),
        key_moments: key_moments_of(moves),
    }
}

/// The evaluation before the record at `k`: that of the record before it,
/// or the one with which every game starts.
pub open spec fn eval_before(moves: Seq<MoveRecord>, k: int) -> int {
    if k <= 0 {
        START_EVAL as int
    } else {
        moves[k - 1].eval_score
    }
}

/// What holds of the record at `k` in a game whose first `book` plies are
/// theory: it is the move at ply `k`.
pub open spec fn is_record_at(moves: Seq<MoveRecord>, book: int, k: int) -> bool {
    let rec = moves[k];
    &&& rec.color == color_at(k)
    &&& rec.move_number == move_number_at(k)
    &&& rec.is_book_move == (k < book)
    &&& rec.is_book_move <==> rec.classification == MoveClassification::Book
    &&& rec.comment == comment_of(rec.classification, rec.san, rec.color, rec.move_number)
    &&& rec.classification.is_weak() || (rec.best_move_san is None && rec.best_from is None
        && rec.best_to is None)
    &&& rec.eval_score == eval_step(eval_before(moves, k), rec.classification, k % 2 == 0)
    &&& -EVAL_LIMIT <= rec.eval_score <= EVAL_LIMIT
    &&& (rec.classification == MoveClassification::Good || rec.classification
        == MoveClassification::Book || rec.classification == MoveClassification::ForcedMove)
        ==> rec.eval_score == eval_before(moves, k)
}

/// Every record of a replay stems from a token of its own, and the tokens
/// of the records follow each other as the records do; there are no more
/// records than tokens. The record at `k` is the move at ply `k`, whatever
/// was passed over before it: the sides alternate from White on, the move
/// number goes up after Black's move, the first `book` plies and no others
/// are book moves, a later move is forced exactly when it was the only legal
/// one, and the evaluation moves by the label, within ten pawns of zero.
pub proof fn lemma_walk_records(start: shakmaty::Chess, tokens: Seq<Seq<char>>, book: int, n: int)
    requires
        0 <= n <= tokens.len(),
    ensures
        ({
            let w = walk(start, tokens, book, n);
            &&& w.moves.len() == w.sources.len()
            &&& w.moves.len() <= n
            &&& w.eval == eval_before(w.moves, w.moves.len() as int)
            &&& -EVAL_LIMIT <= w.eval <= EVAL_LIMIT
            &&& forall|k: int| 0 <= k < w.sources.len() ==> 0 <= #[trigger] w.sources[k] < n
            &&& forall|j: int, k: int|
                0 <= j < k < w.sources.len() ==> #[trigger] w.sources[j] < #[trigger] w.sources[k]
            &&& forall|k: int|
                0 <= k < w.moves.len() ==> (#[trigger] w.moves[k]).san == tokens[w.sources[k]]
            &&& forall|k: int| 0 <= k < w.moves.len() ==> #[trigger] is_record_at(w.moves, book, k)
            &&& w.positions.len() == w.moves.len()
            &&& forall|k: int|
                0 <= k < w.moves.len() ==> {
                    let rec = #[trigger] w.moves[k];
                    &&& rec.fen_before == epd_text(w.positions[k])
                    &&& rec.classification == MoveClassification::ForcedMove <==> k >= book
                        && legal_moves_of(w.positions[k]).len() == 1
                }
        }),
    decreases n,
{
    if n > 0 {
        lemma_walk_records(start, tokens, book, n - 1);
        let before = walk(start, tokens, book, n - 1);
        let w = walk(start, tokens, book, n);
        assert forall|k: int| 0 <= k < w.moves.len() implies #[trigger] is_record_at(
            w.moves,
            book,
            k,
        ) by {
            if k < before.moves.len() {
                assert(is_record_at(before.moves, book, k));
                assert(w.moves[k] == before.moves[k]);
                if k > 0 {
                    assert(w.moves[k - 1] == before.moves[k - 1]);
                }
            }
        }
    }
}

/// What holds of every analysis: no more records than candidate moves, no
/// more candidate moves than words of the move text, no more of those than
/// words of the game record; each record is the move at its ply.
pub proof fn lemma_analysis_records(start: shakmaty::Chess, pgn: Seq<char>)
    ensures
        ({
            let tokens = candidate_moves(moves_text(pgn));
            let moves = game_records(start, tokens);
            &&& moves.len() <= tokens.len() <= words(moves_text(pgn)).len() <= words(pgn).len()
            &&& forall|k: int|
                0 <= k < moves.len() ==> #[trigger] is_record_at(moves, book_moves(tokens), k)
        }),
{
    let tokens = candidate_moves(moves_text(pgn));
    lemma_walk_records(start, tokens, book_moves(tokens), tokens.len() as int);
    crate::pgn::lemma_candidates_are_words(moves_text(pgn));
    lemma_move_text_words_fit(pgn);
}

/// The same game record, the same players and the same end time have the
/// same analysis: whatever two analyses of one input hold, they hold the
/// same.
pub proof fn lemma_analysis_is_reproducible(
    first: AnalysisRecord,
    second: AnalysisRecord,
    pgn: Seq<char>,
    white: Seq<char>,
    black: Seq<char>,
    result: Seq<char>,
    time_control: Seq<char>,
    time_class: Seq<char>,
    game_url: Seq<char>,
    end_time: u64,
)
    requires
        first == analysis_of(
            initial_position(),
            pgn,
            white,
            black,
            result,
            time_control,
            time_class,
            game_url,
            end_time,
        ),
        second == analysis_of(
            initial_position(),
            pgn,
            white,
            black,
            result,
            time_control,
            time_class,
            game_url,
            end_time,
        ),
    ensures
        first == second,
{
}

/// Gathers what the classifier reads of a legal move.
pub fn gather_traits(pos: &Position, m: &ChessMove) -> (t: MoveTraits)
    requires
        m.wf(),
        legal_moves_of(pos@).contains(*m),
    ensures
        t == traits_of(pos@, *m),
        t.legal_moves == legal_moves_of(pos@).len(),
{
    let legal = pos.legal_moves();
    let test_pos = pos.after(m);
    MoveTraits {
        legal_moves: legal.len(),
        is_capture: m.is_capture(),
        is_promotion: m.is_promotion(),
        is_castle: m.is_castle(),
        gives_check: test_pos.is_check(),
        is_checkmate: test_pos.is_checkmate(),
    }
}

/// Labels a legal move that is not a book move.
///
/// In this order: the only legal move is forced; a mating move is
/// brilliant, and so is a promotion with check; castling before ply 20 is
/// good; a capture with check is great; any other move gets the label of
/// its hash residue.
pub fn classify_move(pos: &Position, m: &ChessMove, move_index: usize, total_moves: usize) -> (c:
    MoveClassification)
    requires
        m.wf(),
        legal_moves_of(pos@).contains(*m),
    ensures
        c == heuristic_label(traits_of(pos@, *m), move_index, total_moves),
        c == MoveClassification::ForcedMove <==> legal_moves_of(pos@).len() == 1,
        c != MoveClassification::Book,
{
    let traits = gather_traits(pos, m);
    classify_traits(&traits, move_index, total_moves)
}

/// Replays the candidate moves of a game from `start` and records every
/// move that is legal where it is played.
///
/// A token that is no well-formed notation, or that denotes no legal move or
/// more than one, is passed over: it leaves no record and changes nothing.
/// The plies are counted by the moves that were played.
pub fn walk_moves(start: Position, tokens: &Vec<String>, book: usize) -> (moves: Vec<MoveAnalysis>)
    ensures
        records(moves@) == walk(start@, texts(tokens@), book as int, tokens.len() as int).moves,
        moves.len() <= tokens.len(),
        forall|k: int|
            0 <= k < moves.len() ==> #[trigger] is_record_at(records(moves@), book as int, k),
{
    let ghost toks = texts(tokens@);
    let ghost first = start@;
    let total = tokens.len();
    let mut pos = start;
    let mut moves: Vec<MoveAnalysis> = Vec::new();
    let mut eval: i32 = START_EVAL;
    let mut i: usize = 0;
    while i < total
        invariant
            i <= total,
            total == tokens.len(),
            toks == texts(tokens@),
            pos@ == walk(first, toks, book as int, i as int).pos,
            eval == walk(first, toks, book as int, i as int).eval,
            records(moves@) == walk(first, toks, book as int, i as int).moves,
            moves.len() <= i,
        decreases total - i,
    {
        let ghost before = walk(first, toks, book as int, i as int);
        let san_str = &tokens[i];
        match pos.read_move(san_str.as_str()) {
            None => {},
            Some(m) => {
                let ply = moves.len();
                let white = ply % 2 == 0;
                let color = if white {
                    "white"
                } else {
                    "black"
                };
                let move_number: u64 = (ply / 2) as u64 + 1;
                let is_book = ply < book;
                let classification = if is_book {
                    MoveClassification::Book
                } else {
                    classify_move(&pos, &m, ply, total)
                };
                eval = next_eval(eval, classification, white);
                let comment = generate_comment(&classification, san_str.as_str(), color, move_number);
                let squares = extract_move_squares(&m);
                let fen_before = pos.fen();
                let weak = match classification {
                    MoveClassification::Inaccuracy
                    | MoveClassification::Mistake
                    | MoveClassification::Blunder => true,
                    _ => false,
                };
                let best = if weak {
                    find_best_move(&pos, &m)
                } else {
                    (None, None, None)
                };
                pos.play(&m);
                let fen_after = pos.fen();
                let record = MoveAnalysis {
                    move_number,
                    san: san_str.clone(),
                    color: color.to_owned(),
                    classification,
                    comment,
                    is_book_move: is_book,
                    fen_after,
                    played_from: Some(squares.0),
                    played_to: Some(squares.1),
                    best_move_san: best.0,
                    best_from: best.1,
                    best_to: best.2,
                    fen_before,
                    eval_score: eval,
                };
                assert(record@ == record_of(
                    before.pos,
                    m,
                    toks[i as int],
                    ply as int,
                    total as int,
                    book as int,
                    before.eval,
                ));
                moves.push(record);
            },
        }
        i = i + 1;
    }
    proof {
        lemma_walk_records(first, toks, book as int, total as int);
    }
    moves
}

/// Analyses a finished game.
///
/// The move text is what follows the header tags of `pgn_text`. Its
/// candidate moves are replayed from the initial position; each move that is
/// legal where it stands gets a record with its label, a remark, the
/// positions before and after it, the running evaluation and, if it is weak,
/// a better move. The tallies and the key moments are drawn from the
/// records. The date is the one of the header or else the day of `end_time`.
pub fn analyze_game(
    pgn_text: &str,
    white: &str,
    black: &str,
    result: &str,
    time_control: &str,
    time_class: &str,
    game_url: &str,
    end_time: u64,
) -> (r: Result<GameAnalysis, String>)
    ensures
        r matches Ok(analysis) && {
            &&& analysis@ == analysis_of(
                initial_position(),
                pgn_text@,
                white@,
                black@,
                result@,
                time_control@,
                time_class@,
                game_url@,
                end_time,
            )
            &&& analysis.moves.len() <= candidate_moves(moves_text(pgn_text@)).len() <= words(
                moves_text(pgn_text@),
            ).len() <= words(pgn_text@).len()
            &&& forall|k: int|
                0 <= k < analysis.moves.len() ==> #[trigger] is_record_at(
                    analysis@.moves,
                    book_moves(candidate_moves(moves_text(pgn_text@))),
                    k,
                )
            &&& forall|k: int|
                0 <= k < analysis.moves.len() ==> -EVAL_LIMIT <= (
                #[trigger] analysis.moves[k]).eval_score <= EVAL_LIMIT
            &&& analysis.summary.accuracy <= 1000
            &&& analysis.moves.len() == 0 ==> analysis.summary.accuracy == 0
            &&& analysis.key_moments.len() <= MAX_KEY_MOMENTS
            &&& forall|a: int, b: int|
                0 <= a < b < analysis.key_moments.len() ==> analysis.key_moments[a].move_index
                    < analysis.key_moments[b].move_index
        },
{
    let moves_text = extract_moves_from_pgn(pgn_text);
    let opening_name = extract_opening_from_pgn(pgn_text);
    let date = match extract_date_from_pgn(pgn_text) {
        Some(d) => d,
        None => format_timestamp(end_time),
    };
    let san_moves = parse_san_moves(moves_text.as_str());
    let book_moves_count = detect_book_moves(san_moves.as_slice());
    let moves = walk_moves(Position::new(), &san_moves, book_moves_count);
    let summary = calculate_summary(moves.as_slice(), &opening_name);
    let key_moments = detect_key_moments(moves.as_slice());
    proof {
        lemma_move_text_words_fit(pgn_text@);
        assert forall|k: int| 0 <= k < moves.len() implies -EVAL_LIMIT <= (
        #[trigger] moves[k]).eval_score <= EVAL_LIMIT by {
            assert(is_record_at(records(moves@), book_moves_count as int, k));
            assert(records(moves@)[k] == moves[k]@);
        }
    }
    Ok(
        GameAnalysis {
            game_url: game_url.to_owned(),
            white: white.to_owned(),
            black: black.to_owned(),
            result: result.to_owned(),
            time_control: time_control.to_owned(),
            time_class: time_class.to_owned(),
            date,
            pgn: pgn_text.to_owned(),
            moves,
            summary,
            key_moments,
        },
    )
}

} // verus!
