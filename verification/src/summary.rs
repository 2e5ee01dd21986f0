//! The tallies of a game and its accuracy.

use vstd::prelude::*;
use crate::models::{
    labels, opt_text, records, GameSummary, MoveAnalysis, MoveClassification, MoveRecord,
    SummaryRecord,
};

verus! {

/// How many of the first `n` labels are `c`.
pub open spec fn count_of(ls: Seq<MoveClassification>, c: MoveClassification, n: int) -> nat
    decreases n,
{
    if n <= 0 {
        0
    } else {
        count_of(ls, c, n - 1) + if ls[n - 1] == c {
            1nat
        } else {
            0nat
        }
    }
}

/// How many of the labels are brilliant, great, best or good.
pub open spec fn sound_count(ls: Seq<MoveClassification>) -> nat {
    let n = ls.len() as int;
    count_of(ls, MoveClassification::Brilliant, n) + count_of(ls, MoveClassification::Great, n)
        + count_of(ls, MoveClassification::Best, n) + count_of(ls, MoveClassification::Good, n)
}

/// The share of `sound` in `total` as tenths of a percent, rounded to the
/// nearest tenth (a half rounds up) and never above 1000; 0 for no moves.
pub open spec fn accuracy_of(sound: nat, total: nat) -> nat {
    if total == 0 {
        0
    } else {
        let tenths = (2000 * sound + total) / (2 * total);
        if tenths > 1000 {
            1000
        } else {
            tenths
        }
    }
}

/// The summary of a game with the given moves and opening name.
pub open spec fn summary_of(ms: Seq<MoveRecord>, opening: Option<Seq<char>>) -> SummaryRecord {
    let ls = labels(ms);
    let n = ls.len() as int;
    SummaryRecord {
        total_moves: ms.len(),
        brilliancies: count_of(ls, MoveClassification::Brilliant, n),
        great_moves: count_of(ls, MoveClassification::Great, n),
        best_moves: count_of(ls, MoveClassification::Best, n),
        good_moves: count_of(ls, MoveClassification::Good, n),
        inaccuracies: count_of(ls, MoveClassification::Inaccuracy, n),
        mistakes: count_of(ls, MoveClassification::Mistake, n),
        blunders: count_of(ls, MoveClassification::Blunder, n),
        accuracy: accuracy_of(sound_count(ls), ms.len()),
        opening_name: opening,
    }
}

/// The labels that are tallied are distinct, so their counts never exceed
/// the number of moves looked at.
pub proof fn lemma_counts_fit(ls: Seq<MoveClassification>, n: int)
    requires
        0 <= n,
    ensures
        count_of(ls, MoveClassification::Brilliant, n) + count_of(
            ls,
            MoveClassification::Great,
            n,
        ) + count_of(ls, MoveClassification::Best, n) + count_of(ls, MoveClassification::Good, n)
            + count_of(ls, MoveClassification::Inaccuracy, n) + count_of(
            ls,
            MoveClassification::Mistake,
            n,
        ) + count_of(ls, MoveClassification::Blunder, n) <= n,
    decreases n,
{
    if n > 0 {
        lemma_counts_fit(ls, n - 1);
    }
}

/// The accuracy lies between 0 and 100 percent, and it is 0 for a game
/// without moves.
pub proof fn lemma_accuracy_bounded(sound: nat, total: nat)
    ensures
        0 <= accuracy_of(sound, total) <= 1000,
        total == 0 ==> accuracy_of(sound, total) == 0,
{
}

/// The accuracy and the tallies of every game obey the bounds: the accuracy
/// is at most 100 percent, 0 without moves, and no more moves are tallied
/// than were played.
pub proof fn lemma_summary_bounded(ms: Seq<MoveRecord>, opening: Option<Seq<char>>)
    ensures
        summary_of(ms, opening).accuracy <= 1000,
        ms.len() == 0 ==> summary_of(ms, opening).accuracy == 0,
        sound_count(labels(ms)) <= ms.len(),
{
    lemma_counts_fit(labels(ms), ms.len() as int);
}

/// The accuracy of `sound` moves out of `total`, in tenths of a percent.
pub fn accuracy(sound: u64, total: u64) -> (r: u32)
    ensures
        r == accuracy_of(sound as nat, total as nat),
        r <= 1000,
{
    if total == 0 {
        0
    } else {
        let tenths: u128 = (2000 * (sound as u128) + (total as u128)) / (2 * (total as u128));
        if tenths > 1000 {
            1000
        } else {
            tenths as u32
        }
    }
}

/// Tallies the labels of a game and computes its accuracy.
///
/// Book moves and forced moves are counted in `total_moves` only.
pub fn calculate_summary(moves: &[MoveAnalysis], opening: &Option<String>) -> (r: GameSummary)
    ensures
        r@ == summary_of(records(moves@), opt_text(*opening)),
        r.accuracy <= 1000,
        moves.len() == 0 ==> r.accuracy == 0,
{
    let ghost ls = labels(records(moves@));
    let mut brilliancies: u64 = 0;
    let mut great_moves: u64 = 0;
    let mut best_moves: u64 = 0;
    let mut good_moves: u64 = 0;
    let mut inaccuracies: u64 = 0;
    let mut mistakes: u64 = 0;
    let mut blunders: u64 = 0;
    let n = moves.len();
    let mut i: usize = 0;
    while i < n
        invariant
            i <= n,
            n == moves.len(),
            ls == labels(records(moves@)),
            brilliancies == count_of(ls, MoveClassification::Brilliant, i as int),
            great_moves == count_of(ls, MoveClassification::Great, i as int),
            best_moves == count_of(ls, MoveClassification::Best, i as int),
            good_moves == count_of(ls, MoveClassification::Good, i as int),
            inaccuracies == count_of(ls, MoveClassification::Inaccuracy, i as int),
            mistakes == count_of(ls, MoveClassification::Mistake, i as int),
            blunders == count_of(ls, MoveClassification::Blunder, i as int),
        decreases n - i,
    {
        proof {
            lemma_counts_fit(ls, i as int);
        }
        match moves[i].classification {
            MoveClassification::Brilliant => brilliancies = brilliancies + 1,
            MoveClassification::Great => great_moves = great_moves + 1,
            MoveClassification::Best => best_moves = best_moves + 1,
            MoveClassification::Good => good_moves = good_moves + 1,
            MoveClassification::Inaccuracy => inaccuracies = inaccuracies + 1,
            MoveClassification::Mistake => mistakes = mistakes + 1,
            MoveClassification::Blunder => blunders = blunders + 1,
            _ => {},
        }
        i = i + 1;
    }
    proof {
        lemma_counts_fit(ls, n as int);
    }
    let sound = brilliancies + great_moves + best_moves + good_moves;
    let opening_name = match opening {
        Some(name) => Some(name.clone()),
        None => None,
    };
    GameSummary {
        total_moves: n as u64,
        brilliancies,
        great_moves,
        best_moves,
        good_moves,
        inaccuracies,
        mistakes,
        blunders,
        accuracy: accuracy(sound, n as u64),
        opening_name,
    }
}

} // verus!
