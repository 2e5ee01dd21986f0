//! The key moments of a game: the moves that are ranked first by severity,
//! at most seven of them, in the order in which they were played.

use vstd::prelude::*;
use crate::models::{
    labels, moment_records, records, KeyMoment, MomentRecord, MoveAnalysis, MoveClassification,
    MoveRecord,
};
use crate::text::{append_decimal, append_str, decimal, string_of};

verus! {

/// How many key moments a game keeps at most.
pub const MAX_KEY_MOMENTS: usize = 7;

/// The severity rank of the move at `i`: 0 for a blunder (critical), 1 for a
/// mistake (major), 2 for a brilliancy or for an inaccuracy that the next
/// move follows with another weak move (notable), 3 for a move that is no
/// key moment.
pub open spec fn rank_at(ls: Seq<MoveClassification>, i: int) -> int {
    match ls[i] {
        MoveClassification::Blunder => 0,
        MoveClassification::Mistake => 1,
        MoveClassification::Brilliant => 2,
        MoveClassification::Inaccuracy => if i + 1 < ls.len() && ls[i + 1].is_weak() {
            2
        } else {
            3
        },
        _ => 3,
    }
}

/// Whether the move at `j` is a candidate that comes before the move at `i`
/// when candidates are ordered by severity rank, then by index.
pub open spec fn precedes(ls: Seq<MoveClassification>, j: int, i: int) -> bool {
    rank_at(ls, j) < 3 && (rank_at(ls, j) < rank_at(ls, i) || (rank_at(ls, j) == rank_at(ls, i)
        && j < i))
}

/// How many of the first `n` moves precede the move at `i`.
pub open spec fn ahead(ls: Seq<MoveClassification>, i: int, n: int) -> nat
    decreases n,
{
    if n <= 0 {
        0
    } else {
        ahead(ls, i, n - 1) + if precedes(ls, n - 1, i) {
            1nat
        } else {
            0nat
        }
    }
}

/// Whether the move at `i` is a key moment: a candidate with fewer than
/// seven candidates before it in the severity order.
pub open spec fn is_key_moment(ls: Seq<MoveClassification>, i: int) -> bool {
    rank_at(ls, i) < 3 && ahead(ls, i, ls.len() as int) < MAX_KEY_MOMENTS
}

/// The severity tag of a rank.
pub open spec fn severity_text(rank: int) -> Seq<char> {
    if rank == 0 {
        "critical"@
    } else if rank == 1 {
        "major"@
    } else {
        "notable"@
    }
}

/// What is said of a key moment with the given label.
pub open spec fn moment_remark(c: MoveClassification) -> Seq<char> {
    match c {
        MoveClassification::Blunder => " \u{2014} a blunder that significantly changed the game."@,
        MoveClassification::Mistake => " \u{2014} a mistake that gave away advantage."@,
        MoveClassification::Brilliant => " \u{2014} a brilliant find!"@,
        _ => " \u{2014} inaccuracy leading to further trouble."@,
    }
}

/// The key moment made of the move at `i`.
pub open spec fn moment_at(ms: Seq<MoveRecord>, i: int) -> MomentRecord {
    let m = ms[i];
    MomentRecord {
        move_index: i,
        move_number: m.move_number,
        san: m.san,
        color: m.color,
        classification: m.classification.name_text(),
        description: decimal(m.move_number) + ". "@ + m.san + moment_remark(m.classification),
        severity: severity_text(rank_at(labels(ms), i)),
    }
}

/// The key moments among the first `n` moves, in the order of play.
pub open spec fn key_moments_upto(ms: Seq<MoveRecord>, n: int) -> Seq<MomentRecord>
    decreases n,
{
    if n <= 0 {
        Seq::empty()
    } else if is_key_moment(labels(ms), n - 1) {
        key_moments_upto(ms, n - 1).push(moment_at(ms, n - 1))
    } else {
        key_moments_upto(ms, n - 1)
    }
}

/// The key moments of a game, in the order of play.
pub open spec fn key_moments_of(ms: Seq<MoveRecord>) -> Seq<MomentRecord> {
    key_moments_upto(ms, ms.len() as int)
}

/// How many of the first `n` moves have severity rank `r`.
spec fn with_rank(ls: Seq<MoveClassification>, r: int, n: int) -> nat
    decreases n,
{
    if n <= 0 {
        0
    } else {
        with_rank(ls, r, n - 1) + if rank_at(ls, n - 1) == r {
            1nat
        } else {
            0nat
        }
    }
}

proof fn lemma_with_rank_grows(ls: Seq<MoveClassification>, r: int, a: int, b: int)
    requires
        0 <= a <= b,
    ensures
        with_rank(ls, r, a) <= with_rank(ls, r, b),
    decreases b,
{
    if a < b {
        lemma_with_rank_grows(ls, r, a, b - 1);
    }
}

proof fn lemma_ranks_fit(ls: Seq<MoveClassification>, n: int)
    requires
        0 <= n,
    ensures
        with_rank(ls, 0, n) + with_rank(ls, 1, n) + with_rank(ls, 2, n) <= n,
    decreases n,
{
    if n > 0 {
        lemma_ranks_fit(ls, n - 1);
    }
}

/// The candidates before the move at `i` are all those of a lower rank and
/// those of its own rank that were played earlier.
proof fn lemma_ahead_by_rank(ls: Seq<MoveClassification>, i: int, n: int)
    requires
        0 <= i,
        0 <= n,
        rank_at(ls, i) < 3,
    ensures
        ahead(ls, i, n) == (if rank_at(ls, i) > 0 {
            with_rank(ls, 0, n)
        } else {
            0
        }) + (if rank_at(ls, i) > 1 {
            with_rank(ls, 1, n)
        } else {
            0
        }) + with_rank(ls, rank_at(ls, i), if n <= i {
            n
        } else {
            i
        }),
    decreases n,
{
    if n > 0 {
        lemma_ahead_by_rank(ls, i, n - 1);
    }
}

/// How many candidates of rank `r` may be retained: what the candidates of
/// lower ranks leave of the seven places.
spec fn room(ls: Seq<MoveClassification>, r: int) -> int {
    let len = ls.len() as int;
    let lower = (if r > 0 {
        with_rank(ls, 0, len)
    } else {
        0
    }) + (if r > 1 {
        with_rank(ls, 1, len)
    } else {
        0
    });
    if lower >= MAX_KEY_MOMENTS {
        0
    } else {
        MAX_KEY_MOMENTS - lower
    }
}

/// How many of the first `n` moves are retained with rank `r`.
spec fn kept(ls: Seq<MoveClassification>, r: int, n: int) -> int {
    if with_rank(ls, r, n) <= room(ls, r) {
        with_rank(ls, r, n) as int
    } else {
        room(ls, r)
    }
}

/// The key moments among the first `n` moves are the retained candidates of
/// each rank, in the order of play.
proof fn lemma_key_moments_by_rank(ms: Seq<MoveRecord>, n: int)
    requires
        0 <= n <= ms.len(),
    ensures
        key_moments_upto(ms, n).len() == kept(labels(ms), 0, n) + kept(labels(ms), 1, n) + kept(
            labels(ms),
            2,
            n,
        ),
        key_moments_upto(ms, n).len() <= MAX_KEY_MOMENTS,
        forall|k: int|
            0 <= k < key_moments_upto(ms, n).len() ==> 0 <= (#[trigger] key_moments_upto(
                ms,
                n,
            )[k]).move_index < n,
        forall|a: int, b: int|
            0 <= a < b < key_moments_upto(ms, n).len() ==> (#[trigger] key_moments_upto(
                ms,
                n,
            )[a]).move_index < (#[trigger] key_moments_upto(ms, n)[b]).move_index,
    decreases n,
{
    let ls = labels(ms);
    let len = ls.len() as int;
    lemma_ranks_fit(ls, len);
    lemma_with_rank_grows(ls, 0, n, len);
    lemma_with_rank_grows(ls, 1, n, len);
    lemma_with_rank_grows(ls, 2, n, len);
    if n > 0 {
        lemma_key_moments_by_rank(ms, n - 1);
        lemma_with_rank_grows(ls, 0, n - 1, len);
        lemma_with_rank_grows(ls, 1, n - 1, len);
        lemma_with_rank_grows(ls, 2, n - 1, len);
        if rank_at(ls, n - 1) < 3 {
            lemma_ahead_by_rank(ls, n - 1, len);
        }
    }
}

/// No game has more than seven key moments, each is a move of the game, and
/// they are listed in the order of play.
pub proof fn lemma_key_moments_bounded(ms: Seq<MoveRecord>)
    ensures
        key_moments_of(ms).len() <= MAX_KEY_MOMENTS,
        forall|k: int|
            0 <= k < key_moments_of(ms).len() ==> 0 <= (#[trigger] key_moments_of(
                ms,
            )[k]).move_index < ms.len(),
        forall|a: int, b: int|
            0 <= a < b < key_moments_of(ms).len() ==> (#[trigger] key_moments_of(
                ms,
            )[a]).move_index < (#[trigger] key_moments_of(ms)[b]).move_index,
{
    lemma_key_moments_by_rank(ms, ms.len() as int);
}

/// The severity rank of the move at `i` (see [`rank_at`]).
fn rank_of(moves: &[MoveAnalysis], i: usize) -> (r: u8)
    requires
        i < moves.len(),
    ensures
        r as int == rank_at(labels(records(moves@)), i as int),
{
    match moves[i].classification {
        MoveClassification::Blunder => 0,
        MoveClassification::Mistake => 1,
        MoveClassification::Brilliant => 2,
        MoveClassification::Inaccuracy => {
            if i + 1 < moves.len() {
                match moves[i + 1].classification {
                    MoveClassification::Mistake
                    | MoveClassification::Blunder
                    | MoveClassification::Inaccuracy => 2,
                    _ => 3,
                }
            } else {
                3
            }
        },
        _ => 3,
    }
}

/// The key moment made of the move at `i`, which has rank `rank`.
fn make_moment(moves: &[MoveAnalysis], i: usize, rank: u8) -> (k: KeyMoment)
    requires
        i < moves.len(),
        rank < 3,
        rank as int == rank_at(labels(records(moves@)), i as int),
    ensures
        k@ == moment_at(records(moves@), i as int),
{
    let m = &moves[i];
    let mut d: Vec<char> = Vec::new();
    append_decimal(&mut d, m.move_number);
    append_str(&mut d, ". ");
    append_str(&mut d, m.san.as_str());
    let remark = match m.classification {
        MoveClassification::Blunder => " \u{2014} a blunder that significantly changed the game.",
        MoveClassification::Mistake => " \u{2014} a mistake that gave away advantage.",
        MoveClassification::Brilliant => " \u{2014} a brilliant find!",
        _ => " \u{2014} inaccuracy leading to further trouble.",
    };
    append_str(&mut d, remark);
    let severity = if rank == 0 {
        "critical"
    } else if rank == 1 {
        "major"
    } else {
        "notable"
    };
    KeyMoment {
        move_index: i,
        move_number: m.move_number,
        san: m.san.clone(),
        color: m.color.clone(),
        classification: m.classification.name().to_owned(),
        description: string_of(&d),
        severity: severity.to_owned(),
    }
}

/// Picks the key moments of a game.
///
/// A blunder is critical, a mistake major, a brilliancy notable, and so is
/// an inaccuracy that is followed at once by another weak move. Candidates
/// are ranked by severity, then by the order of play; the first seven are
/// kept and returned in the order of play.
pub fn detect_key_moments(moves: &[MoveAnalysis]) -> (r: Vec<KeyMoment>)
    ensures
        moment_records(r@) == key_moments_of(records(moves@)),
        r.len() <= MAX_KEY_MOMENTS,
        forall|a: int, b: int| 0 <= a < b < r.len() ==> r[a].move_index < r[b].move_index,
        forall|a: int| 0 <= a < r.len() ==> r[a].move_index < moves.len(),
{
    let ghost ms = records(moves@);
    let ghost ls = labels(ms);
    let n = moves.len();
    // How many blunders and how many mistakes the game holds.
    let mut blunders: usize = 0;
    let mut mistakes: usize = 0;
    let mut i: usize = 0;
    while i < n
        invariant
            i <= n,
            n == moves.len(),
            ls == labels(records(moves@)),
            blunders == with_rank(ls, 0, i as int),
            mistakes == with_rank(ls, 1, i as int),
            blunders + mistakes <= i,
        decreases n - i,
    {
        let rank = rank_of(moves, i);
        if rank == 0 {
            blunders = blunders + 1;
        } else if rank == 1 {
            mistakes = mistakes + 1;
        }
        i = i + 1;
    }
    let room0: usize = MAX_KEY_MOMENTS;
    let room1: usize = if blunders >= MAX_KEY_MOMENTS {
        0
    } else {
        MAX_KEY_MOMENTS - blunders
    };
    let room2: usize = if mistakes >= room1 {
        0
    } else {
        room1 - mistakes
    };
    let mut out: Vec<KeyMoment> = Vec::new();
    let mut seen0: usize = 0;
    let mut seen1: usize = 0;
    let mut seen2: usize = 0;
    let mut k: usize = 0;
    while k < n
        invariant
            k <= n,
            n == moves.len(),
            ms == records(moves@),
            ls == labels(ms),
            ls.len() == n,
            room0 == room(ls, 0),
            room1 == room(ls, 1),
            room2 == room(ls, 2),
            seen0 == with_rank(ls, 0, k as int),
            seen1 == with_rank(ls, 1, k as int),
            seen2 == with_rank(ls, 2, k as int),
            seen0 + seen1 + seen2 <= k,
            moment_records(out@) == key_moments_upto(ms, k as int),
        decreases n - k,
    {
        let rank = rank_of(moves, k);
        proof {
            lemma_ranks_fit(ls, k as int + 1);
            if rank < 3 {
                lemma_ahead_by_rank(ls, k as int, n as int);
            }
        }
        let keep = if rank == 0 {
            let b = seen0 < room0;
            seen0 = seen0 + 1;
            b
        } else if rank == 1 {
            let b = seen1 < room1;
            seen1 = seen1 + 1;
            b
        } else if rank == 2 {
            let b = seen2 < room2;
            seen2 = seen2 + 1;
            b
        } else {
            false
        };
        if keep {
            let m = make_moment(moves, k, rank);
            out.push(m);
        }
        k = k + 1;
    }
    proof {
        lemma_key_moments_bounded(ms);
        assert(forall|a: int|
            0 <= a < out.len() ==> #[trigger] out[a].move_index as int == key_moments_upto(
                ms,
                n as int,
            )[a].move_index);
    }
    out
}

} // verus!
