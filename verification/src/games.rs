//! Keeping a player's games up to date: where the game archive is asked,
//! which of its monthly archives is fetched next, which of the fetched games
//! are new, and which of them are shown.

use vstd::prelude::*;
use crate::models::ChessComGame;
use crate::text::{append_str, lowercase, lowercase_of, string_of};

verus! {

/// When a game ended, in seconds since 1970; 0 where the archive does not
/// say.
pub open spec fn end_key(g: ChessComGame) -> u64 {
    match g.end_time {
        Some(t) => t,
        None => 0,
    }
}

/// Where the archive describes a player.
pub open spec fn profile_address(username: Seq<char>) -> Seq<char> {
    "https://api.chess.com/pub/player/"@ + lowercase_of(username)
}

/// Where the archive gives a player's ratings.
pub open spec fn stats_address(username: Seq<char>) -> Seq<char> {
    profile_address(username) + "/stats"@
}

/// Where the archive lists a player's monthly archives.
pub open spec fn archives_address(username: Seq<char>) -> Seq<char> {
    profile_address(username) + "/games/archives"@
}

/// What is done next while a player's recent games are collected.
#[derive(Debug, Clone, Copy, PartialEq, Eq, Structural)]
pub enum FetchStep {
    /// Fetch the monthly archive at this place of the player's list.
    Fetch(usize),
    /// Enough was fetched.
    Done,
}

/// What is done next when `fetched` of `archives` monthly archives were
/// fetched and they held `collected` games: the archives are fetched from
/// the newest to the oldest, the newest always, the others as long as fewer
/// than `limit` games were collected.
pub open spec fn fetch_step(archives: usize, fetched: usize, collected: usize, limit: usize)
    -> FetchStep {
    if fetched < archives && (fetched == 0 || collected < limit) {
        FetchStep::Fetch((archives - 1 - fetched) as usize)
    } else {
        FetchStep::Done
    }
}

/// Whether a game ended after the latest game that is stored. Where nothing
/// is stored every game is new.
pub open spec fn is_new(g: ChessComGame, latest: Option<u64>) -> bool {
    match latest {
        Some(t) => end_key(g) > t,
        None => true,
    }
}

/// Where `g` is put into games that are listed newest first, looking
/// backwards from `j`: behind every game that did not end earlier than `g`.
pub open spec fn place_of(sorted: Seq<ChessComGame>, g: ChessComGame, j: int) -> int
    decreases j,
{
    if 0 < j <= sorted.len() && end_key(sorted[j - 1]) < end_key(g) {
        place_of(sorted, g, j - 1)
    } else {
        j
    }
}

/// The first `n` of `games`, listed newest first. Games that ended at the
/// same time stay in the order in which they were given.
pub open spec fn newest_first(games: Seq<ChessComGame>, n: int) -> Seq<ChessComGame>
    decreases n,
{
    if n <= 0 {
        Seq::empty()
    } else {
        let sorted = newest_first(games, n - 1);
        sorted.insert(place_of(sorted, games[n - 1], sorted.len() as int), games[n - 1])
    }
}

/// Whether no game of `s` ended later than a game before it.
pub open spec fn is_newest_first(s: Seq<ChessComGame>) -> bool {
    forall|i: int, j: int| 0 <= i < j < s.len() ==> end_key(s[i]) >= end_key(s[j])
}

/// The `limit` most recent of `games`, newest first.
pub open spec fn most_recent(games: Seq<ChessComGame>, limit: int) -> Seq<ChessComGame> {
    let sorted = newest_first(games, games.len() as int);
    if limit < sorted.len() {
        sorted.take(limit)
    } else {
        sorted
    }
}

proof fn lemma_place_of(sorted: Seq<ChessComGame>, g: ChessComGame, j: int)
    requires
        0 <= j <= sorted.len(),
    ensures
        0 <= place_of(sorted, g, j) <= j,
        forall|k: int| place_of(sorted, g, j) <= k < j ==> end_key(sorted[k]) < end_key(g),
        place_of(sorted, g, j) > 0 ==> end_key(sorted[place_of(sorted, g, j) - 1]) >= end_key(g),
    decreases j,
{
    if 0 < j && end_key(sorted[j - 1]) < end_key(g) {
        lemma_place_of(sorted, g, j - 1);
    }
}

/// Listing games newest first keeps every game, each as often as it was
/// given, and leaves no game behind one that ended earlier.
pub proof fn lemma_newest_first_sorts(games: Seq<ChessComGame>, n: int)
    requires
        0 <= n <= games.len(),
    ensures
        newest_first(games, n).len() == n,
        newest_first(games, n).to_multiset() == games.take(n).to_multiset(),
        is_newest_first(newest_first(games, n)),
    decreases n,
{
    if n <= 0 {
        assert(games.take(n) == Seq::<ChessComGame>::empty());
    } else {
        lemma_newest_first_sorts(games, n - 1);
        let sorted = newest_first(games, n - 1);
        let g = games[n - 1];
        let p = place_of(sorted, g, sorted.len() as int);
        lemma_place_of(sorted, g, sorted.len() as int);
        let out = sorted.insert(p, g);
        assert(out.to_multiset() == games.take(n).to_multiset()) by {
            vstd::seq_lib::to_multiset_insert(sorted, p, g);
            vstd::seq_lib::to_multiset_insert(games.take(n - 1), n - 1, g);
            assert(games.take(n) == games.take(n - 1).insert(n - 1, g));
        }
    }
}

/// The address at which the archive describes a player. The archive names
/// players in lower case.
pub fn profile_url(username: &str) -> (r: String)
    ensures
        r@ == profile_address(username@),
{
    let mut out: Vec<char> = Vec::new();
    append_str(&mut out, "https://api.chess.com/pub/player/");
    assert(out@ == "https://api.chess.com/pub/player/"@) by {
        assert(Seq::<char>::empty() + "https://api.chess.com/pub/player/"@
            == "https://api.chess.com/pub/player/"@);
    }
    let lower = lowercase(username);
    append_str(&mut out, lower.as_str());
    string_of(&out)
}

/// The address at which the archive gives a player's ratings.
pub fn stats_url(username: &str) -> (r: String)
    ensures
        r@ == stats_address(username@),
{
    let mut out = crate::text::chars_of(profile_url(username).as_str());
    append_str(&mut out, "/stats");
    string_of(&out)
}

/// The address at which the archive lists a player's monthly archives.
pub fn archives_url(username: &str) -> (r: String)
    ensures
        r@ == archives_address(username@),
{
    let mut out = crate::text::chars_of(profile_url(username).as_str());
    append_str(&mut out, "/games/archives");
    string_of(&out)
}

/// Decides what is done next while a player's recent games are collected.
pub fn next_fetch(archives: usize, fetched: usize, collected: usize, limit: usize) -> (r:
    FetchStep)
    ensures
        r == fetch_step(archives, fetched, collected, limit),
{
    if fetched < archives && (fetched == 0 || collected < limit) {
        FetchStep::Fetch(archives - 1 - fetched)
    } else {
        FetchStep::Done
    }
}

/// When a game ended; 0 where the archive does not say.
fn end_of(g: &ChessComGame) -> (t: u64)
    ensures
        t == end_key(*g),
{
    match g.end_time {
        Some(t) => t,
        None => 0,
    }
}

/// The games that ended after the latest game that is stored, in the order
/// in which they were given.
pub fn games_after(games: Vec<ChessComGame>, latest: Option<u64>) -> (r: Vec<ChessComGame>)
    ensures
        r@ == games@.filter(|g: ChessComGame| is_new(g, latest)),
{
    let ghost all = games@;
    let ghost keep = |g: ChessComGame| is_new(g, latest);
    let mut rest = games;
    let mut out: Vec<ChessComGame> = Vec::new();
    let ghost mut k: int = 0;
    while rest.len() > 0
        invariant
            0 <= k <= all.len(),
            rest@ == all.skip(k),
            keep == |g: ChessComGame| is_new(g, latest),
            out@ == all.take(k).filter(keep),
        decreases rest.len(),
    {
        let g = rest.remove(0);
        proof {
            all.lemma_take_succ_push(k);
            all.take(k).lemma_filter_push(all[k], keep);
        }
        let fresh = match latest {
            Some(t) => end_of(&g) > t,
            None => true,
        };
        if fresh {
            out.push(g);
        }
        proof {
            k = k + 1;
        }
    }
    proof {
        all.lemma_take_len();
    }
    out
}

/// The `limit` most recent of the games, newest first.
pub fn newest_games(games: Vec<ChessComGame>, limit: usize) -> (r: Vec<ChessComGame>)
    ensures
        r@ == most_recent(games@, limit as int),
        r.len() <= limit,
        r.len() <= games.len(),
        is_newest_first(r@),
{
    let ghost all = games@;
    let mut rest = games;
    let mut out: Vec<ChessComGame> = Vec::new();
    let ghost mut k: int = 0;
    while rest.len() > 0
        invariant
            0 <= k <= all.len(),
            rest@ == all.skip(k),
            out@ == newest_first(all, k),
            out.len() == k,
        decreases rest.len(),
    {
        let g = rest.remove(0);
        let key = end_of(&g);
        let mut p: usize = out.len();
        while p > 0 && end_of(&out[p - 1]) < key
            invariant
                p <= out.len(),
                key == end_key(g),
                place_of(out@, g, out.len() as int) == place_of(out@, g, p as int),
            decreases p,
        {
            p = p - 1;
        }
        proof {
            lemma_newest_first_sorts(all, k + 1);
        }
        out.insert(p, g);
        proof {
            k = k + 1;
        }
    }
    proof {
        lemma_newest_first_sorts(all, all.len() as int);
    }
    if limit < out.len() {
        out.truncate(limit);
    }
    out
}

} // verus!
