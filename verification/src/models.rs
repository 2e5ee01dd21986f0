//! The data of the application: what the game archive sends, what an
//! analysis holds, and the entries of the opening and lesson catalogues.
//!
//! Scores are fixed-point integers: an evaluation counts hundredths of a
//! pawn, an accuracy counts tenths of a percent. Move numbers and tallies
//! are 64 bits wide, so that no game is too long to be counted.

use vstd::prelude::*;
use crate::text::texts;

verus! {

/// A player as the game archive describes one side of a game.
#[derive(Debug, Clone)]
pub struct ChessComPlayer {
    pub username: String,
    pub rating: Option<u32>,
    pub result: String,
    pub id: Option<String>,
}

/// A finished game as the game archive lists it.
#[derive(Debug, Clone)]
pub struct ChessComGame {
    pub url: String,
    pub pgn: Option<String>,
    pub time_control: Option<String>,
    pub end_time: Option<u64>,
    pub rated: Option<bool>,
    pub time_class: Option<String>,
    pub rules: Option<String>,
    pub white: ChessComPlayer,
    pub black: ChessComPlayer,
}

/// One monthly archive of games.
#[derive(Debug, Clone)]
pub struct ChessComGamesResponse {
    pub games: Vec<ChessComGame>,
}

/// The list of a player's monthly archives.
#[derive(Debug, Clone)]
pub struct ChessComArchivesResponse {
    pub archives: Vec<String>,
}

/// A player's public profile.
#[derive(Debug, Clone)]
pub struct ChessComProfile {
    pub username: Option<String>,
    pub player_id: Option<u64>,
    pub title: Option<String>,
    pub status: Option<String>,
    pub name: Option<String>,
    pub avatar: Option<String>,
    pub location: Option<String>,
    pub country: Option<String>,
    pub joined: Option<u64>,
    pub last_online: Option<u64>,
    pub followers: Option<u32>,
    pub is_streamer: Option<bool>,
    pub url: Option<String>,
}

/// A player's ratings by time class.
#[derive(Debug, Clone)]
pub struct ChessComStats {
    pub chess_rapid: Option<RatingInfo>,
    pub chess_blitz: Option<RatingInfo>,
    pub chess_bullet: Option<RatingInfo>,
    pub chess_daily: Option<RatingInfo>,
    pub tactics: Option<TacticsInfo>,
    pub puzzle_rush: Option<PuzzleRushInfo>,
}

#[derive(Debug, Clone)]
pub struct RatingInfo {
    pub last: Option<RatingRecord>,
    pub best: Option<RatingRecord>,
    pub record: Option<WinLossRecord>,
}

#[derive(Debug, Clone)]
pub struct RatingRecord {
    pub rating: Option<u32>,
    pub date: Option<u64>,
}

#[derive(Debug, Clone)]
pub struct WinLossRecord {
    pub win: Option<u32>,
    pub loss: Option<u32>,
    pub draw: Option<u32>,
}

#[derive(Debug, Clone)]
pub struct TacticsInfo {
    pub highest: Option<RatingRecord>,
    pub lowest: Option<RatingRecord>,
}

#[derive(Debug, Clone)]
pub struct PuzzleRushInfo {
    pub best: Option<PuzzleRushBest>,
}

#[derive(Debug, Clone)]
pub struct PuzzleRushBest {
    pub total_attempts: Option<u32>,
    pub score: Option<u32>,
}

/// The text of an optional string.
pub open spec fn opt_text(o: Option<String>) -> Option<Seq<char>> {
    match o {
        Some(s) => Some(s@),
        None => None,
    }
}

/// The quality label of one move.
#[derive(Debug, Clone, Copy, PartialEq, Eq, Structural)]
pub enum MoveClassification {
    Brilliant,
    Great,
    Best,
    Good,
    Book,
    Inaccuracy,
    Mistake,
    Blunder,
    ForcedMove,
}

impl MoveClassification {
    /// The label as it is shown.
    pub open spec fn label_text(self) -> Seq<char> {
        match self {
            MoveClassification::Brilliant => "Brilliant"@,
            MoveClassification::Great => "Great"@,
            MoveClassification::Best => "Best"@,
            MoveClassification::Good => "Good"@,
            MoveClassification::Book => "Book"@,
            MoveClassification::Inaccuracy => "Inaccuracy"@,
            MoveClassification::Mistake => "Mistake"@,
            MoveClassification::Blunder => "Blunder"@,
            MoveClassification::ForcedMove => "Forced"@,
        }
    }

    /// The variant's own name.
    pub open spec fn name_text(self) -> Seq<char> {
        match self {
            MoveClassification::ForcedMove => "ForcedMove"@,
            _ => self.label_text(),
        }
    }

    /// Inaccuracy, mistake or blunder: the labels that ask for a better move.
    pub open spec fn is_weak(self) -> bool {
        self == MoveClassification::Inaccuracy || self == MoveClassification::Mistake || self
            == MoveClassification::Blunder
    }

    /// Brilliant, great, best or good: the labels that count towards accuracy.
    pub open spec fn is_sound(self) -> bool {
        self == MoveClassification::Brilliant || self == MoveClassification::Great || self
            == MoveClassification::Best || self == MoveClassification::Good
    }

    pub fn label(&self) -> (r: &'static str)
        ensures
            r@ == self.label_text(),
    {
        match self {
            MoveClassification::Brilliant => "Brilliant",
            MoveClassification::Great => "Great",
            MoveClassification::Best => "Best",
            MoveClassification::Good => "Good",
            MoveClassification::Book => "Book",
            MoveClassification::Inaccuracy => "Inaccuracy",
            MoveClassification::Mistake => "Mistake",
            MoveClassification::Blunder => "Blunder",
            MoveClassification::ForcedMove => "Forced",
        }
    }

    /// The variant's own name, as a key moment records it.
    pub fn name(&self) -> (r: &'static str)
        ensures
            r@ == self.name_text(),
    {
        match self {
            MoveClassification::ForcedMove => "ForcedMove",
            _ => self.label(),
        }
    }
}

/// One analysed half-move.
#[derive(Debug, Clone)]
pub struct MoveAnalysis {
    pub move_number: u64,
    pub san: String,
    pub color: String,
    pub classification: MoveClassification,
    pub comment: Option<String>,
    pub is_book_move: bool,
    pub fen_after: String,
    pub played_from: Option<String>,
    pub played_to: Option<String>,
    pub best_move_san: Option<String>,
    pub best_from: Option<String>,
    pub best_to: Option<String>,
    pub fen_before: String,
    /// Running evaluation after the move, in hundredths of a pawn; positive
    /// favours White.
    pub eval_score: i32,
}

/// What a [`MoveAnalysis`] holds, as plain mathematical values.
pub struct MoveRecord {
    pub move_number: nat,
    pub san: Seq<char>,
    pub color: Seq<char>,
    pub classification: MoveClassification,
    pub comment: Option<Seq<char>>,
    pub is_book_move: bool,
    pub fen_after: Seq<char>,
    pub played_from: Option<Seq<char>>,
    pub played_to: Option<Seq<char>>,
    pub best_move_san: Option<Seq<char>>,
    pub best_from: Option<Seq<char>>,
    pub best_to: Option<Seq<char>>,
    pub fen_before: Seq<char>,
    pub eval_score: int,
}

impl View for MoveAnalysis {
    type V = MoveRecord;

    open spec fn view(&self) -> MoveRecord {
        MoveRecord {
            move_number: self.move_number as nat,
            san: self.san@,
            color: self.color@,
            classification: self.classification,
            comment: opt_text(self.comment),
            is_book_move: self.is_book_move,
            fen_after: self.fen_after@,
            played_from: opt_text(self.played_from),
            played_to: opt_text(self.played_to),
            best_move_san: opt_text(self.best_move_san),
            best_from: opt_text(self.best_from),
            best_to: opt_text(self.best_to),
            fen_before: self.fen_before@,
            eval_score: self.eval_score as int,
        }
    }
}

/// The records held by a sequence of analysed moves.
pub open spec fn records(v: Seq<MoveAnalysis>) -> Seq<MoveRecord> {
    Seq::new(v.len(), |i: int| v[i]@)
}

/// The labels of a sequence of records.
pub open spec fn labels(v: Seq<MoveRecord>) -> Seq<MoveClassification> {
    Seq::new(v.len(), |i: int| v[i].classification)
}

/// A move that shaped the game.
#[derive(Debug, Clone)]
pub struct KeyMoment {
    pub move_index: usize,
    pub move_number: u64,
    pub san: String,
    pub color: String,
    pub classification: String,
    pub description: String,
    /// "critical", "major" or "notable".
    pub severity: String,
}

/// What a [`KeyMoment`] holds, as plain mathematical values.
pub struct MomentRecord {
    pub move_index: int,
    pub move_number: nat,
    pub san: Seq<char>,
    pub color: Seq<char>,
    pub classification: Seq<char>,
    pub description: Seq<char>,
    pub severity: Seq<char>,
}

impl View for KeyMoment {
    type V = MomentRecord;

    open spec fn view(&self) -> MomentRecord {
        MomentRecord {
            move_index: self.move_index as int,
            move_number: self.move_number as nat,
            san: self.san@,
            color: self.color@,
            classification: self.classification@,
            description: self.description@,
            severity: self.severity@,
        }
    }
}

/// The records held by a sequence of key moments.
pub open spec fn moment_records(v: Seq<KeyMoment>) -> Seq<MomentRecord> {
    Seq::new(v.len(), |i: int| v[i]@)
}

/// The tallies of one game.
#[derive(Debug, Clone)]
pub struct GameSummary {
    pub total_moves: u64,
    pub brilliancies: u64,
    pub great_moves: u64,
    pub best_moves: u64,
    pub good_moves: u64,
    pub inaccuracies: u64,
    pub mistakes: u64,
    pub blunders: u64,
    /// Share of sound moves, in tenths of a percent (0 to 1000).
    pub accuracy: u32,
    pub opening_name: Option<String>,
}

/// What a [`GameSummary`] holds, as plain mathematical values.
pub struct SummaryRecord {
    pub total_moves: nat,
    pub brilliancies: nat,
    pub great_moves: nat,
    pub best_moves: nat,
    pub good_moves: nat,
    pub inaccuracies: nat,
    pub mistakes: nat,
    pub blunders: nat,
    pub accuracy: nat,
    pub opening_name: Option<Seq<char>>,
}

impl View for GameSummary {
    type V = SummaryRecord;

    open spec fn view(&self) -> SummaryRecord {
        SummaryRecord {
            total_moves: self.total_moves as nat,
            brilliancies: self.brilliancies as nat,
            great_moves: self.great_moves as nat,
            best_moves: self.best_moves as nat,
            good_moves: self.good_moves as nat,
            inaccuracies: self.inaccuracies as nat,
            mistakes: self.mistakes as nat,
            blunders: self.blunders as nat,
            accuracy: self.accuracy as nat,
            opening_name: opt_text(self.opening_name),
        }
    }
}

/// The analysis of one game.
#[derive(Debug, Clone)]
pub struct GameAnalysis {
    pub game_url: String,
    pub white: String,
    pub black: String,
    pub result: String,
    pub time_control: String,
    pub time_class: String,
    pub date: String,
    pub pgn: String,
    pub moves: Vec<MoveAnalysis>,
    pub summary: GameSummary,
    pub key_moments: Vec<KeyMoment>,
}

/// What a [`GameAnalysis`] holds, as plain mathematical values.
pub struct AnalysisRecord {
    pub game_url: Seq<char>,
    pub white: Seq<char>,
    pub black: Seq<char>,
    pub result: Seq<char>,
    pub time_control: Seq<char>,
    pub time_class: Seq<char>,
    pub date: Seq<char>,
    pub pgn: Seq<char>,
    pub moves: Seq<MoveRecord>,
    pub summary: SummaryRecord,
    pub key_moments: Seq<MomentRecord>,
}

impl View for GameAnalysis {
    type V = AnalysisRecord;

    open spec fn view(&self) -> AnalysisRecord {
        AnalysisRecord {
            game_url: self.game_url@,
            white: self.white@,
            black: self.black@,
            result: self.result@,
            time_control: self.time_control@,
            time_class: self.time_class@,
            date: self.date@,
            pgn: self.pgn@,
            moves: records(self.moves@),
            summary: self.summary@,
            key_moments: moment_records(self.key_moments@),
        }
    }
}

/// A chess opening of the catalogue.
#[derive(Debug, Clone)]
pub struct Opening {
    pub eco: String,
    pub name: String,
    pub pgn: String,
    pub moves: Vec<String>,
    pub category: OpeningCategory,
    pub description: String,
    pub key_ideas: Vec<String>,
}

/// What an [`Opening`] holds, as plain mathematical values.
pub struct OpeningRecord {
    pub eco: Seq<char>,
    pub name: Seq<char>,
    pub pgn: Seq<char>,
    pub moves: Seq<Seq<char>>,
    pub category: OpeningCategory,
    pub description: Seq<char>,
    pub key_ideas: Seq<Seq<char>>,
}

impl View for Opening {
    type V = OpeningRecord;

    open spec fn view(&self) -> OpeningRecord {
        OpeningRecord {
            eco: self.eco@,
            name: self.name@,
            pgn: self.pgn@,
            moves: texts(self.moves@),
            category: self.category,
            description: self.description@,
            key_ideas: texts(self.key_ideas@),
        }
    }
}

#[derive(Debug, Clone, Copy, PartialEq, Eq, Structural)]
pub enum OpeningCategory {
    KingPawn,
    QueenPawn,
    Flank,
    Indian,
    SemiOpen,
}

/// A lesson of the catalogue.
#[derive(Debug, Clone)]
pub struct Lesson {
    pub id: String,
    pub title: String,
    pub category: LessonCategory,
    pub difficulty: Difficulty,
    pub description: String,
    pub content: Vec<LessonSection>,
    pub completed: bool,
}

#[derive(Debug, Clone, Copy, PartialEq, Eq, Structural)]
pub enum LessonCategory {
    Opening,
    Middlegame,
    Endgame,
    Tactics,
    Strategy,
    Positional,
}

#[derive(Debug, Clone, Copy, PartialEq, Eq, Structural)]
pub enum Difficulty {
    Beginner,
    Intermediate,
    Advanced,
    Expert,
}

/// One section of a lesson.
#[derive(Debug, Clone)]
pub struct LessonSection {
    pub title: String,
    pub content: String,
    pub fen: Option<String>,
    pub moves: Option<Vec<String>>,
}

/// What a [`LessonSection`] holds, as plain mathematical values.
pub struct SectionRecord {
    pub title: Seq<char>,
    pub content: Seq<char>,
    pub fen: Option<Seq<char>>,
    pub moves: Option<Seq<Seq<char>>>,
}

impl View for LessonSection {
    type V = SectionRecord;

    open spec fn view(&self) -> SectionRecord {
        SectionRecord {
            title: self.title@,
            content: self.content@,
            fen: opt_text(self.fen),
            moves: match self.moves {
                Some(m) => Some(texts(m@)),
                None => None,
            },
        }
    }
}

/// What a sequence of sections holds.
pub open spec fn sections(v: Seq<LessonSection>) -> Seq<SectionRecord> {
    Seq::new(v.len(), |i: int| v[i]@)
}

/// What a [`Lesson`] holds, as plain mathematical values.
pub struct LessonRecord {
    pub id: Seq<char>,
    pub title: Seq<char>,
    pub category: LessonCategory,
    pub difficulty: Difficulty,
    pub description: Seq<char>,
    pub content: Seq<SectionRecord>,
    pub completed: bool,
}

impl View for Lesson {
    type V = LessonRecord;

    open spec fn view(&self) -> LessonRecord {
        LessonRecord {
            id: self.id@,
            title: self.title@,
            category: self.category,
            difficulty: self.difficulty,
            description: self.description@,
            content: sections(self.content@),
            completed: self.completed,
        }
    }
}

} // verus!
