//! The catalogue of chess openings.

use vstd::prelude::*;
use crate::models::{Opening, OpeningCategory, OpeningRecord};
use crate::text::{chars_of, is_text, texts};

verus! {

/// How many openings the catalogue holds.
pub const OPENING_COUNT: usize = 21;

/// What a sequence of openings holds.
pub open spec fn views_of(v: Seq<Opening>) -> Seq<OpeningRecord> {
    Seq::new(v.len(), |i: int| v[i]@)
}

/// The opening at place `k` of the catalogue.
pub open spec fn opening_record(k: int) -> OpeningRecord {
    if k == 0 {
        OpeningRecord {
            eco: "C50"@,
            name: "Italian Game"@,
            pgn: "1. e4 e5 2. Nf3 Nc6 3. Bc4"@,
            moves: seq!["e4"@, "e5"@, "Nf3"@, "Nc6"@, "Bc4"@],
            category: OpeningCategory::KingPawn,
            description: "One of the oldest and most classical openings. White develops the bishop to c4, targeting the f7 pawn and fighting for the center."@,
            key_ideas: seq![
                "Control the center with e4 and d4"@,
                "Develop pieces quickly to active squares"@,
                "Target the weak f7 pawn"@,
                "Prepare for kingside castling"@,
            ],
        }
    } else if k == 1 {
        OpeningRecord {
            eco: "C60"@,
            name: "Ruy Lopez (Spanish Game)"@,
            pgn: "1. e4 e5 2. Nf3 Nc6 3. Bb5"@,
            moves: seq!["e4"@, "e5"@, "Nf3"@, "Nc6"@, "Bb5"@],
            category: OpeningCategory::KingPawn,
            description: "The Ruy Lopez is one of the most popular and deeply analyzed openings. White pins the knight that defends e5, creating long-term pressure."@,
            key_ideas: seq![
                "Put pressure on e5 through the pin on Nc6"@,
                "Build a strong pawn center with d4"@,
                "Control the game for the long term"@,
                "The Marshall Attack is a famous counter-gambit"@,
            ],
        }
    } else if k == 2 {
        OpeningRecord {
            eco: "C44"@,
            name: "Scotch Game"@,
            pgn: "1. e4 e5 2. Nf3 Nc6 3. d4"@,
            moves: seq!["e4"@, "e5"@, "Nf3"@, "Nc6"@, "d4"@],
            category: OpeningCategory::KingPawn,
            description: "White immediately strikes in the center with d4, leading to open positions with active piece play."@,
            key_ideas: seq![
                "Open the center immediately"@,
                "Gain space and initiative"@,
                "Lead to tactical, open positions"@,
                "Kasparov popularized it at the highest level"@,
            ],
        }
    } else if k == 3 {
        OpeningRecord {
            eco: "C25"@,
            name: "Vienna Game"@,
            pgn: "1. e4 e5 2. Nc3"@,
            moves: seq!["e4"@, "e5"@, "Nc3"@],
            category: OpeningCategory::KingPawn,
            description: "A flexible opening where White develops the knight to c3, keeping options for f4 (Vienna Gambit) or Bc4."@,
            key_ideas: seq![
                "Prepare f4 for aggressive play"@,
                "Flexible development"@,
                "Can transpose into many lines"@,
                "Good surprise weapon"@,
            ],
        }
    } else if k == 4 {
        OpeningRecord {
            eco: "C30"@,
            name: "King's Gambit"@,
            pgn: "1. e4 e5 2. f4"@,
            moves: seq!["e4"@, "e5"@, "f4"@],
            category: OpeningCategory::KingPawn,
            description: "One of the most romantic and aggressive openings. White sacrifices the f-pawn to gain rapid development and open the f-file."@,
            key_ideas: seq![
                "Sacrifice a pawn for rapid development"@,
                "Open the f-file for the rook"@,
                "Attack the black king aggressively"@,
                "Lead to sharp, tactical positions"@,
            ],
        }
    } else if k == 5 {
        OpeningRecord {
            eco: "B20"@,
            name: "Sicilian Defense"@,
            pgn: "1. e4 c5"@,
            moves: seq!["e4"@, "c5"@],
            category: OpeningCategory::SemiOpen,
            description: "The most popular defense against 1.e4. Black fights for the center asymmetrically and aims for counterplay on the queenside."@,
            key_ideas: seq![
                "Create an asymmetric pawn structure"@,
                "Counter-attack on the queenside"@,
                "Rich tactical and strategic possibilities"@,
                "Semi-open c-file for Black's counterplay"@,
            ],
        }
    } else if k == 6 {
        OpeningRecord {
            eco: "B33"@,
            name: "Sicilian Najdorf"@,
            pgn: "1. e4 c5 2. Nf3 d6 3. d4 cxd4 4. Nxd4 Nf6 5. Nc3 a6"@,
            moves: seq![
                "e4"@,
                "c5"@,
                "Nf3"@,
                "d6"@,
                "d4"@,
                "cxd4"@,
                "Nxd4"@,
                "Nf6"@,
                "Nc3"@,
                "a6"@,
            ],
            category: OpeningCategory::SemiOpen,
            description: "The sharpest and most popular Sicilian variation. Bobby Fischer and Garry Kasparov were famous practitioners."@,
            key_ideas: seq![
                "Flexible pawn structure for Black"@,
                "Prepare ...e5 or ...b5 expansion"@,
                "Extremely rich tactical play"@,
                "One of the most theoretically complex openings"@,
            ],
        }
    } else if k == 7 {
        OpeningRecord {
            eco: "B90"@,
            name: "Sicilian Dragon"@,
            pgn: "1. e4 c5 2. Nf3 d6 3. d4 cxd4 4. Nxd4 Nf6 5. Nc3 g6"@,
            moves: seq![
                "e4"@,
                "c5"@,
                "Nf3"@,
                "d6"@,
                "d4"@,
                "cxd4"@,
                "Nxd4"@,
                "Nf6"@,
                "Nc3"@,
                "g6"@,
            ],
            category: OpeningCategory::SemiOpen,
            description: "Black fianchettoes the bishop on g7, creating a 'dragon' formation. Known for the vicious Yugoslav Attack."@,
            key_ideas: seq![
                "Fianchetto the dark-squared bishop"@,
                "Counterplay along the c-file"@,
                "Yugoslav Attack leads to opposite-side castling battles"@,
                "Dynamic and aggressive for both sides"@,
            ],
        }
    } else if k == 8 {
        OpeningRecord {
            eco: "C00"@,
            name: "French Defense"@,
            pgn: "1. e4 e6"@,
            moves: seq!["e4"@, "e6"@],
            category: OpeningCategory::SemiOpen,
            description: "A solid defense where Black prepares ...d5 to challenge White's center. Leads to strategic, complex positions."@,
            key_ideas: seq![
                "Challenge the center with ...d5"@,
                "Solid pawn structure"@,
                "Counterplay on the queenside"@,
                "The light-squared bishop is often a strategic challenge"@,
            ],
        }
    } else if k == 9 {
        OpeningRecord {
            eco: "B10"@,
            name: "Caro-Kann Defense"@,
            pgn: "1. e4 c6"@,
            moves: seq!["e4"@, "c6"@],
            category: OpeningCategory::SemiOpen,
            description: "A solid, positional defense preparing ...d5. Unlike the French, it doesn't block the light-squared bishop."@,
            key_ideas: seq![
                "Solid center with ...d5"@,
                "Light-squared bishop remains active"@,
                "Less tactical than the Sicilian"@,
                "Good for players who prefer solid, strategic play"@,
            ],
        }
    } else if k == 10 {
        OpeningRecord {
            eco: "B07"@,
            name: "Pirc Defense"@,
            pgn: "1. e4 d6 2. d4 Nf6 3. Nc3 g6"@,
            moves: seq!["e4"@, "d6"@, "d4"@, "Nf6"@, "Nc3"@, "g6"@],
            category: OpeningCategory::SemiOpen,
            description: "A hypermodern defense where Black allows White to build a center, then attacks it with pieces."@,
            key_ideas: seq![
                "Hypermodern approach to the center"@,
                "Fianchetto the king's bishop"@,
                "Counter-attack the center later"@,
                "Flexible and less theory-heavy"@,
            ],
        }
    } else if k == 11 {
        OpeningRecord {
            eco: "B01"@,
            name: "Scandinavian Defense"@,
            pgn: "1. e4 d5"@,
            moves: seq!["e4"@, "d5"@],
            category: OpeningCategory::SemiOpen,
            description: "Black immediately challenges e4 with ...d5. After 2. exd5 Qxd5, the queen comes out early but Black has a solid setup."@,
            key_ideas: seq![
                "Immediate central confrontation"@,
                "Simple development scheme"@,
                "Queen comes out early to d5"@,
                "Solid and practical choice"@,
            ],
        }
    } else if k == 12 {
        OpeningRecord {
            eco: "D30"@,
            name: "Queen's Gambit"@,
            pgn: "1. d4 d5 2. c4"@,
            moves: seq!["d4"@, "d5"@, "c4"@],
            category: OpeningCategory::QueenPawn,
            description: "One of the oldest and most respected openings. White offers the c-pawn to gain central control."@,
            key_ideas: seq![
                "Fight for central control"@,
                "The pawn sacrifice is temporary"@,
                "Two main responses: Accepted and Declined"@,
                "Leads to rich strategic play"@,
            ],
        }
    } else if k == 13 {
        OpeningRecord {
            eco: "D35"@,
            name: "Queen's Gambit Declined"@,
            pgn: "1. d4 d5 2. c4 e6"@,
            moves: seq!["d4"@, "d5"@, "c4"@, "e6"@],
            category: OpeningCategory::QueenPawn,
            description: "Black declines the gambit and supports the d5 pawn. One of the most classical and solid openings."@,
            key_ideas: seq![
                "Maintain a solid pawn center"@,
                "Classical piece development"@,
                "The minority attack on the queenside"@,
                "Strategically deep positions"@,
            ],
        }
    } else if k == 14 {
        OpeningRecord {
            eco: "E60"@,
            name: "King's Indian Defense"@,
            pgn: "1. d4 Nf6 2. c4 g6 3. Nc3 Bg7"@,
            moves: seq!["d4"@, "Nf6"@, "c4"@, "g6"@, "Nc3"@, "Bg7"@],
            category: OpeningCategory::Indian,
            description: "A dynamic defense where Black allows White to build a large center, then counter-attacks it. Bobby Fischer's favorite."@,
            key_ideas: seq![
                "Allow White to build a center, then attack it"@,
                "Kingside attack with ...f5 and ...g5"@,
                "The fianchettoed bishop is very powerful"@,
                "Dynamic and aggressive counterplay"@,
            ],
        }
    } else if k == 15 {
        OpeningRecord {
            eco: "E00"@,
            name: "Nimzo-Indian Defense"@,
            pgn: "1. d4 Nf6 2. c4 e6 3. Nc3 Bb4"@,
            moves: seq!["d4"@, "Nf6"@, "c4"@, "e6"@, "Nc3"@, "Bb4"@],
            category: OpeningCategory::Indian,
            description: "One of the most respected defenses. Black pins the knight on c3, fighting for control of e4."@,
            key_ideas: seq![
                "Pin the knight to control e4"@,
                "Excellent piece activity"@,
                "Flexible pawn structure"@,
                "Considered one of the best replies to 1.d4"@,
            ],
        }
    } else if k == 16 {
        OpeningRecord {
            eco: "D70"@,
            name: "Grünfeld Defense"@,
            pgn: "1. d4 Nf6 2. c4 g6 3. Nc3 d5"@,
            moves: seq!["d4"@, "Nf6"@, "c4"@, "g6"@, "Nc3"@, "d5"@],
            category: OpeningCategory::Indian,
            description: "A hypermodern defense where Black strikes at the center with ...d5 after fianchettoing. Very dynamic and theoretical."@,
            key_ideas: seq![
                "Strike at the center with ...d5"@,
                "Pressure on d4 with the fianchettoed bishop"@,
                "Very dynamic pawn play"@,
                "Kasparov used it extensively"@,
            ],
        }
    } else if k == 17 {
        OpeningRecord {
            eco: "A45"@,
            name: "London System"@,
            pgn: "1. d4 d5 2. Bf4"@,
            moves: seq!["d4"@, "d5"@, "Bf4"@],
            category: OpeningCategory::QueenPawn,
            description: "A solid, system-based opening where White develops the bishop to f4 early. Popular at all levels for its simplicity and reliability."@,
            key_ideas: seq![
                "Solid development scheme"@,
                "Bishop on f4 controls key squares"@,
                "Easy to learn and play"@,
                "Avoid heavy theory"@,
            ],
        }
    } else if k == 18 {
        OpeningRecord {
            eco: "A10"@,
            name: "English Opening"@,
            pgn: "1. c4"@,
            moves: seq!["c4"@],
            category: OpeningCategory::Flank,
            description: "A flexible flank opening that can transpose into many systems. White fights for the center from the side."@,
            key_ideas: seq![
                "Control d5 from the flank"@,
                "Very flexible - can transpose to many systems"@,
                "Often leads to positional play"@,
                "Popular with top-level players"@,
            ],
        }
    } else if k == 19 {
        OpeningRecord {
            eco: "A04"@,
            name: "Réti Opening"@,
            pgn: "1. Nf3 d5 2. c4"@,
            moves: seq!["Nf3"@, "d5"@, "c4"@],
            category: OpeningCategory::Flank,
            description: "A hypermodern opening where White develops knights before pawns and aims to control the center from afar."@,
            key_ideas: seq![
                "Hypermodern center control"@,
                "Flexible pawn structure"@,
                "Can transpose to Queen's Gambit lines"@,
                "Richard Réti's revolutionary approach"@,
            ],
        }
    } else {
        OpeningRecord {
            eco: "A00"@,
            name: "Bird's Opening"@,
            pgn: "1. f4"@,
            moves: seq!["f4"@],
            category: OpeningCategory::Flank,
            description: "An aggressive flank opening controlling the e5 square. Leads to creative, unbalanced positions."@,
            key_ideas: seq![
                "Control e5 with the f-pawn"@,
                "Often follows with fianchetto of king's bishop"@,
                "Creative and less theoretical"@,
                "Can lead to reversed Dutch positions"@,
            ],
        }
    }
}

/// The category that a name denotes, if it denotes one.
pub open spec fn category_named(name: Seq<char>) -> Option<OpeningCategory> {
    if name == "king_pawn"@ {
        Some(OpeningCategory::KingPawn)
    } else if name == "queen_pawn"@ {
        Some(OpeningCategory::QueenPawn)
    } else if name == "flank"@ {
        Some(OpeningCategory::Flank)
    } else if name == "indian"@ {
        Some(OpeningCategory::Indian)
    } else if name == "semi_open"@ {
        Some(OpeningCategory::SemiOpen)
    } else {
        None
    }
}

/// Whether the opening at place `k` belongs to a selection: to every
/// selection without a category, else to that of its own category.
pub open spec fn is_selected(wanted: Option<OpeningCategory>, k: int) -> bool {
    match wanted {
        Some(c) => opening_record(k).category == c,
        None => true,
    }
}

/// The selected openings among the first `n` of the catalogue, in its
/// order.
pub open spec fn selection_upto(wanted: Option<OpeningCategory>, n: int) -> Seq<OpeningRecord>
    decreases n,
{
    if n <= 0 {
        Seq::empty()
    } else if is_selected(wanted, n - 1) {
        selection_upto(wanted, n - 1).push(opening_record(n - 1))
    } else {
        selection_upto(wanted, n - 1)
    }
}

/// Every opening of the catalogue has moves and four key ideas.
pub proof fn lemma_opening_shape(k: int)
    requires
        0 <= k < OPENING_COUNT,
    ensures
        opening_record(k).moves.len() > 0,
        opening_record(k).key_ideas.len() == 4,
{
}

/// The opening at place `k` of the catalogue.
pub fn opening_at(k: usize) -> (o: Opening)
    requires
        k < OPENING_COUNT,
    ensures
        o@ == opening_record(k as int),
{
    if k == 0 {
        // === KING'S PAWN OPENINGS (e4) ===
        let moves = vec![
            "e4".to_owned(),
            "e5".to_owned(),
            "Nf3".to_owned(),
            "Nc6".to_owned(),
            "Bc4".to_owned(),
        ];
        let key_ideas = vec![
            "Control the center with e4 and d4".to_owned(),
            "Develop pieces quickly to active squares".to_owned(),
            "Target the weak f7 pawn".to_owned(),
            "Prepare for kingside castling".to_owned(),
        ];
        assert(texts(moves@) =~= opening_record(0).moves);
        assert(texts(key_ideas@) =~= opening_record(0).key_ideas);
        Opening {
            eco: "C50".to_owned(),
            name: "Italian Game".to_owned(),
            pgn: "1. e4 e5 2. Nf3 Nc6 3. Bc4".to_owned(),
            moves,
            category: OpeningCategory::KingPawn,
            description: "One of the oldest and most classical openings. White develops the bishop to c4, targeting the f7 pawn and fighting for the center.".to_owned(),
            key_ideas,
        }
    } else if k == 1 {
        let moves = vec![
            "e4".to_owned(),
            "e5".to_owned(),
            "Nf3".to_owned(),
            "Nc6".to_owned(),
            "Bb5".to_owned(),
        ];
        let key_ideas = vec![
            "Put pressure on e5 through the pin on Nc6".to_owned(),
            "Build a strong pawn center with d4".to_owned(),
            "Control the game for the long term".to_owned(),
            "The Marshall Attack is a famous counter-gambit".to_owned(),
        ];
        assert(texts(moves@) =~= opening_record(1).moves);
        assert(texts(key_ideas@) =~= opening_record(1).key_ideas);
        Opening {
            eco: "C60".to_owned(),
            name: "Ruy Lopez (Spanish Game)".to_owned(),
            pgn: "1. e4 e5 2. Nf3 Nc6 3. Bb5".to_owned(),
            moves,
            category: OpeningCategory::KingPawn,
            description: "The Ruy Lopez is one of the most popular and deeply analyzed openings. White pins the knight that defends e5, creating long-term pressure.".to_owned(),
            key_ideas,
        }
    } else if k == 2 {
        let moves = vec![
            "e4".to_owned(),
            "e5".to_owned(),
            "Nf3".to_owned(),
            "Nc6".to_owned(),
            "d4".to_owned(),
        ];
        let key_ideas = vec![
            "Open the center immediately".to_owned(),
            "Gain space and initiative".to_owned(),
            "Lead to tactical, open positions".to_owned(),
            "Kasparov popularized it at the highest level".to_owned(),
        ];
        assert(texts(moves@) =~= opening_record(2).moves);
        assert(texts(key_ideas@) =~= opening_record(2).key_ideas);
        Opening {
            eco: "C44".to_owned(),
            name: "Scotch Game".to_owned(),
            pgn: "1. e4 e5 2. Nf3 Nc6 3. d4".to_owned(),
            moves,
            category: OpeningCategory::KingPawn,
            description: "White immediately strikes in the center with d4, leading to open positions with active piece play.".to_owned(),
            key_ideas,
        }
    } else if k == 3 {
        let moves = vec!["e4".to_owned(), "e5".to_owned(), "Nc3".to_owned()];
        let key_ideas = vec![
            "Prepare f4 for aggressive play".to_owned(),
            "Flexible development".to_owned(),
            "Can transpose into many lines".to_owned(),
            "Good surprise weapon".to_owned(),
        ];
        assert(texts(moves@) =~= opening_record(3).moves);
        assert(texts(key_ideas@) =~= opening_record(3).key_ideas);
        Opening {
            eco: "C25".to_owned(),
            name: "Vienna Game".to_owned(),
            pgn: "1. e4 e5 2. Nc3".to_owned(),
            moves,
            category: OpeningCategory::KingPawn,
            description: "A flexible opening where White develops the knight to c3, keeping options for f4 (Vienna Gambit) or Bc4.".to_owned(),
            key_ideas,
        }
    } else if k == 4 {
        let moves = vec!["e4".to_owned(), "e5".to_owned(), "f4".to_owned()];
        let key_ideas = vec![
            "Sacrifice a pawn for rapid development".to_owned(),
            "Open the f-file for the rook".to_owned(),
            "Attack the black king aggressively".to_owned(),
            "Lead to sharp, tactical positions".to_owned(),
        ];
        assert(texts(moves@) =~= opening_record(4).moves);
        assert(texts(key_ideas@) =~= opening_record(4).key_ideas);
        Opening {
            eco: "C30".to_owned(),
            name: "King's Gambit".to_owned(),
            pgn: "1. e4 e5 2. f4".to_owned(),
            moves,
            category: OpeningCategory::KingPawn,
            description: "One of the most romantic and aggressive openings. White sacrifices the f-pawn to gain rapid development and open the f-file.".to_owned(),
            key_ideas,
        }
    } else if k == 5 {
        // === SICILIAN DEFENSE ===
        let moves = vec!["e4".to_owned(), "c5".to_owned()];
        let key_ideas = vec![
            "Create an asymmetric pawn structure".to_owned(),
            "Counter-attack on the queenside".to_owned(),
            "Rich tactical and strategic possibilities".to_owned(),
            "Semi-open c-file for Black's counterplay".to_owned(),
        ];
        assert(texts(moves@) =~= opening_record(5).moves);
        assert(texts(key_ideas@) =~= opening_record(5).key_ideas);
        Opening {
            eco: "B20".to_owned(),
            name: "Sicilian Defense".to_owned(),
            pgn: "1. e4 c5".to_owned(),
            moves,
            category: OpeningCategory::SemiOpen,
            description: "The most popular defense against 1.e4. Black fights for the center asymmetrically and aims for counterplay on the queenside.".to_owned(),
            key_ideas,
        }
    } else if k == 6 {
        let moves = vec![
            "e4".to_owned(),
            "c5".to_owned(),
            "Nf3".to_owned(),
            "d6".to_owned(),
            "d4".to_owned(),
            "cxd4".to_owned(),
            "Nxd4".to_owned(),
            "Nf6".to_owned(),
            "Nc3".to_owned(),
            "a6".to_owned(),
        ];
        let key_ideas = vec![
            "Flexible pawn structure for Black".to_owned(),
            "Prepare ...e5 or ...b5 expansion".to_owned(),
            "Extremely rich tactical play".to_owned(),
            "One of the most theoretically complex openings".to_owned(),
        ];
        assert(texts(moves@) =~= opening_record(6).moves);
        assert(texts(key_ideas@) =~= opening_record(6).key_ideas);
        Opening {
            eco: "B33".to_owned(),
            name: "Sicilian Najdorf".to_owned(),
            pgn: "1. e4 c5 2. Nf3 d6 3. d4 cxd4 4. Nxd4 Nf6 5. Nc3 a6".to_owned(),
            moves,
            category: OpeningCategory::SemiOpen,
            description: "The sharpest and most popular Sicilian variation. Bobby Fischer and Garry Kasparov were famous practitioners.".to_owned(),
            key_ideas,
        }
    } else if k == 7 {
        let moves = vec![
            "e4".to_owned(),
            "c5".to_owned(),
            "Nf3".to_owned(),
            "d6".to_owned(),
            "d4".to_owned(),
            "cxd4".to_owned(),
            "Nxd4".to_owned(),
            "Nf6".to_owned(),
            "Nc3".to_owned(),
            "g6".to_owned(),
        ];
        let key_ideas = vec![
            "Fianchetto the dark-squared bishop".to_owned(),
            "Counterplay along the c-file".to_owned(),
            "Yugoslav Attack leads to opposite-side castling battles".to_owned(),
            "Dynamic and aggressive for both sides".to_owned(),
        ];
        assert(texts(moves@) =~= opening_record(7).moves);
        assert(texts(key_ideas@) =~= opening_record(7).key_ideas);
        Opening {
            eco: "B90".to_owned(),
            name: "Sicilian Dragon".to_owned(),
            pgn: "1. e4 c5 2. Nf3 d6 3. d4 cxd4 4. Nxd4 Nf6 5. Nc3 g6".to_owned(),
            moves,
            category: OpeningCategory::SemiOpen,
            description: "Black fianchettoes the bishop on g7, creating a 'dragon' formation. Known for the vicious Yugoslav Attack.".to_owned(),
            key_ideas,
        }
    } else if k == 8 {
        // === FRENCH DEFENSE ===
        let moves = vec!["e4".to_owned(), "e6".to_owned()];
        let key_ideas = vec![
            "Challenge the center with ...d5".to_owned(),
            "Solid pawn structure".to_owned(),
            "Counterplay on the queenside".to_owned(),
            "The light-squared bishop is often a strategic challenge".to_owned(),
        ];
        assert(texts(moves@) =~= opening_record(8).moves);
        assert(texts(key_ideas@) =~= opening_record(8).key_ideas);
        Opening {
            eco: "C00".to_owned(),
            name: "French Defense".to_owned(),
            pgn: "1. e4 e6".to_owned(),
            moves,
            category: OpeningCategory::SemiOpen,
            description: "A solid defense where Black prepares ...d5 to challenge White's center. Leads to strategic, complex positions.".to_owned(),
            key_ideas,
        }
    } else if k == 9 {
        // === CARO-KANN ===
        let moves = vec!["e4".to_owned(), "c6".to_owned()];
        let key_ideas = vec![
            "Solid center with ...d5".to_owned(),
            "Light-squared bishop remains active".to_owned(),
            "Less tactical than the Sicilian".to_owned(),
            "Good for players who prefer solid, strategic play".to_owned(),
        ];
        assert(texts(moves@) =~= opening_record(9).moves);
        assert(texts(key_ideas@) =~= opening_record(9).key_ideas);
        Opening {
            eco: "B10".to_owned(),
            name: "Caro-Kann Defense".to_owned(),
            pgn: "1. e4 c6".to_owned(),
            moves,
            category: OpeningCategory::SemiOpen,
            description: "A solid, positional defense preparing ...d5. Unlike the French, it doesn't block the light-squared bishop.".to_owned(),
            key_ideas,
        }
    } else if k == 10 {
        // === PIRC DEFENSE ===
        let moves = vec![
            "e4".to_owned(),
            "d6".to_owned(),
            "d4".to_owned(),
            "Nf6".to_owned(),
            "Nc3".to_owned(),
            "g6".to_owned(),
        ];
        let key_ideas = vec![
            "Hypermodern approach to the center".to_owned(),
            "Fianchetto the king's bishop".to_owned(),
            "Counter-attack the center later".to_owned(),
            "Flexible and less theory-heavy".to_owned(),
        ];
        assert(texts(moves@) =~= opening_record(10).moves);
        assert(texts(key_ideas@) =~= opening_record(10).key_ideas);
        Opening {
            eco: "B07".to_owned(),
            name: "Pirc Defense".to_owned(),
            pgn: "1. e4 d6 2. d4 Nf6 3. Nc3 g6".to_owned(),
            moves,
            category: OpeningCategory::SemiOpen,
            description: "A hypermodern defense where Black allows White to build a center, then attacks it with pieces.".to_owned(),
            key_ideas,
        }
    } else if k == 11 {
        // === SCANDINAVIAN ===
        let moves = vec!["e4".to_owned(), "d5".to_owned()];
        let key_ideas = vec![
            "Immediate central confrontation".to_owned(),
            "Simple development scheme".to_owned(),
            "Queen comes out early to d5".to_owned(),
            "Solid and practical choice".to_owned(),
        ];
        assert(texts(moves@) =~= opening_record(11).moves);
        assert(texts(key_ideas@) =~= opening_record(11).key_ideas);
        Opening {
            eco: "B01".to_owned(),
            name: "Scandinavian Defense".to_owned(),
            pgn: "1. e4 d5".to_owned(),
            moves,
            category: OpeningCategory::SemiOpen,
            description: "Black immediately challenges e4 with ...d5. After 2. exd5 Qxd5, the queen comes out early but Black has a solid setup.".to_owned(),
            key_ideas,
        }
    } else if k == 12 {
        // === QUEEN'S PAWN OPENINGS ===
        let moves = vec!["d4".to_owned(), "d5".to_owned(), "c4".to_owned()];
        let key_ideas = vec![
            "Fight for central control".to_owned(),
            "The pawn sacrifice is temporary".to_owned(),
            "Two main responses: Accepted and Declined".to_owned(),
            "Leads to rich strategic play".to_owned(),
        ];
        assert(texts(moves@) =~= opening_record(12).moves);
        assert(texts(key_ideas@) =~= opening_record(12).key_ideas);
        Opening {
            eco: "D30".to_owned(),
            name: "Queen's Gambit".to_owned(),
            pgn: "1. d4 d5 2. c4".to_owned(),
            moves,
            category: OpeningCategory::QueenPawn,
            description: "One of the oldest and most respected openings. White offers the c-pawn to gain central control.".to_owned(),
            key_ideas,
        }
    } else if k == 13 {
        let moves = vec!["d4".to_owned(), "d5".to_owned(), "c4".to_owned(), "e6".to_owned()];
        let key_ideas = vec![
            "Maintain a solid pawn center".to_owned(),
            "Classical piece development".to_owned(),
            "The minority attack on the queenside".to_owned(),
            "Strategically deep positions".to_owned(),
        ];
        assert(texts(moves@) =~= opening_record(13).moves);
        assert(texts(key_ideas@) =~= opening_record(13).key_ideas);
        Opening {
            eco: "D35".to_owned(),
            name: "Queen's Gambit Declined".to_owned(),
            pgn: "1. d4 d5 2. c4 e6".to_owned(),
            moves,
            category: OpeningCategory::QueenPawn,
            description: "Black declines the gambit and supports the d5 pawn. One of the most classical and solid openings.".to_owned(),
            key_ideas,
        }
    } else if k == 14 {
        let moves = vec![
            "d4".to_owned(),
            "Nf6".to_owned(),
            "c4".to_owned(),
            "g6".to_owned(),
            "Nc3".to_owned(),
            "Bg7".to_owned(),
        ];
        let key_ideas = vec![
            "Allow White to build a center, then attack it".to_owned(),
            "Kingside attack with ...f5 and ...g5".to_owned(),
            "The fianchettoed bishop is very powerful".to_owned(),
            "Dynamic and aggressive counterplay".to_owned(),
        ];
        assert(texts(moves@) =~= opening_record(14).moves);
        assert(texts(key_ideas@) =~= opening_record(14).key_ideas);
        Opening {
            eco: "E60".to_owned(),
            name: "King's Indian Defense".to_owned(),
            pgn: "1. d4 Nf6 2. c4 g6 3. Nc3 Bg7".to_owned(),
            moves,
            category: OpeningCategory::Indian,
            description: "A dynamic defense where Black allows White to build a large center, then counter-attacks it. Bobby Fischer's favorite.".to_owned(),
            key_ideas,
        }
    } else if k == 15 {
        let moves = vec![
            "d4".to_owned(),
            "Nf6".to_owned(),
            "c4".to_owned(),
            "e6".to_owned(),
            "Nc3".to_owned(),
            "Bb4".to_owned(),
        ];
        let key_ideas = vec![
            "Pin the knight to control e4".to_owned(),
            "Excellent piece activity".to_owned(),
            "Flexible pawn structure".to_owned(),
            "Considered one of the best replies to 1.d4".to_owned(),
        ];
        assert(texts(moves@) =~= opening_record(15).moves);
        assert(texts(key_ideas@) =~= opening_record(15).key_ideas);
        Opening {
            eco: "E00".to_owned(),
            name: "Nimzo-Indian Defense".to_owned(),
            pgn: "1. d4 Nf6 2. c4 e6 3. Nc3 Bb4".to_owned(),
            moves,
            category: OpeningCategory::Indian,
            description: "One of the most respected defenses. Black pins the knight on c3, fighting for control of e4.".to_owned(),
            key_ideas,
        }
    } else if k == 16 {
        let moves = vec![
            "d4".to_owned(),
            "Nf6".to_owned(),
            "c4".to_owned(),
            "g6".to_owned(),
            "Nc3".to_owned(),
            "d5".to_owned(),
        ];
        let key_ideas = vec![
            "Strike at the center with ...d5".to_owned(),
            "Pressure on d4 with the fianchettoed bishop".to_owned(),
            "Very dynamic pawn play".to_owned(),
            "Kasparov used it extensively".to_owned(),
        ];
        assert(texts(moves@) =~= opening_record(16).moves);
        assert(texts(key_ideas@) =~= opening_record(16).key_ideas);
        Opening {
            eco: "D70".to_owned(),
            name: "Grünfeld Defense".to_owned(),
            pgn: "1. d4 Nf6 2. c4 g6 3. Nc3 d5".to_owned(),
            moves,
            category: OpeningCategory::Indian,
            description: "A hypermodern defense where Black strikes at the center with ...d5 after fianchettoing. Very dynamic and theoretical.".to_owned(),
            key_ideas,
        }
    } else if k == 17 {
        let moves = vec!["d4".to_owned(), "d5".to_owned(), "Bf4".to_owned()];
        let key_ideas = vec![
            "Solid development scheme".to_owned(),
            "Bishop on f4 controls key squares".to_owned(),
            "Easy to learn and play".to_owned(),
            "Avoid heavy theory".to_owned(),
        ];
        assert(texts(moves@) =~= opening_record(17).moves);
        assert(texts(key_ideas@) =~= opening_record(17).key_ideas);
        Opening {
            eco: "A45".to_owned(),
            name: "London System".to_owned(),
            pgn: "1. d4 d5 2. Bf4".to_owned(),
            moves,
            category: OpeningCategory::QueenPawn,
            description: "A solid, system-based opening where White develops the bishop to f4 early. Popular at all levels for its simplicity and reliability.".to_owned(),
            key_ideas,
        }
    } else if k == 18 {
        // === FLANK OPENINGS ===
        let moves = vec!["c4".to_owned()];
        let key_ideas = vec![
            "Control d5 from the flank".to_owned(),
            "Very flexible - can transpose to many systems".to_owned(),
            "Often leads to positional play".to_owned(),
            "Popular with top-level players".to_owned(),
        ];
        assert(texts(moves@) =~= opening_record(18).moves);
        assert(texts(key_ideas@) =~= opening_record(18).key_ideas);
        Opening {
            eco: "A10".to_owned(),
            name: "English Opening".to_owned(),
            pgn: "1. c4".to_owned(),
            moves,
            category: OpeningCategory::Flank,
            description: "A flexible flank opening that can transpose into many systems. White fights for the center from the side.".to_owned(),
            key_ideas,
        }
    } else if k == 19 {
        let moves = vec!["Nf3".to_owned(), "d5".to_owned(), "c4".to_owned()];
        let key_ideas = vec![
            "Hypermodern center control".to_owned(),
            "Flexible pawn structure".to_owned(),
            "Can transpose to Queen's Gambit lines".to_owned(),
            "Richard Réti's revolutionary approach".to_owned(),
        ];
        assert(texts(moves@) =~= opening_record(19).moves);
        assert(texts(key_ideas@) =~= opening_record(19).key_ideas);
        Opening {
            eco: "A04".to_owned(),
            name: "Réti Opening".to_owned(),
            pgn: "1. Nf3 d5 2. c4".to_owned(),
            moves,
            category: OpeningCategory::Flank,
            description: "A hypermodern opening where White develops knights before pawns and aims to control the center from afar.".to_owned(),
            key_ideas,
        }
    } else {
        let moves = vec!["f4".to_owned()];
        let key_ideas = vec![
            "Control e5 with the f-pawn".to_owned(),
            "Often follows with fianchetto of king's bishop".to_owned(),
            "Creative and less theoretical".to_owned(),
            "Can lead to reversed Dutch positions".to_owned(),
        ];
        assert(texts(moves@) =~= opening_record(20).moves);
        assert(texts(key_ideas@) =~= opening_record(20).key_ideas);
        Opening {
            eco: "A00".to_owned(),
            name: "Bird's Opening".to_owned(),
            pgn: "1. f4".to_owned(),
            moves,
            category: OpeningCategory::Flank,
            description: "An aggressive flank opening controlling the e5 square. Leads to creative, unbalanced positions.".to_owned(),
            key_ideas,
        }
    }
}

/// The selection that a category name asks for.
fn category_of(category: &str) -> (r: Option<OpeningCategory>)
    ensures
        r == category_named(category@),
{
    let c = chars_of(category);
    if is_text(&c, "king_pawn") {
        Some(OpeningCategory::KingPawn)
    } else if is_text(&c, "queen_pawn") {
        Some(OpeningCategory::QueenPawn)
    } else if is_text(&c, "flank") {
        Some(OpeningCategory::Flank)
    } else if is_text(&c, "indian") {
        Some(OpeningCategory::Indian)
    } else if is_text(&c, "semi_open") {
        Some(OpeningCategory::SemiOpen)
    } else {
        None
    }
}

/// The selected openings of the catalogue, in its order.
fn select_openings(wanted: Option<OpeningCategory>) -> (r: Vec<Opening>)
    ensures
        views_of(r@) == selection_upto(wanted, OPENING_COUNT as int),
{
    let mut out: Vec<Opening> = Vec::new();
    let mut k: usize = 0;
    while k < OPENING_COUNT
        invariant
            k <= OPENING_COUNT,
            views_of(out@) == selection_upto(wanted, k as int),
        decreases OPENING_COUNT - k,
    {
        let o = opening_at(k);
        let keep = match wanted {
            Some(c) => o.category == c,
            None => true,
        };
        if keep {
            let ghost before = views_of(out@);
            out.push(o);
            assert(views_of(out@) == before.push(opening_record(k as int)));
        }
        k = k + 1;
    }
    out
}

/// Nothing is left out of a selection without a category.
proof fn lemma_full_selection(n: int)
    requires
        0 <= n,
    ensures
        selection_upto(None, n).len() == n,
        forall|k: int| 0 <= k < n ==> #[trigger] selection_upto(None, n)[k] == opening_record(k),
    decreases n,
{
    if n > 0 {
        lemma_full_selection(n - 1);
    }
}

/// The whole catalogue of openings, in its order.
pub fn get_all_openings() -> (r: Vec<Opening>)
    ensures
        r.len() == OPENING_COUNT,
        forall|k: int| 0 <= k < r.len() ==> (#[trigger] r[k])@ == opening_record(k),
{
    let r = select_openings(None);
    proof {
        lemma_full_selection(OPENING_COUNT as int);
        assert(views_of(r@).len() == r.len());
        assert forall|k: int| 0 <= k < r.len() implies (#[trigger] r[k])@ == opening_record(k) by {
            assert(views_of(r@)[k] == r[k]@);
        }
    }
    r
}

/// The openings of one category, in the order of the catalogue, each as the
/// catalogue holds it.
///
/// The categories are named `king_pawn`, `queen_pawn`, `flank`, `indian` and
/// `semi_open`; any other name selects the whole catalogue.
pub fn get_openings_by_category(category: &str) -> (r: Vec<Opening>)
    ensures
        views_of(r@) == selection_upto(category_named(category@), OPENING_COUNT as int),
{
    select_openings(category_of(category))
}

} // verus!
