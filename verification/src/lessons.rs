//! The catalogue of lessons.

use vstd::prelude::*;
use crate::models::{
    sections, Difficulty, Lesson, LessonCategory, LessonRecord, LessonSection, SectionRecord,
};
use crate::text::{chars_of, is_text, texts};

verus! {

/// How many lessons the catalogue holds.
pub const LESSON_COUNT: usize = 12;

/// What a sequence of lessons holds.
pub open spec fn views_of(v: Seq<Lesson>) -> Seq<LessonRecord> {
    Seq::new(v.len(), |i: int| v[i]@)
}

/// The lesson at place `k` of the catalogue. No lesson of the catalogue is
/// marked as completed.
pub open spec fn lesson_record(k: int) -> LessonRecord {
    if k == 0 {
        LessonRecord {
            id: "mid-01"@,
            title: "Piece Activity & Coordination"@,
            category: LessonCategory::Middlegame,
            difficulty: Difficulty::Beginner,
            description: "Learn how to keep your pieces active and working together as a team."@,
            content: seq![
                SectionRecord {
                    title: "The Importance of Active Pieces"@,
                    content: "In chess, the value of a piece depends largely on its activity. A bishop locked behind its own pawns is worth less than a knight on a strong outpost. Always ask yourself: 'Are all my pieces doing something useful?'"@,
                    fen: Some("r1bqkb1r/pppppppp/2n2n2/8/4P3/5N2/PPPP1PPP/RNBQKB1R w KQkq - 2 3"@),
                    moves: None,
                },
                SectionRecord {
                    title: "Piece Coordination"@,
                    content: "Pieces are most powerful when they work together. Knights and bishops complement each other well - the knight covers squares the bishop cannot reach. Rooks are strongest on open files, especially when doubled."@,
                    fen: Some("r2qk2r/ppp2ppp/2np1n2/2b1p1B1/2B1P1b1/2NP1N2/PPP2PPP/R2QK2R w KQkq - 4 7"@),
                    moves: None,
                },
                SectionRecord {
                    title: "Improving Your Worst Piece"@,
                    content: "A key middlegame strategy is to identify your least active piece and find a way to improve it. This simple concept can dramatically improve your play."@,
                    fen: None,
                    moves: None,
                },
            ],
            completed: false,
        }
    } else if k == 1 {
        LessonRecord {
            id: "mid-02"@,
            title: "Pawn Structure Fundamentals"@,
            category: LessonCategory::Middlegame,
            difficulty: Difficulty::Beginner,
            description: "Understanding pawn structures and how they dictate your plans."@,
            content: seq![
                SectionRecord {
                    title: "Types of Pawn Structures"@,
                    content: "Pawn structures form the backbone of your position. Key types include: isolated pawns, doubled pawns, backward pawns, pawn chains, and passed pawns. Each has its own set of plans and weaknesses."@,
                    fen: None,
                    moves: None,
                },
                SectionRecord {
                    title: "Weak Pawns and Outposts"@,
                    content: "Weak pawns (isolated, backward, or doubled) create holes in the position. These holes can become outposts for your pieces, especially knights. Control of outposts is a key strategic concept."@,
                    fen: Some("rnbqkb1r/pp3ppp/4pn2/3p4/3P4/4PN2/PP3PPP/RNBQKB1R w KQkq - 0 5"@),
                    moves: None,
                },
                SectionRecord {
                    title: "Pawn Breaks"@,
                    content: "Pawn breaks are pawn moves that challenge the opponent's pawn structure. They often open lines for your pieces. Common examples: c5 break against the d4 pawn, f5 break to attack the kingside."@,
                    fen: None,
                    moves: None,
                },
            ],
            completed: false,
        }
    } else if k == 2 {
        LessonRecord {
            id: "mid-03"@,
            title: "Attacking the King"@,
            category: LessonCategory::Middlegame,
            difficulty: Difficulty::Intermediate,
            description: "Learn the principles of launching a successful kingside attack."@,
            content: seq![
                SectionRecord {
                    title: "Prerequisites for a King Attack"@,
                    content: "Before launching an attack, you typically need: a lead in development, control of the center, and pieces aimed at the king. Don't attack prematurely without these conditions!"@,
                    fen: None,
                    moves: None,
                },
                SectionRecord {
                    title: "Common Attacking Patterns"@,
                    content: "Learn to recognize patterns: the Greek Gift sacrifice (Bxh7+), the double bishop sacrifice, the rook lift (Ra3-h3), and pawn storms (g4-g5-g6). These patterns appear repeatedly in master games."@,
                    fen: Some("r1bq1rk1/pppnnppp/4p3/3pP3/1b1P4/2NB1N2/PPP2PPP/R1BQK2R w KQ - 5 8"@),
                    moves: Some(seq!["Bxh7+"@, "Kxh7"@, "Ng5+"@]),
                },
                SectionRecord {
                    title: "Opposite-Side Castling Attacks"@,
                    content: "When both sides castle on opposite sides, a pawn storm race begins. Advance your pawns on the side where the opponent's king is castled. Speed is crucial in these situations."@,
                    fen: None,
                    moves: None,
                },
            ],
            completed: false,
        }
    } else if k == 3 {
        LessonRecord {
            id: "mid-04"@,
            title: "Tactical Patterns & Combinations"@,
            category: LessonCategory::Tactics,
            difficulty: Difficulty::Intermediate,
            description: "Master the most common tactical patterns: forks, pins, skewers, and more."@,
            content: seq![
                SectionRecord {
                    title: "Forks (Double Attacks)"@,
                    content: "A fork is when one piece attacks two or more enemy pieces simultaneously. Knights are especially effective at forking because they attack in a unique pattern that other pieces cannot block."@,
                    fen: Some("r1bqkb1r/pppp1ppp/2n5/4p3/2B1n3/5N2/PPPP1PPP/RNBQK2R w KQkq - 0 4"@),
                    moves: None,
                },
                SectionRecord {
                    title: "Pins and Skewers"@,
                    content: "A pin restricts a piece from moving because it would expose a more valuable piece behind it. A skewer is the reverse: the more valuable piece is forced to move, exposing a piece behind it."@,
                    fen: None,
                    moves: None,
                },
                SectionRecord {
                    title: "Discovered Attacks"@,
                    content: "A discovered attack occurs when a piece moves, revealing an attack from another piece behind it. Discovered checks are especially dangerous because the moving piece can attack freely."@,
                    fen: None,
                    moves: None,
                },
                SectionRecord {
                    title: "Deflection and Decoy"@,
                    content: "Deflection forces a defending piece away from a critical square. Decoy lures a piece to a bad square. Both tactics exploit overloaded defenders."@,
                    fen: None,
                    moves: None,
                },
            ],
            completed: false,
        }
    } else if k == 4 {
        LessonRecord {
            id: "mid-05"@,
            title: "Strategic Planning"@,
            category: LessonCategory::Strategy,
            difficulty: Difficulty::Advanced,
            description: "How to create and execute long-term strategic plans in the middlegame."@,
            content: seq![
                SectionRecord {
                    title: "Evaluating the Position"@,
                    content: "Before forming a plan, evaluate: material balance, king safety, pawn structure, piece activity, and control of key squares/files. This evaluation tells you what type of plan to pursue."@,
                    fen: None,
                    moves: None,
                },
                SectionRecord {
                    title: "Creating a Plan"@,
                    content: "A plan should be based on the features of the position. If you have a space advantage, avoid trades. If you have better development, open the position. If your pawns are better, go into the endgame."@,
                    fen: None,
                    moves: None,
                },
                SectionRecord {
                    title: "Prophylactic Thinking"@,
                    content: "Always ask: 'What does my opponent want to do?' Prophylaxis means preventing the opponent's plans before they can execute them. This is one of the most valuable skills at the advanced level."@,
                    fen: None,
                    moves: None,
                },
            ],
            completed: false,
        }
    } else if k == 5 {
        LessonRecord {
            id: "end-01"@,
            title: "King and Pawn Endgames"@,
            category: LessonCategory::Endgame,
            difficulty: Difficulty::Beginner,
            description: "The most fundamental endgames every player must know."@,
            content: seq![
                SectionRecord {
                    title: "The Opposition"@,
                    content: "Opposition is when two kings stand on the same file or rank with one square between them. The player who does NOT have to move has the opposition and usually the advantage in king and pawn endings."@,
                    fen: Some("8/8/8/4k3/8/4K3/4P3/8 w - - 0 1"@),
                    moves: None,
                },
                SectionRecord {
                    title: "Key Squares"@,
                    content: "Every pawn has key squares. If your king reaches these squares, the pawn will promote. For a pawn on e4, the key squares are d6, e6, and f6. Understanding key squares is essential for pawn endgames."@,
                    fen: Some("8/8/8/8/4P3/8/8/4K2k w - - 0 1"@),
                    moves: None,
                },
                SectionRecord {
                    title: "The Square Rule"@,
                    content: "Can the king catch a passed pawn? Draw a square from the pawn to the promotion square. If the defending king can step into this square, it catches the pawn. A quick visual tool for calculating pawn races."@,
                    fen: None,
                    moves: None,
                },
            ],
            completed: false,
        }
    } else if k == 6 {
        LessonRecord {
            id: "end-02"@,
            title: "Rook Endgames"@,
            category: LessonCategory::Endgame,
            difficulty: Difficulty::Intermediate,
            description: "Rook endgames occur in about 50% of all games. Master the key techniques."@,
            content: seq![
                SectionRecord {
                    title: "Lucena Position"@,
                    content: "The Lucena position is the most important winning technique in rook endgames. With your pawn on the 7th rank and king in front of it, use the 'bridge' technique to escort the pawn to promotion."@,
                    fen: Some("1K1k4/1P6/8/8/8/8/1r6/5R2 w - - 0 1"@),
                    moves: Some(seq![
                        "Rf4"@,
                        "Rc2"@,
                        "Ka7"@,
                        "Ra2+"@,
                        "Kb6"@,
                        "Rb2+"@,
                        "Ka6"@,
                        "Ra2+"@,
                        "Kb5"@,
                        "Rb2+"@,
                        "Rb4"@,
                    ]),
                },
                SectionRecord {
                    title: "Philidor Position"@,
                    content: "The Philidor position is the most important drawing technique. Keep your rook on the third rank (cutting off the enemy king), then switch to checking from behind when the pawn advances."@,
                    fen: Some("4k3/8/8/4pK2/8/4R3/8/3r4 w - - 0 1"@),
                    moves: None,
                },
                SectionRecord {
                    title: "Active Rook Placement"@,
                    content: "In rook endgames, an active rook is crucial. Place your rook behind passed pawns (both yours and your opponent's). 'Rooks belong behind passed pawns' - Siegbert Tarrasch."@,
                    fen: None,
                    moves: None,
                },
            ],
            completed: false,
        }
    } else if k == 7 {
        LessonRecord {
            id: "end-03"@,
            title: "Bishop vs Knight Endgames"@,
            category: LessonCategory::Endgame,
            difficulty: Difficulty::Intermediate,
            description: "When is a bishop better than a knight, and vice versa?"@,
            content: seq![
                SectionRecord {
                    title: "Bishop Advantages"@,
                    content: "Bishops excel in open positions with pawns on both sides of the board. They can control long diagonals and coordinate with a far-away king. The bishop pair is a significant advantage."@,
                    fen: None,
                    moves: None,
                },
                SectionRecord {
                    title: "Knight Advantages"@,
                    content: "Knights prefer closed positions with fixed pawns. They can access both color squares and are excellent blockaders. In endgames with pawns on only one side, the knight can be superior."@,
                    fen: None,
                    moves: None,
                },
                SectionRecord {
                    title: "Good Bishop vs Bad Bishop"@,
                    content: "A 'good' bishop has most of its pawns on the opposite color. A 'bad' bishop is blocked by its own pawns. Converting a bad bishop into a good one can decide the game."@,
                    fen: None,
                    moves: None,
                },
            ],
            completed: false,
        }
    } else if k == 8 {
        LessonRecord {
            id: "end-04"@,
            title: "Queen Endgames"@,
            category: LessonCategory::Endgame,
            difficulty: Difficulty::Advanced,
            description: "Complex but crucial - queen endgames require precision and pattern knowledge."@,
            content: seq![
                SectionRecord {
                    title: "Queen vs Pawn on 7th Rank"@,
                    content: "When a pawn reaches the 7th rank, the queen can usually stop it - but not always! Bishop and rook pawns on the 7th rank with the king nearby can draw because of stalemate tricks."@,
                    fen: Some("8/1P6/8/K7/8/8/8/3q2k1 w - - 0 1"@),
                    moves: None,
                },
                SectionRecord {
                    title: "Perpetual Check Patterns"@,
                    content: "In queen endgames, perpetual check is always a defensive resource. Learn to recognize when the position allows a draw by perpetual and when the stronger side can escape the checks."@,
                    fen: None,
                    moves: None,
                },
            ],
            completed: false,
        }
    } else if k == 9 {
        LessonRecord {
            id: "end-05"@,
            title: "Practical Endgame Principles"@,
            category: LessonCategory::Endgame,
            difficulty: Difficulty::Beginner,
            description: "General principles that apply across all endgame types."@,
            content: seq![
                SectionRecord {
                    title: "Activate Your King"@,
                    content: "In the endgame, the king becomes a powerful piece. Bring it to the center/action. The king should actively support your pawns and attack your opponent's weaknesses."@,
                    fen: None,
                    moves: None,
                },
                SectionRecord {
                    title: "Create Passed Pawns"@,
                    content: "A passed pawn (no opposing pawn can block it) is a powerful asset. Create passed pawns by exchanging pawns, and then the opponent will need to use pieces to stop it."@,
                    fen: None,
                    moves: None,
                },
                SectionRecord {
                    title: "The Principle of Two Weaknesses"@,
                    content: "One weakness can often be defended. To win, create a second weakness on the other side of the board. The opponent cannot defend both simultaneously. This is a key winning technique."@,
                    fen: None,
                    moves: None,
                },
                SectionRecord {
                    title: "Zugzwang"@,
                    content: "A position where any move worsens the player's situation. Zugzwang is common in endgames and can be a decisive weapon. Learn to recognize and create zugzwang positions."@,
                    fen: Some("8/8/1p2k3/1P2p3/1PK1P3/8/8/8 w - - 0 1"@),
                    moves: None,
                },
            ],
            completed: false,
        }
    } else if k == 10 {
        LessonRecord {
            id: "open-01"@,
            title: "Opening Principles"@,
            category: LessonCategory::Opening,
            difficulty: Difficulty::Beginner,
            description: "Master the fundamental principles that guide good opening play."@,
            content: seq![
                SectionRecord {
                    title: "Control the Center"@,
                    content: "The center (e4, d4, e5, d5) is the most important area of the board. Pieces in or near the center control more squares and can quickly shift to either side. Control it with pawns and pieces."@,
                    fen: Some("rnbqkbnr/pppppppp/8/8/4P3/8/PPPP1PPP/RNBQKBNR b KQkq - 0 1"@),
                    moves: None,
                },
                SectionRecord {
                    title: "Develop Your Pieces"@,
                    content: "In the opening, develop knights and bishops to active squares as quickly as possible. Generally, develop knights before bishops. Avoid moving the same piece twice without a good reason."@,
                    fen: None,
                    moves: None,
                },
                SectionRecord {
                    title: "King Safety"@,
                    content: "Castle early to get your king to safety. Usually, kingside castling is preferred because it's faster. Don't open lines near your own king unless you have a concrete attacking plan."@,
                    fen: None,
                    moves: None,
                },
                SectionRecord {
                    title: "Common Opening Mistakes"@,
                    content: "Don't move too many pawns, don't bring the queen out too early, don't move the same piece repeatedly, and don't neglect development for small advantages."@,
                    fen: None,
                    moves: None,
                },
            ],
            completed: false,
        }
    } else {
        LessonRecord {
            id: "pos-01"@,
            title: "Positional Chess Basics"@,
            category: LessonCategory::Positional,
            difficulty: Difficulty::Intermediate,
            description: "Learn to play positionally - improve your position step by step without immediate tactical threats."@,
            content: seq![
                SectionRecord {
                    title: "Weak Squares"@,
                    content: "Weak squares are squares that can no longer be defended by pawns. They become outposts for enemy pieces, especially knights. Identify and exploit weak squares in your opponent's camp."@,
                    fen: None,
                    moves: None,
                },
                SectionRecord {
                    title: "Open Files and Diagonals"@,
                    content: "Control of open files (by rooks) and diagonals (by bishops) provides lasting advantages. Occupy open files with your rooks and try to penetrate into the opponent's position."@,
                    fen: None,
                    moves: None,
                },
                SectionRecord {
                    title: "The Exchange"@,
                    content: "Knowing when to exchange pieces is crucial. Exchange pieces when: you have a material advantage, you want to relieve pressure, or you want to transition into a favorable endgame."@,
                    fen: None,
                    moves: None,
                },
            ],
            completed: false,
        }
    }
}

/// The category that a name denotes, if it denotes one.
pub open spec fn category_named(name: Seq<char>) -> Option<LessonCategory> {
    if name == "opening"@ {
        Some(LessonCategory::Opening)
    } else if name == "middlegame"@ {
        Some(LessonCategory::Middlegame)
    } else if name == "endgame"@ {
        Some(LessonCategory::Endgame)
    } else if name == "tactics"@ {
        Some(LessonCategory::Tactics)
    } else if name == "strategy"@ {
        Some(LessonCategory::Strategy)
    } else if name == "positional"@ {
        Some(LessonCategory::Positional)
    } else {
        None
    }
}

/// Whether the lesson at place `k` belongs to a selection: to every
/// selection without a category, else to that of its own category.
pub open spec fn is_selected(wanted: Option<LessonCategory>, k: int) -> bool {
    match wanted {
        Some(c) => lesson_record(k).category == c,
        None => true,
    }
}

/// The selected lessons among the first `n` of the catalogue, in its order.
pub open spec fn selection_upto(wanted: Option<LessonCategory>, n: int) -> Seq<LessonRecord>
    decreases n,
{
    if n <= 0 {
        Seq::empty()
    } else if is_selected(wanted, n - 1) {
        selection_upto(wanted, n - 1).push(lesson_record(n - 1))
    } else {
        selection_upto(wanted, n - 1)
    }
}

/// Every lesson of the catalogue has at least two sections and is not yet
/// completed.
pub proof fn lemma_lesson_shape(k: int)
    requires
        0 <= k < LESSON_COUNT,
    ensures
        lesson_record(k).content.len() >= 2,
        !lesson_record(k).completed,
{
}

/// A section of a lesson.
fn section(title: &str, content: &str, fen: Option<&str>, moves: Option<Vec<String>>) -> (s:
    LessonSection)
    ensures
        s@ == (SectionRecord {
            title: title@,
            content: content@,
            fen: match fen {
                Some(f) => Some(f@),
                None => None,
            },
            moves: match moves {
                Some(m) => Some(texts(m@)),
                None => None,
            },
        }),
{
    LessonSection {
        title: title.to_owned(),
        content: content.to_owned(),
        fen: match fen {
            Some(f) => Some(f.to_owned()),
            None => None,
        },
        moves,
    }
}

/// The lesson at place `k` of the catalogue.
pub fn lesson_at(k: usize) -> (l: Lesson)
    requires
        k < LESSON_COUNT,
    ensures
        l@ == lesson_record(k as int),
{
    if k == 0 {
        // === MIDDLEGAME LESSONS ===
        let section0 = section(
            "The Importance of Active Pieces",
            "In chess, the value of a piece depends largely on its activity. A bishop locked behind its own pawns is worth less than a knight on a strong outpost. Always ask yourself: 'Are all my pieces doing something useful?'",
            Some("r1bqkb1r/pppppppp/2n2n2/8/4P3/5N2/PPPP1PPP/RNBQKB1R w KQkq - 2 3"),
            None,
        );
        let section1 = section(
            "Piece Coordination",
            "Pieces are most powerful when they work together. Knights and bishops complement each other well - the knight covers squares the bishop cannot reach. Rooks are strongest on open files, especially when doubled.",
            Some("r2qk2r/ppp2ppp/2np1n2/2b1p1B1/2B1P1b1/2NP1N2/PPP2PPP/R2QK2R w KQkq - 4 7"),
            None,
        );
        let section2 = section(
            "Improving Your Worst Piece",
            "A key middlegame strategy is to identify your least active piece and find a way to improve it. This simple concept can dramatically improve your play.",
            None,
            None,
        );
        let content = vec![section0, section1, section2];
        assert(sections(content@) =~= lesson_record(0).content);
        Lesson {
            id: "mid-01".to_owned(),
            title: "Piece Activity & Coordination".to_owned(),
            category: LessonCategory::Middlegame,
            difficulty: Difficulty::Beginner,
            description: "Learn how to keep your pieces active and working together as a team.".to_owned(),
            content,
            completed: false,
        }
    } else if k == 1 {
        let section0 = section(
            "Types of Pawn Structures",
            "Pawn structures form the backbone of your position. Key types include: isolated pawns, doubled pawns, backward pawns, pawn chains, and passed pawns. Each has its own set of plans and weaknesses.",
            None,
            None,
        );
        let section1 = section(
            "Weak Pawns and Outposts",
            "Weak pawns (isolated, backward, or doubled) create holes in the position. These holes can become outposts for your pieces, especially knights. Control of outposts is a key strategic concept.",
            Some("rnbqkb1r/pp3ppp/4pn2/3p4/3P4/4PN2/PP3PPP/RNBQKB1R w KQkq - 0 5"),
            None,
        );
        let section2 = section(
            "Pawn Breaks",
            "Pawn breaks are pawn moves that challenge the opponent's pawn structure. They often open lines for your pieces. Common examples: c5 break against the d4 pawn, f5 break to attack the kingside.",
            None,
            None,
        );
        let content = vec![section0, section1, section2];
        assert(sections(content@) =~= lesson_record(1).content);
        Lesson {
            id: "mid-02".to_owned(),
            title: "Pawn Structure Fundamentals".to_owned(),
            category: LessonCategory::Middlegame,
            difficulty: Difficulty::Beginner,
            description: "Understanding pawn structures and how they dictate your plans.".to_owned(),
            content,
            completed: false,
        }
    } else if k == 2 {
        let section0 = section(
            "Prerequisites for a King Attack",
            "Before launching an attack, you typically need: a lead in development, control of the center, and pieces aimed at the king. Don't attack prematurely without these conditions!",
            None,
            None,
        );
        let moves1 = vec!["Bxh7+".to_owned(), "Kxh7".to_owned(), "Ng5+".to_owned()];
        assert(texts(moves1@) =~= seq!["Bxh7+"@, "Kxh7"@, "Ng5+"@]);
        let section1 = section(
            "Common Attacking Patterns",
            "Learn to recognize patterns: the Greek Gift sacrifice (Bxh7+), the double bishop sacrifice, the rook lift (Ra3-h3), and pawn storms (g4-g5-g6). These patterns appear repeatedly in master games.",
            Some("r1bq1rk1/pppnnppp/4p3/3pP3/1b1P4/2NB1N2/PPP2PPP/R1BQK2R w KQ - 5 8"),
            Some(moves1),
        );
        let section2 = section(
            "Opposite-Side Castling Attacks",
            "When both sides castle on opposite sides, a pawn storm race begins. Advance your pawns on the side where the opponent's king is castled. Speed is crucial in these situations.",
            None,
            None,
        );
        let content = vec![section0, section1, section2];
        assert(sections(content@) =~= lesson_record(2).content);
        Lesson {
            id: "mid-03".to_owned(),
            title: "Attacking the King".to_owned(),
            category: LessonCategory::Middlegame,
            difficulty: Difficulty::Intermediate,
            description: "Learn the principles of launching a successful kingside attack.".to_owned(),
            content,
            completed: false,
        }
    } else if k == 3 {
        let section0 = section(
            "Forks (Double Attacks)",
            "A fork is when one piece attacks two or more enemy pieces simultaneously. Knights are especially effective at forking because they attack in a unique pattern that other pieces cannot block.",
            Some("r1bqkb1r/pppp1ppp/2n5/4p3/2B1n3/5N2/PPPP1PPP/RNBQK2R w KQkq - 0 4"),
            None,
        );
        let section1 = section(
            "Pins and Skewers",
            "A pin restricts a piece from moving because it would expose a more valuable piece behind it. A skewer is the reverse: the more valuable piece is forced to move, exposing a piece behind it.",
            None,
            None,
        );
        let section2 = section(
            "Discovered Attacks",
            "A discovered attack occurs when a piece moves, revealing an attack from another piece behind it. Discovered checks are especially dangerous because the moving piece can attack freely.",
            None,
            None,
        );
        let section3 = section(
            "Deflection and Decoy",
            "Deflection forces a defending piece away from a critical square. Decoy lures a piece to a bad square. Both tactics exploit overloaded defenders.",
            None,
            None,
        );
        let content = vec![section0, section1, section2, section3];
        assert(sections(content@) =~= lesson_record(3).content);
        Lesson {
            id: "mid-04".to_owned(),
            title: "Tactical Patterns & Combinations".to_owned(),
            category: LessonCategory::Tactics,
            difficulty: Difficulty::Intermediate,
            description: "Master the most common tactical patterns: forks, pins, skewers, and more.".to_owned(),
            content,
            completed: false,
        }
    } else if k == 4 {
        let section0 = section(
            "Evaluating the Position",
            "Before forming a plan, evaluate: material balance, king safety, pawn structure, piece activity, and control of key squares/files. This evaluation tells you what type of plan to pursue.",
            None,
            None,
        );
        let section1 = section(
            "Creating a Plan",
            "A plan should be based on the features of the position. If you have a space advantage, avoid trades. If you have better development, open the position. If your pawns are better, go into the endgame.",
            None,
            None,
        );
        let section2 = section(
            "Prophylactic Thinking",
            "Always ask: 'What does my opponent want to do?' Prophylaxis means preventing the opponent's plans before they can execute them. This is one of the most valuable skills at the advanced level.",
            None,
            None,
        );
        let content = vec![section0, section1, section2];
        assert(sections(content@) =~= lesson_record(4).content);
        Lesson {
            id: "mid-05".to_owned(),
            title: "Strategic Planning".to_owned(),
            category: LessonCategory::Strategy,
            difficulty: Difficulty::Advanced,
            description: "How to create and execute long-term strategic plans in the middlegame.".to_owned(),
            content,
            completed: false,
        }
    } else if k == 5 {
        // === ENDGAME LESSONS ===
        let section0 = section(
            "The Opposition",
            "Opposition is when two kings stand on the same file or rank with one square between them. The player who does NOT have to move has the opposition and usually the advantage in king and pawn endings.",
            Some("8/8/8/4k3/8/4K3/4P3/8 w - - 0 1"),
            None,
        );
        let section1 = section(
            "Key Squares",
            "Every pawn has key squares. If your king reaches these squares, the pawn will promote. For a pawn on e4, the key squares are d6, e6, and f6. Understanding key squares is essential for pawn endgames.",
            Some("8/8/8/8/4P3/8/8/4K2k w - - 0 1"),
            None,
        );
        let section2 = section(
            "The Square Rule",
            "Can the king catch a passed pawn? Draw a square from the pawn to the promotion square. If the defending king can step into this square, it catches the pawn. A quick visual tool for calculating pawn races.",
            None,
            None,
        );
        let content = vec![section0, section1, section2];
        assert(sections(content@) =~= lesson_record(5).content);
        Lesson {
            id: "end-01".to_owned(),
            title: "King and Pawn Endgames".to_owned(),
            category: LessonCategory::Endgame,
            difficulty: Difficulty::Beginner,
            description: "The most fundamental endgames every player must know.".to_owned(),
            content,
            completed: false,
        }
    } else if k == 6 {
        let moves0 = vec![
            "Rf4".to_owned(),
            "Rc2".to_owned(),
            "Ka7".to_owned(),
            "Ra2+".to_owned(),
            "Kb6".to_owned(),
            "Rb2+".to_owned(),
            "Ka6".to_owned(),
            "Ra2+".to_owned(),
            "Kb5".to_owned(),
            "Rb2+".to_owned(),
            "Rb4".to_owned(),
        ];
        assert(texts(moves0@) =~= seq![
            "Rf4"@,
            "Rc2"@,
            "Ka7"@,
            "Ra2+"@,
            "Kb6"@,
            "Rb2+"@,
            "Ka6"@,
            "Ra2+"@,
            "Kb5"@,
            "Rb2+"@,
            "Rb4"@,
        ]);
        let section0 = section(
            "Lucena Position",
            "The Lucena position is the most important winning technique in rook endgames. With your pawn on the 7th rank and king in front of it, use the 'bridge' technique to escort the pawn to promotion.",
            Some("1K1k4/1P6/8/8/8/8/1r6/5R2 w - - 0 1"),
            Some(moves0),
        );
        let section1 = section(
            "Philidor Position",
            "The Philidor position is the most important drawing technique. Keep your rook on the third rank (cutting off the enemy king), then switch to checking from behind when the pawn advances.",
            Some("4k3/8/8/4pK2/8/4R3/8/3r4 w - - 0 1"),
            None,
        );
        let section2 = section(
            "Active Rook Placement",
            "In rook endgames, an active rook is crucial. Place your rook behind passed pawns (both yours and your opponent's). 'Rooks belong behind passed pawns' - Siegbert Tarrasch.",
            None,
            None,
        );
        let content = vec![section0, section1, section2];
        assert(sections(content@) =~= lesson_record(6).content);
        Lesson {
            id: "end-02".to_owned(),
            title: "Rook Endgames".to_owned(),
            category: LessonCategory::Endgame,
            difficulty: Difficulty::Intermediate,
            description: "Rook endgames occur in about 50% of all games. Master the key techniques.".to_owned(),
            content,
            completed: false,
        }
    } else if k == 7 {
        let section0 = section(
            "Bishop Advantages",
            "Bishops excel in open positions with pawns on both sides of the board. They can control long diagonals and coordinate with a far-away king. The bishop pair is a significant advantage.",
            None,
            None,
        );
        let section1 = section(
            "Knight Advantages",
            "Knights prefer closed positions with fixed pawns. They can access both color squares and are excellent blockaders. In endgames with pawns on only one side, the knight can be superior.",
            None,
            None,
        );
        let section2 = section(
            "Good Bishop vs Bad Bishop",
            "A 'good' bishop has most of its pawns on the opposite color. A 'bad' bishop is blocked by its own pawns. Converting a bad bishop into a good one can decide the game.",
            None,
            None,
        );
        let content = vec![section0, section1, section2];
        assert(sections(content@) =~= lesson_record(7).content);
        Lesson {
            id: "end-03".to_owned(),
            title: "Bishop vs Knight Endgames".to_owned(),
            category: LessonCategory::Endgame,
            difficulty: Difficulty::Intermediate,
            description: "When is a bishop better than a knight, and vice versa?".to_owned(),
            content,
            completed: false,
        }
    } else if k == 8 {
        let section0 = section(
            "Queen vs Pawn on 7th Rank",
            "When a pawn reaches the 7th rank, the queen can usually stop it - but not always! Bishop and rook pawns on the 7th rank with the king nearby can draw because of stalemate tricks.",
            Some("8/1P6/8/K7/8/8/8/3q2k1 w - - 0 1"),
            None,
        );
        let section1 = section(
            "Perpetual Check Patterns",
            "In queen endgames, perpetual check is always a defensive resource. Learn to recognize when the position allows a draw by perpetual and when the stronger side can escape the checks.",
            None,
            None,
        );
        let content = vec![section0, section1];
        assert(sections(content@) =~= lesson_record(8).content);
        Lesson {
            id: "end-04".to_owned(),
            title: "Queen Endgames".to_owned(),
            category: LessonCategory::Endgame,
            difficulty: Difficulty::Advanced,
            description: "Complex but crucial - queen endgames require precision and pattern knowledge.".to_owned(),
            content,
            completed: false,
        }
    } else if k == 9 {
        let section0 = section(
            "Activate Your King",
            "In the endgame, the king becomes a powerful piece. Bring it to the center/action. The king should actively support your pawns and attack your opponent's weaknesses.",
            None,
            None,
        );
        let section1 = section(
            "Create Passed Pawns",
            "A passed pawn (no opposing pawn can block it) is a powerful asset. Create passed pawns by exchanging pawns, and then the opponent will need to use pieces to stop it.",
            None,
            None,
        );
        let section2 = section(
            "The Principle of Two Weaknesses",
            "One weakness can often be defended. To win, create a second weakness on the other side of the board. The opponent cannot defend both simultaneously. This is a key winning technique.",
            None,
            None,
        );
        let section3 = section(
            "Zugzwang",
            "A position where any move worsens the player's situation. Zugzwang is common in endgames and can be a decisive weapon. Learn to recognize and create zugzwang positions.",
            Some("8/8/1p2k3/1P2p3/1PK1P3/8/8/8 w - - 0 1"),
            None,
        );
        let content = vec![section0, section1, section2, section3];
        assert(sections(content@) =~= lesson_record(9).content);
        Lesson {
            id: "end-05".to_owned(),
            title: "Practical Endgame Principles".to_owned(),
            category: LessonCategory::Endgame,
            difficulty: Difficulty::Beginner,
            description: "General principles that apply across all endgame types.".to_owned(),
            content,
            completed: false,
        }
    } else if k == 10 {
        // === OPENING PRINCIPLES ===
        let section0 = section(
            "Control the Center",
            "The center (e4, d4, e5, d5) is the most important area of the board. Pieces in or near the center control more squares and can quickly shift to either side. Control it with pawns and pieces.",
            Some("rnbqkbnr/pppppppp/8/8/4P3/8/PPPP1PPP/RNBQKBNR b KQkq - 0 1"),
            None,
        );
        let section1 = section(
            "Develop Your Pieces",
            "In the opening, develop knights and bishops to active squares as quickly as possible. Generally, develop knights before bishops. Avoid moving the same piece twice without a good reason.",
            None,
            None,
        );
        let section2 = section(
            "King Safety",
            "Castle early to get your king to safety. Usually, kingside castling is preferred because it's faster. Don't open lines near your own king unless you have a concrete attacking plan.",
            None,
            None,
        );
        let section3 = section(
            "Common Opening Mistakes",
            "Don't move too many pawns, don't bring the queen out too early, don't move the same piece repeatedly, and don't neglect development for small advantages.",
            None,
            None,
        );
        let content = vec![section0, section1, section2, section3];
        assert(sections(content@) =~= lesson_record(10).content);
        Lesson {
            id: "open-01".to_owned(),
            title: "Opening Principles".to_owned(),
            category: LessonCategory::Opening,
            difficulty: Difficulty::Beginner,
            description: "Master the fundamental principles that guide good opening play.".to_owned(),
            content,
            completed: false,
        }
    } else {
        // === POSITIONAL PLAY ===
        let section0 = section(
            "Weak Squares",
            "Weak squares are squares that can no longer be defended by pawns. They become outposts for enemy pieces, especially knights. Identify and exploit weak squares in your opponent's camp.",
            None,
            None,
        );
        let section1 = section(
            "Open Files and Diagonals",
            "Control of open files (by rooks) and diagonals (by bishops) provides lasting advantages. Occupy open files with your rooks and try to penetrate into the opponent's position.",
            None,
            None,
        );
        let section2 = section(
            "The Exchange",
            "Knowing when to exchange pieces is crucial. Exchange pieces when: you have a material advantage, you want to relieve pressure, or you want to transition into a favorable endgame.",
            None,
            None,
        );
        let content = vec![section0, section1, section2];
        assert(sections(content@) =~= lesson_record(11).content);
        Lesson {
            id: "pos-01".to_owned(),
            title: "Positional Chess Basics".to_owned(),
            category: LessonCategory::Positional,
            difficulty: Difficulty::Intermediate,
            description: "Learn to play positionally - improve your position step by step without immediate tactical threats.".to_owned(),
            content,
            completed: false,
        }
    }
}

/// The selection that a category name asks for.
fn category_of(category: &str) -> (r: Option<LessonCategory>)
    ensures
        r == category_named(category@),
{
    let c = chars_of(category);
    if is_text(&c, "opening") {
        Some(LessonCategory::Opening)
    } else if is_text(&c, "middlegame") {
        Some(LessonCategory::Middlegame)
    } else if is_text(&c, "endgame") {
        Some(LessonCategory::Endgame)
    } else if is_text(&c, "tactics") {
        Some(LessonCategory::Tactics)
    } else if is_text(&c, "strategy") {
        Some(LessonCategory::Strategy)
    } else if is_text(&c, "positional") {
        Some(LessonCategory::Positional)
    } else {
        None
    }
}

/// The selected lessons of the catalogue, in its order.
fn select_lessons(wanted: Option<LessonCategory>) -> (r: Vec<Lesson>)
    ensures
        views_of(r@) == selection_upto(wanted, LESSON_COUNT as int),
{
    let mut out: Vec<Lesson> = Vec::new();
    let mut k: usize = 0;
    while k < LESSON_COUNT
        invariant
            k <= LESSON_COUNT,
            views_of(out@) == selection_upto(wanted, k as int),
        decreases LESSON_COUNT - k,
    {
        let l = lesson_at(k);
        let keep = match wanted {
            Some(c) => l.category == c,
            None => true,
        };
        if keep {
            let ghost before = views_of(out@);
            out.push(l);
            assert(views_of(out@) == before.push(lesson_record(k as int)));
        }
        k = k + 1;
    }
    out
}

/// Nothing is left out of a selection without a category.
proof fn lemma_full_selection(n: int)
    requires
        0 <= n,
    ensures
        selection_upto(None, n).len() == n,
        forall|k: int| 0 <= k < n ==> #[trigger] selection_upto(None, n)[k] == lesson_record(k),
    decreases n,
{
    if n > 0 {
        lemma_full_selection(n - 1);
    }
}

/// The whole catalogue of lessons, in its order.
pub fn get_all_lessons() -> (r: Vec<Lesson>)
    ensures
        r.len() == LESSON_COUNT,
        forall|k: int| 0 <= k < r.len() ==> (#[trigger] r[k])@ == lesson_record(k),
{
    let r = select_lessons(None);
    proof {
        lemma_full_selection(LESSON_COUNT as int);
        assert(views_of(r@).len() == r.len());
        assert forall|k: int| 0 <= k < r.len() implies (#[trigger] r[k])@ == lesson_record(k) by {
            assert(views_of(r@)[k] == r[k]@);
        }
    }
    r
}

/// The lessons of one category, in the order of the catalogue, each as the
/// catalogue holds it.
///
/// The categories are named `opening`, `middlegame`, `endgame`, `tactics`,
/// `strategy` and `positional`; any other name selects the whole catalogue.
pub fn get_lessons_by_category(category: &str) -> (r: Vec<Lesson>)
    ensures
        views_of(r@) == selection_upto(category_named(category@), LESSON_COUNT as int),
{
    select_lessons(category_of(category))
}

} // verus!
