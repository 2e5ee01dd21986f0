use chess_coach::analysis::{classify_move, gather_traits};
use chess_coach::board::{ChessMove, PieceKind};
use chess_coach::models::MoveClassification;
use chess_coach::recommend::{
    centre_bonus_of, evaluate_move, find_best_move, score_candidate, value_of, Outlook,
};
use chess_coach::position::Position;

fn after(moves: &[&str]) -> Position {
    let mut pos = Position::new();
    for text in moves {
        let m = pos.read_move(text).unwrap();
        pos.play(&m);
    }
    pos
}

fn mate_in_one() -> Position {
    after(&["e4", "e5", "Qh5", "Nc6", "Bc4", "Nf6"])
}

fn normal(role: PieceKind, from: u8, to: u8, capture: Option<PieceKind>) -> ChessMove {
    ChessMove::Normal { role, from, capture, to, promotion: None }
}

fn calm() -> Outlook {
    Outlook { mates: false, checks: false, target: None, capture_replies: 0 }
}

#[test]
fn piece_values() {
    assert_eq!(value_of(PieceKind::Pawn), 100);
    assert_eq!(value_of(PieceKind::Knight), 320);
    assert_eq!(value_of(PieceKind::Bishop), 330);
    assert_eq!(value_of(PieceKind::Rook), 500);
    assert_eq!(value_of(PieceKind::Queen), 900);
    assert_eq!(value_of(PieceKind::King), 0);
}

#[test]
fn mate_scores_highest_and_alone() {
    let m = normal(PieceKind::Queen, 39, 53, Some(PieceKind::Pawn));
    let o = Outlook { mates: true, checks: true, target: Some(PieceKind::Pawn), capture_replies: 3 };
    assert_eq!(score_candidate(&m, &o), 10000);
}

#[test]
fn centre_bonus_by_destination() {
    let wanted = [(27u8, 20), (28, 15), (35, 15), (36, 10), (19, 15), (18, 10), (26, 15), (0, 0), (63, 0), (24, 5), (3, 5), (31, 0), (59, 0), (51, 5), (43, 10)];
    for (to, bonus) in wanted {
        let m = normal(PieceKind::Knight, 1, to, None);
        assert_eq!(score_candidate(&m, &calm()), bonus, "to {}", to);
    }
    let castle = ChessMove::Castle { king: 4, rook: 7 };
    assert_eq!(score_candidate(&castle, &calm()), 60);
    let castle = ChessMove::Castle { king: 60, rook: 56 };
    assert_eq!(score_candidate(&castle, &calm()), 60);
    let put = ChessMove::Put { role: PieceKind::Queen, to: 27 };
    assert_eq!(score_candidate(&put, &calm()), 20);
    let passing = ChessMove::EnPassant { from: 36, to: 43 };
    assert_eq!(score_candidate(&passing, &calm()), 100 + 10);
    let passing = ChessMove::EnPassant { from: 25, to: 16 };
    assert_eq!(score_candidate(&passing, &calm()), 100);
}

#[test]
fn centre_bonus_of_every_square() {
    for sq in 0..64u8 {
        let file = (sq % 8) as i32;
        let rank = (sq / 8) as i32;
        let want = (4 - ((file - 3).abs() + (rank - 3).abs())).max(0) * 5;
        assert_eq!(centre_bonus_of(sq), want);
    }
}

#[test]
fn score_adds_up() {
    let takes_queen = normal(PieceKind::Knight, 1, 27, Some(PieceKind::Queen));
    let mut o = calm();
    o.target = Some(PieceKind::Queen);
    o.checks = true;
    o.capture_replies = 2;
    assert_eq!(score_candidate(&takes_queen, &o), 50 + 900 + 20);
    let promotes = ChessMove::Normal { role: PieceKind::Pawn, from: 52, capture: Some(PieceKind::Rook), to: 61, promotion: Some(PieceKind::Queen) };
    let mut o = calm();
    o.target = Some(PieceKind::Rook);
    assert_eq!(score_candidate(&promotes, &o), 500 + 800);
    let passing = ChessMove::EnPassant { from: 36, to: 43 };
    assert_eq!(score_candidate(&passing, &calm()), 110);
    let mut o = calm();
    o.capture_replies = 1;
    assert_eq!(score_candidate(&passing, &o), 110);
    assert_eq!(score_candidate(&normal(PieceKind::King, 4, 5, None), &o), -20);
    assert_eq!(score_candidate(&normal(PieceKind::Pawn, 11, 27, None), &o), 0);
    assert_eq!(score_candidate(&ChessMove::Castle { king: 4, rook: 0 }, &o), 40);
    let takes_king_square = normal(PieceKind::Queen, 1, 0, Some(PieceKind::King));
    let mut o = calm();
    o.target = Some(PieceKind::King);
    assert_eq!(score_candidate(&takes_king_square, &o), 0);
}

#[test]
fn scores_in_a_position() {
    let pos = mate_in_one();
    let mate = normal(PieceKind::Queen, 39, 53, Some(PieceKind::Pawn));
    assert_eq!(evaluate_move(&pos, &mate), 10000);
    let takes_e5 = normal(PieceKind::Queen, 39, 36, Some(PieceKind::Pawn));
    assert_eq!(evaluate_move(&pos, &takes_e5), 160);
    let takes_h7 = normal(PieceKind::Queen, 39, 55, Some(PieceKind::Pawn));
    assert_eq!(evaluate_move(&pos, &takes_h7), 100);
    let d3 = normal(PieceKind::Pawn, 11, 19, None);
    assert_eq!(evaluate_move(&pos, &d3), -5);
    let bxf7 = normal(PieceKind::Bishop, 26, 53, Some(PieceKind::Pawn));
    assert_eq!(evaluate_move(&pos, &bxf7), 150);
    // The position itself is left as it was.
    assert_eq!(pos.fen(), "r1bqkb1r/pppp1ppp/2n2n2/4p2Q/2B1P3/8/PPPP1PPP/RNB1K1NR w KQkq -");
}

#[test]
fn capture_of_a_knight_counts_its_value() {
    let pos = after(&["e4", "e5", "Nf3", "Nc6", "Bb5", "a6"]);
    let bxc6 = normal(PieceKind::Bishop, 33, 42, Some(PieceKind::Knight));
    assert_eq!(evaluate_move(&pos, &bxc6), 320 + 5);
    // After castling the pawn on a6 can take the bishop.
    let castle = ChessMove::Castle { king: 4, rook: 7 };
    assert_eq!(evaluate_move(&pos, &castle), 60 - 20);
}

#[test]
fn capture_in_passing_counts_a_pawn() {
    let pos = after(&["e4", "e6", "e5", "d5"]);
    // A pawn, and 10 for the square d6.
    let passing = ChessMove::EnPassant { from: 36, to: 43 };
    assert_eq!(evaluate_move(&pos, &passing), 110);
}

#[test]
fn recommends_the_mate() {
    let pos = mate_in_one();
    let d3 = normal(PieceKind::Pawn, 11, 19, None);
    let (san, from, to) = find_best_move(&pos, &d3);
    assert_eq!(san.as_deref(), Some("Qxf7"));
    assert_eq!(from.as_deref(), Some("h5"));
    assert_eq!(to.as_deref(), Some("f7"));
}

#[test]
fn recommends_another_move_than_the_one_played() {
    let pos = mate_in_one();
    let mate = normal(PieceKind::Queen, 39, 53, Some(PieceKind::Pawn));
    let (san, from, to) = find_best_move(&pos, &mate);
    assert_eq!(san.as_deref(), Some("Qxe5"));
    assert_eq!(from.as_deref(), Some("h5"));
    assert_eq!(to.as_deref(), Some("e5"));
}

#[test]
fn no_recommendation_without_a_choice() {
    // After 3. Qxf7+ the king must take the queen.
    let pos = after(&["e4", "e5", "Qh5", "Nc6", "Qxf7+"]);
    let kxf7 = normal(PieceKind::King, 60, 53, Some(PieceKind::Queen));
    assert!(pos.is_legal(&kxf7));
    assert_eq!(pos.legal_moves().len(), 1);
    assert_eq!(find_best_move(&pos, &kxf7), (None, None, None));
    assert_eq!(classify_move(&pos, &kxf7, 50, 60), MoveClassification::ForcedMove);
    assert_eq!(classify_move(&pos, &kxf7, 5, 6), MoveClassification::ForcedMove);
    assert_eq!(gather_traits(&pos, &kxf7).legal_moves, 1);
}

#[test]
fn traits_of_a_mating_move() {
    let pos = mate_in_one();
    let mate = normal(PieceKind::Queen, 39, 53, Some(PieceKind::Pawn));
    let t = gather_traits(&pos, &mate);
    assert!(t.is_capture && t.gives_check && t.is_checkmate);
    assert!(!t.is_promotion && !t.is_castle);
    assert!(t.legal_moves > 30);
    assert_eq!(classify_move(&pos, &mate, 6, 7), MoveClassification::Brilliant);
    let takes_e5 = normal(PieceKind::Queen, 39, 36, Some(PieceKind::Pawn));
    let t = gather_traits(&pos, &takes_e5);
    assert!(t.is_capture && t.gives_check && !t.is_checkmate);
    assert_eq!(classify_move(&pos, &takes_e5, 6, 7), MoveClassification::Great);
    let d3 = normal(PieceKind::Pawn, 11, 19, None);
    let t = gather_traits(&pos, &d3);
    assert!(!t.is_capture && !t.gives_check && !t.is_checkmate);
    assert_eq!(classify_move(&pos, &d3, 6, 11), MoveClassification::Blunder);
}

#[test]
fn castling_early_is_good() {
    let pos = after(&["e4", "e5", "Nf3", "Nc6", "Bb5", "a6"]);
    let castle = ChessMove::Castle { king: 4, rook: 7 };
    assert_eq!(classify_move(&pos, &castle, 6, 40), MoveClassification::Good);
    assert_eq!(classify_move(&pos, &castle, 19, 40), MoveClassification::Good);
    assert_eq!(classify_move(&pos, &castle, 25, 40), MoveClassification::Best);
}
