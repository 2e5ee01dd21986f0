use chess_coach::board::{ChessMove, PieceKind};
use chess_coach::position::Position;

fn played(moves: &[&str]) -> Position {
    let mut pos = Position::new();
    for text in moves {
        let m = pos.read_move(text).unwrap();
        pos.play(&m);
    }
    pos
}

#[test]
fn initial_position() {
    let pos = Position::new();
    assert_eq!(pos.fen(), "rnbqkbnr/pppppppp/8/8/8/8/PPPPPPPP/RNBQKBNR w KQkq -");
    assert_eq!(pos.legal_moves().len(), 20);
    assert!(!pos.is_check());
    assert!(!pos.is_checkmate());
    assert_eq!(pos.piece_at(0), Some(PieceKind::Rook));
    assert_eq!(pos.piece_at(1), Some(PieceKind::Knight));
    assert_eq!(pos.piece_at(2), Some(PieceKind::Bishop));
    assert_eq!(pos.piece_at(3), Some(PieceKind::Queen));
    assert_eq!(pos.piece_at(4), Some(PieceKind::King));
    assert_eq!(pos.piece_at(12), Some(PieceKind::Pawn));
    assert_eq!(pos.piece_at(28), None);
    assert_eq!(pos.piece_at(60), Some(PieceKind::King));
    assert_eq!(pos.piece_at(63), Some(PieceKind::Rook));
}

#[test]
fn every_legal_move_is_on_the_board_and_legal() {
    let pos = played(&["e4", "e5", "Nf3", "Nc6", "Bb5", "a6"]);
    let moves = pos.legal_moves();
    assert!(moves.len() > 20);
    for m in &moves {
        assert!(pos.is_legal(m));
        let (from, to) = match *m {
            ChessMove::Normal { from, to, .. } => (from, to),
            ChessMove::EnPassant { from, to } => (from, to),
            ChessMove::Castle { king, rook } => (king, rook),
            ChessMove::Put { to, .. } => (to, to),
        };
        assert!(from < 64 && to < 64);
    }
    assert!(moves.iter().any(|m| m.same_as(&ChessMove::Castle { king: 4, rook: 7 })));
    assert!(!moves.iter().any(|m| m.same_as(&ChessMove::Castle { king: 4, rook: 0 })));
}

#[test]
fn notation_is_read_in_the_position() {
    let pos = Position::new();
    let e4 = pos.read_move("e4").unwrap();
    assert!(e4.same_as(&ChessMove::Normal { role: PieceKind::Pawn, from: 12, capture: None, to: 28, promotion: None }));
    let nf3 = pos.read_move("Nf3+").unwrap();
    assert!(nf3.same_as(&ChessMove::Normal { role: PieceKind::Knight, from: 6, capture: None, to: 21, promotion: None }));
    assert!(pos.read_move("Nf3#").is_some());
    for text in ["e5", "Ke2", "O-O", "Nf3++", "Qh5", "", "e", "exd5", "--", "Zz", "@e4", "N@e4"] {
        assert!(pos.read_move(text).is_none(), "{}", text);
    }
}

#[test]
fn moves_that_are_not_legal() {
    let pos = Position::new();
    let e5 = ChessMove::Normal { role: PieceKind::Pawn, from: 12, capture: None, to: 36, promotion: None };
    assert!(!pos.is_legal(&e5));
    assert!(!pos.is_legal(&ChessMove::Castle { king: 4, rook: 7 }));
    assert!(!pos.is_legal(&ChessMove::EnPassant { from: 36, to: 43 }));
    assert!(!pos.is_legal(&ChessMove::Put { role: PieceKind::Queen, to: 28 }));
    assert!(!pos.is_legal(&ChessMove::Normal { role: PieceKind::Pawn, from: 200, capture: None, to: 28, promotion: None }));
    let e4 = ChessMove::Normal { role: PieceKind::Pawn, from: 12, capture: None, to: 28, promotion: None };
    assert!(pos.is_legal(&e4));
}

#[test]
fn playing_changes_the_position() {
    let mut pos = Position::new();
    let e4 = pos.read_move("e4").unwrap();
    let next = pos.after(&e4);
    assert_eq!(next.fen(), "rnbqkbnr/pppppppp/8/8/4P3/8/PPPP1PPP/RNBQKBNR b KQkq -");
    assert_eq!(pos.fen(), "rnbqkbnr/pppppppp/8/8/8/8/PPPPPPPP/RNBQKBNR w KQkq -");
    pos.play(&e4);
    assert_eq!(pos.fen(), next.fen());
    assert_eq!(pos.piece_at(28), Some(PieceKind::Pawn));
    assert_eq!(pos.piece_at(12), None);
}

#[test]
fn check_and_mate() {
    let pos = played(&["f3", "e5", "g4", "Qh4#"]);
    assert!(pos.is_check());
    assert!(pos.is_checkmate());
    assert_eq!(pos.legal_moves().len(), 0);
    let pos = played(&["e4", "e5", "Qh5", "Nc6", "Qxf7+"]);
    assert!(pos.is_check());
    assert!(!pos.is_checkmate());
    assert_eq!(pos.legal_moves().len(), 1);
}

#[test]
fn notation_is_written_without_a_sign() {
    let pos = played(&["e4", "e5", "Qh5", "Nc6", "Bc4", "Nf6"]);
    let mate = pos.read_move("Qxf7#").unwrap();
    assert_eq!(pos.san(&mate), "Qxf7");
    let pos = played(&["Nf3", "d5", "d3", "d4"]);
    let nbd2 = pos.read_move("Nbd2").unwrap();
    assert_eq!(pos.san(&nbd2), "Nbd2");
    let nfd2 = pos.read_move("Nfd2").unwrap();
    assert_eq!(pos.san(&nfd2), "Nfd2");
    let pos = played(&["e4", "e5", "Nf3", "Nc6", "Bb5", "a6"]);
    assert_eq!(pos.san(&ChessMove::Castle { king: 4, rook: 7 }), "O-O");
}
