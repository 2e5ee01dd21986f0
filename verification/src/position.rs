//! A position of a game of chess.
//!
//! A [`Position`] is the initial position or what a legal move made of a
//! position, so the rules engine can always be asked about it. What the
//! engine answers is named in [`crate::engine`].

use vstd::prelude::*;
use crate::board::{on_board, ChessMove, PieceKind};
use crate::engine::{
    clone_position, epd_text, format_fen, in_check, initial_position, is_check, is_checkmate,
    is_mated, legal_moves, legal_moves_of, parse_san, piece_on, piece_role_at, play, playable,
    position_after, resolve_san, san_of_move, san_parsed, san_resolved, san_text, start_position,
};

verus! {

/// A position that was reached in a game.
pub struct Position {
    inner: shakmaty::Chess,
}

/// The move that a text in standard algebraic notation denotes in a
/// position: none where the text is not well formed, or where no legal move
/// or more than one fits it.
pub open spec fn denoted_move(pos: shakmaty::Chess, text: Seq<char>) -> Option<ChessMove> {
    match san_parsed(text) {
        Some(san) => san_resolved(san, pos),
        None => None,
    }
}

impl View for Position {
    type V = shakmaty::Chess;

    closed spec fn view(&self) -> shakmaty::Chess {
        self.inner
    }
}

impl Position {
    #[verifier::type_invariant]
    spec fn is_playable(self) -> bool {
        playable(self.inner)
    }

    /// The initial position.
    pub fn new() -> (pos: Position)
        ensures
            pos@ == initial_position(),
            epd_text(pos@) == "rnbqkbnr/pppppppp/8/8/8/8/PPPPPPPP/RNBQKBNR w KQkq -"@,
    {
        Position { inner: start_position() }
    }

    /// The legal moves, in the order in which the rules engine lists them.
    pub fn legal_moves(&self) -> (r: Vec<ChessMove>)
        ensures
            r@ == legal_moves_of(self@),
            forall|i: int| 0 <= i < r.len() ==> (#[trigger] r[i]).wf(),
    {
        proof {
            use_type_invariant(self);
        }
        legal_moves(&self.inner)
    }

    /// Whether `m` is a legal move.
    pub fn is_legal(&self, m: &ChessMove) -> (r: bool)
        ensures
            r == legal_moves_of(self@).contains(*m),
            r ==> m.wf(),
    {
        let moves = self.legal_moves();
        let mut i: usize = 0;
        while i < moves.len()
            invariant
                i <= moves.len(),
                moves@ == legal_moves_of(self@),
                forall|j: int| 0 <= j < moves.len() ==> (#[trigger] moves[j]).wf(),
                forall|j: int| 0 <= j < i ==> moves[j] != *m,
            decreases moves.len() - i,
        {
            if moves[i].same_as(m) {
                return true;
            }
            i = i + 1;
        }
        false
    }

    /// The legal move that `text` denotes in standard algebraic notation, if
    /// it denotes exactly one. A check or mate sign at the end is ignored.
    pub fn read_move(&self, text: &str) -> (r: Option<ChessMove>)
        ensures
            r == denoted_move(self@, text@),
            r matches Some(m) ==> m.wf() && legal_moves_of(self@).contains(m),
    {
        proof {
            use_type_invariant(self);
        }
        match parse_san(text) {
            Some(san) => resolve_san(&san, &self.inner),
            None => None,
        }
    }

    /// Plays a legal move.
    pub fn play(&mut self, m: &ChessMove)
        requires
            m.wf(),
            legal_moves_of(old(self)@).contains(*m),
        ensures
            final(self)@ == position_after(old(self)@, *m),
    {
        proof {
            use_type_invariant(&*self);
        }
        play(&mut self.inner, m);
    }

    /// The position after a legal move; this position stays as it is.
    pub fn after(&self, m: &ChessMove) -> (r: Position)
        requires
            m.wf(),
            legal_moves_of(self@).contains(*m),
        ensures
            r@ == position_after(self@, *m),
    {
        proof {
            use_type_invariant(self);
        }
        let mut inner = clone_position(&self.inner);
        play(&mut inner, m);
        Position { inner }
    }

    /// Whether the side to move is in check.
    pub fn is_check(&self) -> (r: bool)
        ensures
            r == in_check(self@),
    {
        is_check(&self.inner)
    }

    /// Whether the side to move is checkmated.
    pub fn is_checkmate(&self) -> (r: bool)
        ensures
            r == is_mated(self@),
    {
        proof {
            use_type_invariant(self);
        }
        is_checkmate(&self.inner)
    }

    /// The kind of the piece on a square, if there is one.
    pub fn piece_at(&self, sq: u8) -> (r: Option<PieceKind>)
        requires
            on_board(sq),
        ensures
            r == piece_on(self@, sq),
    {
        piece_role_at(&self.inner, sq)
    }

    /// The position in Extended Position Description.
    pub fn fen(&self) -> (r: String)
        ensures
            r@ == epd_text(self@),
    {
        proof {
            use_type_invariant(self);
        }
        format_fen(clone_position(&self.inner))
    }

    /// A legal move in standard algebraic notation, without a sign for
    /// check or mate.
    pub fn san(&self, m: &ChessMove) -> (r: String)
        requires
            m.wf(),
            legal_moves_of(self@).contains(*m),
        ensures
            r@ == san_text(self@, *m),
    {
        proof {
            use_type_invariant(self);
        }
        san_of_move(&self.inner, m)
    }
}

} // verus!
