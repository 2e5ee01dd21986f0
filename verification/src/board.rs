//! Squares, pieces and moves as plain values.
//!
//! A square is its index from 0 (a1) to 63 (h8), files first: the file is
//! the index modulo 8, the rank the index divided by 8.

use vstd::prelude::*;
use crate::text::digit;

verus! {

/// The kind of a piece.
#[derive(Debug, Clone, Copy, PartialEq, Eq, Structural)]
pub enum PieceKind {
    Pawn,
    Knight,
    Bishop,
    Rook,
    Queen,
    King,
}

/// A move with everything that is known of it once it is legal in its
/// position.
#[derive(Debug, Clone, Copy)]
pub enum ChessMove {
    /// A piece goes from one square to another, perhaps capturing there,
    /// perhaps promoting.
    Normal { role: PieceKind, from: u8, capture: Option<PieceKind>, to: u8, promotion: Option<PieceKind> },
    /// A pawn captures in passing.
    EnPassant { from: u8, to: u8 },
    /// The king castles with the rook on the given square.
    Castle { king: u8, rook: u8 },
    /// A piece is put on the board.
    Put { role: PieceKind, to: u8 },
}

/// Whether `sq` is a square of the board.
pub open spec fn on_board(sq: u8) -> bool {
    sq < 64
}

/// The file of a square, 0 for `a` to 7 for `h`.
pub open spec fn file_of(sq: u8) -> int {
    sq as int % 8
}

/// The rank of a square, 0 for the first to 7 for the eighth.
pub open spec fn rank_of(sq: u8) -> int {
    sq as int / 8
}

/// The letter of a file.
pub open spec fn file_letter(file: int) -> char {
    if file == 0 {
        'a'
    } else if file == 1 {
        'b'
    } else if file == 2 {
        'c'
    } else if file == 3 {
        'd'
    } else if file == 4 {
        'e'
    } else if file == 5 {
        'f'
    } else if file == 6 {
        'g'
    } else {
        'h'
    }
}

/// The name of a square, such as `e4`.
pub open spec fn square_name(sq: u8) -> Seq<char> {
    seq![file_letter(file_of(sq)), digit(rank_of(sq) + 1)]
}

/// The file on which a castling king arrives: `g` on the king's side, `c`
/// on the queen's side.
pub open spec fn castled_king_square(king: u8, rook: u8) -> u8 {
    if file_of(rook) > file_of(king) {
        (6 + 8 * rank_of(king)) as u8
    } else {
        (2 + 8 * rank_of(king)) as u8
    }
}

impl ChessMove {
    /// Every square of the move is a square of the board.
    pub open spec fn wf(self) -> bool {
        match self {
            ChessMove::Normal { from, to, .. } => on_board(from) && on_board(to),
            ChessMove::EnPassant { from, to } => on_board(from) && on_board(to),
            ChessMove::Castle { king, rook } => on_board(king) && on_board(rook),
            ChessMove::Put { to, .. } => on_board(to),
        }
    }

    /// A normal move that takes a piece, or a capture in passing.
    pub open spec fn captures(self) -> bool {
        match self {
            ChessMove::Normal { capture, .. } => capture is Some,
            ChessMove::EnPassant { .. } => true,
            _ => false,
        }
    }

    /// A normal move that promotes.
    pub open spec fn promotes(self) -> bool {
        match self {
            ChessMove::Normal { promotion, .. } => promotion is Some,
            _ => false,
        }
    }

    /// A castling move.
    pub open spec fn castles(self) -> bool {
        self is Castle
    }

    /// The squares between which the move is drawn on a board: origin and
    /// destination, for castling those of the king, for a piece put on the
    /// board twice its square.
    pub open spec fn arrow(self) -> (u8, u8) {
        match self {
            ChessMove::Normal { from, to, .. } => (from, to),
            ChessMove::EnPassant { from, to } => (from, to),
            ChessMove::Castle { king, rook } => (king, castled_king_square(king, rook)),
            ChessMove::Put { to, .. } => (to, to),
        }
    }

    /// The square on which the move ends: for castling the one on which
    /// the king arrives.
    pub fn destination(&self) -> (sq: u8)
        requires
            self.wf(),
        ensures
            sq == self.arrow().1,
            on_board(sq),
    {
        match self {
            ChessMove::Normal { to, .. } => *to,
            ChessMove::EnPassant { to, .. } => *to,
            ChessMove::Castle { king, rook } => if *rook % 8 > *king % 8 {
                6 + 8 * (*king / 8)
            } else {
                2 + 8 * (*king / 8)
            },
            ChessMove::Put { to, .. } => *to,
        }
    }

    pub fn is_capture(&self) -> (r: bool)
        ensures
            r == self.captures(),
    {
        match self {
            ChessMove::Normal { capture, .. } => capture.is_some(),
            ChessMove::EnPassant { .. } => true,
            _ => false,
        }
    }

    pub fn is_promotion(&self) -> (r: bool)
        ensures
            r == self.promotes(),
    {
        match self {
            ChessMove::Normal { promotion, .. } => promotion.is_some(),
            _ => false,
        }
    }

    pub fn is_castle(&self) -> (r: bool)
        ensures
            r == self.castles(),
    {
        match self {
            ChessMove::Castle { .. } => true,
            _ => false,
        }
    }

    /// Whether two moves are the same in every part.
    pub fn same_as(&self, other: &ChessMove) -> (r: bool)
        ensures
            r == (*self == *other),
    {
        match (self, other) {
            (
                ChessMove::Normal { role, from, capture, to, promotion },
                ChessMove::Normal { role: r2, from: f2, capture: c2, to: t2, promotion: p2 },
            ) => *role == *r2 && *from == *f2 && same_kind(capture, c2) && *to == *t2
                && same_kind(promotion, p2),
            (ChessMove::EnPassant { from, to }, ChessMove::EnPassant { from: f2, to: t2 }) => {
                *from == *f2 && *to == *t2
            },
            (ChessMove::Castle { king, rook }, ChessMove::Castle { king: k2, rook: r2 }) => {
                *king == *k2 && *rook == *r2
            },
            (ChessMove::Put { role, to }, ChessMove::Put { role: r2, to: t2 }) => {
                *role == *r2 && *to == *t2
            },
            _ => false,
        }
    }
}

/// Whether two optional roles are the same.
fn same_kind(a: &Option<PieceKind>, b: &Option<PieceKind>) -> (r: bool)
    ensures
        r == (*a == *b),
{
    match (a, b) {
        (Some(x), Some(y)) => *x == *y,
        (None, None) => true,
        _ => false,
    }
}

/// The letter of a file.
fn file_char(file: u8) -> (c: char)
    requires
        file < 8,
    ensures
        c == file_letter(file as int),
{
    if file == 0 {
        'a'
    } else if file == 1 {
        'b'
    } else if file == 2 {
        'c'
    } else if file == 3 {
        'd'
    } else if file == 4 {
        'e'
    } else if file == 5 {
        'f'
    } else if file == 6 {
        'g'
    } else {
        'h'
    }
}

/// The digit of a rank.
fn rank_char(rank: u8) -> (c: char)
    requires
        rank < 8,
    ensures
        c == digit(rank as int + 1),
{
    if rank == 0 {
        '1'
    } else if rank == 1 {
        '2'
    } else if rank == 2 {
        '3'
    } else if rank == 3 {
        '4'
    } else if rank == 4 {
        '5'
    } else if rank == 5 {
        '6'
    } else if rank == 6 {
        '7'
    } else {
        '8'
    }
}

/// The name of a square: the letter of its file, then the digit of its rank.
pub fn square_to_name(sq: u8) -> (r: String)
    requires
        on_board(sq),
    ensures
        r@ == square_name(sq),
{
    let mut s = String::new();
    s.push(file_char(sq % 8));
    s.push(rank_char(sq / 8));
    s
}

/// The names of the squares between which a move is drawn on a board.
///
/// Castling is shown as the king's move, to the g-file on the king's side
/// and to the c-file on the queen's side.
pub fn extract_move_squares(m: &ChessMove) -> (r: (String, String))
    requires
        m.wf(),
    ensures
        r.0@ == square_name(m.arrow().0),
        r.1@ == square_name(m.arrow().1),
{
    match m {
        ChessMove::Normal { from, to, .. } => (square_to_name(*from), square_to_name(*to)),
        ChessMove::Castle { king, rook } => {
            let king_to: u8 = if *rook % 8 > *king % 8 {
                6 + 8 * (*king / 8)
            } else {
                2 + 8 * (*king / 8)
            };
            (square_to_name(*king), square_to_name(king_to))
        },
        ChessMove::EnPassant { from, to } => (square_to_name(*from), square_to_name(*to)),
        ChessMove::Put { to, .. } => (square_to_name(*to), square_to_name(*to)),
    }
}

} // verus!
