//! The rules of chess, which this crate does not implement: every function
//! here hands its work to `shakmaty` (and one to `chrono`), and its contract
//! is taken on trust.
//!
//! A position is carried as a `shakmaty::Chess`, of which the verifier sees
//! nothing. What the rules engine computes from a position is a function of
//! that position alone, so each result has a name under which contracts
//! speak of it. Moves cross the border as plain [`ChessMove`] values.

use vstd::prelude::*;
use shakmaty::{Move, Position};
use crate::board::{on_board, ChessMove, PieceKind};

verus! {

#[verifier::external_type_specification]
#[verifier::external_body]
pub struct ExChess(shakmaty::Chess);

#[verifier::external_type_specification]
#[verifier::external_body]
pub struct ExSan(shakmaty::san::San);

#[verifier::external_type_specification]
#[verifier::external_body]
pub struct ExMove(shakmaty::Move);

#[verifier::external_type_specification]
#[verifier::external_body]
pub struct ExRole(shakmaty::Role);

#[verifier::external_type_specification]
#[verifier::external_body]
pub struct ExSquare(shakmaty::Square);

/// Whether `pos` is the position that `Chess::default()` builds.
pub uninterp spec fn is_initial_position(pos: shakmaty::Chess) -> bool;

/// Whether `pos` is a position of a game: the initial position, or one
/// reached from such a position by a legal move.
pub uninterp spec fn playable(pos: shakmaty::Chess) -> bool;

/// The legal moves of a position, in the order in which the rules engine
/// lists them.
pub uninterp spec fn legal_moves_of(pos: shakmaty::Chess) -> Seq<ChessMove>;

/// The position after a move.
pub uninterp spec fn position_after(pos: shakmaty::Chess, m: ChessMove) -> shakmaty::Chess;

/// Whether the side to move is in check.
pub uninterp spec fn in_check(pos: shakmaty::Chess) -> bool;

/// The kind of the piece on a square, if there is one.
pub uninterp spec fn piece_on(pos: shakmaty::Chess, sq: u8) -> Option<PieceKind>;

/// The position in Extended Position Description: board, side to move,
/// castling rights and the en passant square if a capture there is legal.
pub uninterp spec fn epd_text(pos: shakmaty::Chess) -> Seq<char>;

/// A legal move of a position in standard algebraic notation, without a
/// check or mate suffix.
pub uninterp spec fn san_text(pos: shakmaty::Chess, m: ChessMove) -> Seq<char>;

/// What a text in standard algebraic notation says, if it is well formed.
pub uninterp spec fn san_parsed(text: Seq<char>) -> Option<shakmaty::san::San>;

/// The one legal move of a position that a notation denotes, if there is
/// exactly one.
pub uninterp spec fn san_resolved(san: shakmaty::san::San, pos: shakmaty::Chess) -> Option<
    ChessMove,
>;

/// The calendar date (UTC) of a time given in seconds since 1970, written
/// as year, month and day with dots between them.
pub uninterp spec fn timestamp_date(seconds: u64) -> Seq<char>;

/// The position at the start of every game.
pub open spec fn initial_position() -> shakmaty::Chess {
    choose|pos: shakmaty::Chess| is_initial_position(pos)
}

/// Whether the side to move is checkmated: in check and without a legal
/// move.
pub open spec fn is_mated(pos: shakmaty::Chess) -> bool {
    in_check(pos) && legal_moves_of(pos).len() == 0
}

/// Converts a kind of piece of `shakmaty` to this crate's, variant by
/// variant.
#[verifier::external_body]
fn plain_role(role: shakmaty::Role) -> PieceKind {
    match role {
        shakmaty::Role::Pawn => PieceKind::Pawn,
        shakmaty::Role::Knight => PieceKind::Knight,
        shakmaty::Role::Bishop => PieceKind::Bishop,
        shakmaty::Role::Rook => PieceKind::Rook,
        shakmaty::Role::Queen => PieceKind::Queen,
        shakmaty::Role::King => PieceKind::King,
    }
}

/// Converts a kind of piece to `shakmaty`'s, variant by variant.
#[verifier::external_body]
fn outside_role(role: PieceKind) -> shakmaty::Role {
    match role {
        PieceKind::Pawn => shakmaty::Role::Pawn,
        PieceKind::Knight => shakmaty::Role::Knight,
        PieceKind::Bishop => shakmaty::Role::Bishop,
        PieceKind::Rook => shakmaty::Role::Rook,
        PieceKind::Queen => shakmaty::Role::Queen,
        PieceKind::King => shakmaty::Role::King,
    }
}

/// `Square::new`: the square with the given index. It panics on an index
/// above 63, which `requires` leaves out.
#[verifier::external_body]
fn outside_square(sq: u8) -> shakmaty::Square
    requires
        on_board(sq),
{
    shakmaty::Square::new(u32::from(sq))
}

/// Converts a move of `shakmaty` to this crate's, field by field. A
/// `shakmaty::Square` is one of 64 values, so every square of the result is
/// on the board.
#[verifier::external_body]
fn plain_move(m: &Move) -> (r: ChessMove)
    ensures
        r.wf(),
{
    match *m {
        Move::Normal { role, from, capture, to, promotion } => ChessMove::Normal {
            role: plain_role(role), from: from.into(), capture: capture.map(plain_role),
            to: to.into(), promotion: promotion.map(plain_role),
        },
        Move::EnPassant { from, to } => ChessMove::EnPassant { from: from.into(), to: to.into() },
        Move::Castle { king, rook } => ChessMove::Castle { king: king.into(), rook: rook.into() },
        Move::Put { role, to } => ChessMove::Put { role: plain_role(role), to: to.into() },
    }
}

/// Converts a move to `shakmaty`'s, field by field.
#[verifier::external_body]
fn outside_move(m: &ChessMove) -> Move
    requires
        m.wf(),
{
    let sq = outside_square;
    match *m {
        ChessMove::Normal { role, from, capture, to, promotion } => Move::Normal {
            role: outside_role(role), from: sq(from), capture: capture.map(outside_role),
            to: sq(to), promotion: promotion.map(outside_role),
        },
        ChessMove::EnPassant { from, to } => Move::EnPassant { from: sq(from), to: sq(to) },
        ChessMove::Castle { king, rook } => Move::Castle { king: sq(king), rook: sq(rook) },
        ChessMove::Put { role, to } => Move::Put { role: outside_role(role), to: sq(to) },
    }
}

/// `Chess::default()`: the initial position of a game of chess. It takes no
/// argument and builds the same value at every call, which is a position of
/// a game and is written `rnbqkbnr/pppppppp/8/8/8/8/PPPPPPPP/RNBQKBNR w KQkq -`.
#[verifier::external_body]
pub(crate) fn start_position() -> (pos: shakmaty::Chess)
    ensures
        is_initial_position(pos),
        forall|other: shakmaty::Chess| is_initial_position(other) ==> other == pos,
        playable(pos),
        epd_text(pos) == "rnbqkbnr/pppppppp/8/8/8/8/PPPPPPPP/RNBQKBNR w KQkq -"@,
{
    shakmaty::Chess::default()
}

/// `Clone::clone` of a position: an equal position.
#[verifier::external_body]
pub(crate) fn clone_position(pos: &shakmaty::Chess) -> (r: shakmaty::Chess)
    ensures
        r == *pos,
{
    pos.clone()
}

/// `Position::legal_moves`: all legal moves of the position, each converted
/// to a plain move. It panics on a position without a king of the side to
/// move, which no position of a game is.
#[verifier::external_body]
pub(crate) fn legal_moves(pos: &shakmaty::Chess) -> (r: Vec<ChessMove>)
    requires
        playable(*pos),
    ensures
        r@ == legal_moves_of(*pos),
        forall|i: int| 0 <= i < r.len() ==> (#[trigger] r[i]).wf(),
{
    pos.legal_moves().iter().map(plain_move).collect()
}

/// `Position::play_unchecked`: plays a move, which the caller knows to be
/// legal. A legal move leads from a position of a game to a position of a
/// game.
#[verifier::external_body]
pub(crate) fn play(pos: &mut shakmaty::Chess, m: &ChessMove)
    requires
        playable(*old(pos)),
        m.wf(),
        legal_moves_of(*old(pos)).contains(*m),
    ensures
        *final(pos) == position_after(*old(pos), *m),
        playable(*final(pos)),
    no_unwind
{
    pos.play_unchecked(&outside_move(m));
}

/// `Position::is_check`: whether the king of the side to move is attacked.
#[verifier::external_body]
pub(crate) fn is_check(pos: &shakmaty::Chess) -> (r: bool)
    ensures
        r == in_check(*pos),
{
    pos.is_check()
}

/// `Position::is_checkmate`: in check and without a legal move.
#[verifier::external_body]
pub(crate) fn is_checkmate(pos: &shakmaty::Chess) -> (r: bool)
    requires
        playable(*pos),
    ensures
        r == is_mated(*pos),
{
    pos.is_checkmate()
}

/// `Board::piece_at` on the board of the position: the piece on a square,
/// of which the kind is handed on.
#[verifier::external_body]
pub(crate) fn piece_role_at(pos: &shakmaty::Chess, sq: u8) -> (r: Option<PieceKind>)
    requires
        on_board(sq),
    ensures
        r == piece_on(*pos, sq),
{
    pos.board().piece_at(outside_square(sq)).map(|piece| plain_role(piece.role))
}

/// `Epd::from_position` with `EnPassantMode::Legal`, written out: the
/// position in Extended Position Description.
#[verifier::external_body]
pub(crate) fn format_fen(pos: shakmaty::Chess) -> (r: String)
    requires
        playable(pos),
    ensures
        r@ == epd_text(pos),
{
    shakmaty::fen::Epd::from_position(pos, shakmaty::EnPassantMode::Legal).to_string()
}

/// `San::from_move`, written out: a legal move in standard algebraic
/// notation.
#[verifier::external_body]
pub(crate) fn san_of_move(pos: &shakmaty::Chess, m: &ChessMove) -> (r: String)
    requires
        playable(*pos),
        m.wf(),
        legal_moves_of(*pos).contains(*m),
    ensures
        r@ == san_text(*pos, *m),
{
    shakmaty::san::San::from_move(pos, &outside_move(m)).to_string()
}

/// `San::from_ascii`: reads a move in standard algebraic notation; `None`
/// where the text is not well formed.
#[verifier::external_body]
pub(crate) fn parse_san(text: &str) -> (r: Option<shakmaty::san::San>)
    ensures
        r == san_parsed(text@),
{
    shakmaty::san::San::from_ascii(text.as_bytes()).ok()
}

/// `San::to_move`: the legal move of the position that the notation
/// denotes; `None` where no legal move or more than one matches it.
#[verifier::external_body]
pub(crate) fn resolve_san(san: &shakmaty::san::San, pos: &shakmaty::Chess) -> (r: Option<
    ChessMove,
>)
    requires
        playable(*pos),
    ensures
        r == san_resolved(*san, *pos),
        r matches Some(m) ==> m.wf() && legal_moves_of(*pos).contains(m),
{
    san.to_move(pos).ok().map(|m| plain_move(&m))
}

/// `chrono::DateTime::from_timestamp` and `format("%Y.%m.%d")`: the UTC
/// date of a time in seconds since 1970; the date of second 0 where the time
/// is out of chrono's range.
#[verifier::external_body]
pub(crate) fn format_timestamp(ts: u64) -> (r: String)
    ensures
        r@ == timestamp_date(ts),
{
    let dt = chrono::DateTime::from_timestamp(ts as i64, 0).unwrap_or_default();
    dt.format("%Y.%m.%d").to_string()
}

} // verus!
