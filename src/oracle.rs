//! The `chess` crate as the rules engine: declarations of its board and move
//! types, and the calls the game makes into it.
use vstd::prelude::*;

use crate::selection::opt_square_wf;
use crate::sprite::PieceKind;
use crate::square::Side;

verus! {

#[verifier::external_type_specification]
#[verifier::external_body]
pub struct ExBoard(chess::Board);

#[verifier::external_type_specification]
#[verifier::external_body]
pub struct ExChessMove(chess::ChessMove);

/// Kind of the piece on square `sq` of board `b`, as `chess::Board::piece_on` reports it.
pub uninterp spec fn kind_at(b: chess::Board, sq: u8) -> Option<PieceKind>;

/// Side owning square `sq` of board `b`, as `chess::Board::color_on` reports it.
pub uninterp spec fn color_at(b: chess::Board, sq: u8) -> Option<Side>;

/// Side to move on board `b`.
pub uninterp spec fn side_of(b: chess::Board) -> Side;

/// Index of the square of the pawn that may be taken en passant on board `b`.
pub uninterp spec fn ep_of(b: chess::Board) -> Option<u8>;

/// The move from square `from` to square `to`, with no promotion piece.
pub uninterp spec fn move_of(from: u8, to: u8) -> chess::ChessMove;

/// Whether move `m` is legal on board `b`.
pub uninterp spec fn legal_of(b: chess::Board, m: chess::ChessMove) -> bool;

/// The board after move `m` is made on board `b`.
pub uninterp spec fn board_after(b: chess::Board, m: chess::ChessMove) -> chess::Board;

/// The other side.
pub open spec fn opponent(s: Side) -> Side {
    match s {
        Side::White => Side::Black,
        Side::Black => Side::White,
    }
}

/// Side owning square `sq` in the standard starting position.
pub open spec fn start_color(sq: u8) -> Option<Side> {
    if sq < 16 {
        Some(Side::White)
    } else if sq >= 48 {
        Some(Side::Black)
    } else {
        None
    }
}

/// Relies on `chess::Board::default`: the standard starting position
/// ("rnbqkbnr/pppppppp/8/8/8/8/PPPPPPPP/RNBQKBNR w KQkq - 0 1"): White to
/// move, no en-passant square, White's pieces on the first two ranks and
/// Black's on the last two.
#[verifier::external_body]
pub(crate) fn default_board() -> (r: chess::Board)
    ensures
        side_of(r) == Side::White,
        ep_of(r) == None::<u8>,
        forall|sq: u8| #![trigger kind_at(r, sq)] sq < 64 ==> kind_at(r, sq).is_some() == start_color(sq).is_some(),
        forall|sq: u8| #![trigger color_at(r, sq)] sq < 64 ==> color_at(r, sq) == start_color(sq),
{
    chess::Board::default()
}

/// Relies on `chess::Board::piece_on`: the kind of the piece on the square
/// with index `sq` (A1 = 0, rank-major), if any.
#[verifier::external_body]
pub(crate) fn piece_on(board: &chess::Board, sq: u8) -> (r: Option<PieceKind>)
    requires
        sq < 64,
    ensures
        r == kind_at(*board, sq),
{
    match board.piece_on(chess::ALL_SQUARES[sq as usize]) {
        Some(chess::Piece::Pawn) => Some(PieceKind::Pawn),
        Some(chess::Piece::Knight) => Some(PieceKind::Knight),
        Some(chess::Piece::Bishop) => Some(PieceKind::Bishop),
        Some(chess::Piece::Rook) => Some(PieceKind::Rook),
        Some(chess::Piece::Queen) => Some(PieceKind::Queen),
        Some(chess::Piece::King) => Some(PieceKind::King),
        None => None,
    }
}

/// Relies on `chess::Board::color_on`: the side owning the piece on the
/// square with index `sq`, if any.
#[verifier::external_body]
pub(crate) fn color_on(board: &chess::Board, sq: u8) -> (r: Option<Side>)
    requires
        sq < 64,
    ensures
        r == color_at(*board, sq),
{
    match board.color_on(chess::ALL_SQUARES[sq as usize]) {
        Some(chess::Color::White) => Some(Side::White),
        Some(chess::Color::Black) => Some(Side::Black),
        None => None,
    }
}

/// Relies on `chess::Board::side_to_move`.
#[verifier::external_body]
pub(crate) fn side_to_move(board: &chess::Board) -> (r: Side)
    ensures
        r == side_of(*board),
{
    match board.side_to_move() {
        chess::Color::White => Side::White,
        chess::Color::Black => Side::Black,
    }
}

/// Relies on `chess::Board::en_passant`: the square of the pawn that may be
/// taken en passant, if any, as an index; a square's index is below 64.
#[verifier::external_body]
pub(crate) fn en_passant(board: &chess::Board) -> (r: Option<u8>)
    ensures
        r == ep_of(*board),
        opt_square_wf(r),
{
    match board.en_passant() {
        Some(s) => Some(s.to_int()),
        None => None,
    }
}

/// Relies on `chess::ChessMove::new`: the move between the squares with
/// indices `from` and `to`, with no promotion piece.
#[verifier::external_body]
pub(crate) fn new_move(from: u8, to: u8) -> (r: chess::ChessMove)
    requires
        from < 64,
        to < 64,
    ensures
        r == move_of(from, to),
{
    chess::ChessMove::new(chess::ALL_SQUARES[from as usize], chess::ALL_SQUARES[to as usize], None)
}

/// Relies on `chess::Board::legal`: whether the move is legal on the board.
#[verifier::external_body]
pub(crate) fn is_legal(board: &chess::Board, m: chess::ChessMove) -> (r: bool)
    ensures
        r == legal_of(*board, m),
{
    board.legal(m)
}

/// Relies on `chess::Board::make_move_new`: the board after the move, with the
/// other side to move. It unwraps the piece on the move's source square, so
/// only a legal move is made.
#[verifier::external_body]
pub(crate) fn make_move_new(board: &chess::Board, m: chess::ChessMove) -> (r: chess::Board)
    requires
        legal_of(*board, m),
    ensures
        r == board_after(*board, m),
        side_of(r) == opponent(side_of(*board)),
{
    board.make_move_new(m)
}

} // verus!
