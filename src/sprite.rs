use vstd::prelude::*;

use crate::square::Side;

verus! {

/// Kind of a chess piece.
#[derive(Clone, Copy, Debug, PartialEq, Eq, Structural)]
pub enum PieceKind {
    Pawn,
    Knight,
    Bishop,
    Rook,
    Queen,
    King,
}

/// A cell of the piece sprite sheet: white pieces on the first row, black on
/// the second, each row ordered king, queen, bishop, knight, rook, pawn.
#[derive(Clone, Copy, Debug, PartialEq, Eq, Structural)]
pub enum PieceSprite {
    WhiteKing,
    WhiteQueen,
    WhiteBishop,
    WhiteKnight,
    WhiteRook,
    WhitePawn,
    BlackKing,
    BlackQueen,
    BlackBishop,
    BlackKnight,
    BlackRook,
    BlackPawn,
}

/// Column of a piece kind within a row of the sprite sheet.
pub open spec fn kind_column(pc: PieceKind) -> nat {
    match pc {
        PieceKind::King => 0,
        PieceKind::Queen => 1,
        PieceKind::Bishop => 2,
        PieceKind::Knight => 3,
        PieceKind::Rook => 4,
        PieceKind::Pawn => 5,
    }
}

/// Row of a side within the sprite sheet.
pub open spec fn side_row(color: Side) -> nat {
    match color {
        Side::White => 0,
        Side::Black => 1,
    }
}

impl PieceSprite {
    /// Position of the sprite in the sheet, counted row by row.
    pub open spec fn spec_index(self) -> nat {
        match self {
            PieceSprite::WhiteKing => 0,
            PieceSprite::WhiteQueen => 1,
            PieceSprite::WhiteBishop => 2,
            PieceSprite::WhiteKnight => 3,
            PieceSprite::WhiteRook => 4,
            PieceSprite::WhitePawn => 5,
            PieceSprite::BlackKing => 6,
            PieceSprite::BlackQueen => 7,
            PieceSprite::BlackBishop => 8,
            PieceSprite::BlackKnight => 9,
            PieceSprite::BlackRook => 10,
            PieceSprite::BlackPawn => 11,
        }
    }

    /// The sprite showing a piece of kind `pc` and side `color`.
    pub fn from_chess(pc: PieceKind, color: Side) -> (r: Self)
        ensures
            r.spec_index() == side_row(color) * 6 + kind_column(pc),
    {
        match (pc, color) {
            (PieceKind::King, Side::White) => PieceSprite::WhiteKing,
            (PieceKind::Queen, Side::White) => PieceSprite::WhiteQueen,
            (PieceKind::Bishop, Side::White) => PieceSprite::WhiteBishop,
            (PieceKind::Knight, Side::White) => PieceSprite::WhiteKnight,
            (PieceKind::Rook, Side::White) => PieceSprite::WhiteRook,
            (PieceKind::Pawn, Side::White) => PieceSprite::WhitePawn,
            (PieceKind::King, Side::Black) => PieceSprite::BlackKing,
            (PieceKind::Queen, Side::Black) => PieceSprite::BlackQueen,
            (PieceKind::Bishop, Side::Black) => PieceSprite::BlackBishop,
            (PieceKind::Knight, Side::Black) => PieceSprite::BlackKnight,
            (PieceKind::Rook, Side::Black) => PieceSprite::BlackRook,
            (PieceKind::Pawn, Side::Black) => PieceSprite::BlackPawn,
        }
    }

    /// Index of the sprite in the sheet.
    pub fn index(self) -> (r: usize)
        ensures
            r == self.spec_index(),
    {
        match self {
            PieceSprite::WhiteKing => 0,
            PieceSprite::WhiteQueen => 1,
            PieceSprite::WhiteBishop => 2,
            PieceSprite::WhiteKnight => 3,
            PieceSprite::WhiteRook => 4,
            PieceSprite::WhitePawn => 5,
            PieceSprite::BlackKing => 6,
            PieceSprite::BlackQueen => 7,
            PieceSprite::BlackBishop => 8,
            PieceSprite::BlackKnight => 9,
            PieceSprite::BlackRook => 10,
            PieceSprite::BlackPawn => 11,
        }
    }
}

} // verus!
