use vstd::prelude::*;

use crate::coords::{
    centered, file_of, rank_of, translate_square_to_xy, translate_xy_to_center_coord,
};

verus! {

/// A side of the game.
#[derive(Clone, Copy, Debug, PartialEq, Eq, Structural)]
pub enum Side {
    White,
    Black,
}

/// A position in centered board coordinates: the origin is the board's
/// centre and one unit is one square.
#[derive(Clone, Copy, Debug, PartialEq, Eq, Structural)]
pub struct BoardPos {
    pub x: i32,
    pub y: i32,
}

/// A square together with its precomputed centered position.
#[derive(Clone, Copy, Debug, PartialEq, Eq, Structural)]
pub struct SquareRef {
    pub square: u8,
    pub position: BoardPos,
}

/// The tint of a square.
#[derive(Clone, Copy, Debug, PartialEq, Eq, Structural)]
pub enum Shade {
    Light,
    Dark,
}

/// Centered position of a square.
pub open spec fn square_pos(sq: int) -> BoardPos {
    BoardPos { x: centered(file_of(sq)) as i32, y: centered(rank_of(sq)) as i32 }
}

/// The square bundled with its centered position.
pub open spec fn spec_square_ref(sq: int) -> SquareRef {
    SquareRef { square: sq as u8, position: square_pos(sq) }
}

impl SquareRef {
    /// The reference names a square of the board and carries that square's position.
    pub open spec fn wf(&self) -> bool {
        &&& self.square < 64
        &&& *self == spec_square_ref(self.square as int)
    }
}

/// Builds the reference of a square.
pub fn square_ref(sq: u8) -> (r: SquareRef)
    requires
        sq < 64,
    ensures
        r == spec_square_ref(sq as int),
        r.wf(),
{
    let (x, y) = translate_square_to_xy(sq);
    let (cx, cy) = translate_xy_to_center_coord(x, y);
    SquareRef { square: sq, position: BoardPos { x: cx, y: cy } }
}

/// The square one rank up (towards Black's back rank), if any.
pub open spec fn spec_square_up(sq: int) -> Option<u8> {
    if sq < 56 {
        Some((sq + 8) as u8)
    } else {
        None
    }
}

/// The square one rank down (towards White's back rank), if any.
pub open spec fn spec_square_down(sq: int) -> Option<u8> {
    if sq >= 8 {
        Some((sq - 8) as u8)
    } else {
        None
    }
}

/// The square one rank up, or `None` on the eighth rank.
pub fn square_up(sq: u8) -> (r: Option<u8>)
    requires
        sq < 64,
    ensures
        r == spec_square_up(sq as int),
{
    if sq < 56 {
        Some(sq + 8)
    } else {
        None
    }
}

/// The square one rank down, or `None` on the first rank.
pub fn square_down(sq: u8) -> (r: Option<u8>)
    requires
        sq < 64,
    ensures
        r == spec_square_down(sq as int),
{
    if sq >= 8 {
        Some(sq - 8)
    } else {
        None
    }
}

/// The square one rank behind `sq` as seen from the side to move: below it
/// when White moves, above it when Black moves.
pub open spec fn spec_behind(sq: int, to_move: Side) -> Option<u8> {
    match to_move {
        Side::White => spec_square_down(sq),
        Side::Black => spec_square_up(sq),
    }
}

/// Tint of the square at centered coordinates (x, y): the class where
/// `(x + y + 1) % 2 == 0` is light, the other class dark, so that A1 is dark.
pub open spec fn spec_shade(x: int, y: int) -> Shade {
    if (x + y + 1) % 2 == 0 {
        Shade::Light
    } else {
        Shade::Dark
    }
}

/// Tint of the square at centered coordinates (x, y).
pub fn square_shade(x: i32, y: i32) -> (r: Shade)
    ensures
        r == spec_shade(x as int, y as int),
{
    // An even offset keeps the sum positive without changing its parity.
    let sum: i64 = x as i64 + y as i64 + 1 + 0x1_0000_0000;
    if sum % 2 == 0 {
        Shade::Light
    } else {
        Shade::Dark
    }
}

/// Checkerboard coloring: a square is dark exactly when its file and rank
/// have the same parity (so A1 and H8 are dark, H1 and A8 light), and two
/// squares side by side or one above the other differ in tint.
pub proof fn lemma_checkerboard(sq: int)
    requires
        0 <= sq < 64,
    ensures
        (spec_shade(square_pos(sq).x as int, square_pos(sq).y as int) == Shade::Dark) <==> (
        file_of(sq) + rank_of(sq)) % 2 == 0,
        file_of(sq) < 7 ==> spec_shade(square_pos(sq).x as int, square_pos(sq).y as int)
            != spec_shade(square_pos(sq + 1).x as int, square_pos(sq + 1).y as int),
        sq < 56 ==> spec_shade(square_pos(sq).x as int, square_pos(sq).y as int) != spec_shade(
            square_pos(sq + 8).x as int,
            square_pos(sq + 8).y as int,
        ),
{
}

} // verus!
