use vstd::prelude::*;

use crate::coords::{
    square_center_vector_from_coord, translate_center_coord_vec_to_bottom_left_vec,
};
use crate::square::{square_pos, square_ref};

verus! {

/// Pixel geometry of the board inside its window, supplied by the caller.
#[derive(Clone, Copy, Debug, PartialEq, Eq, Structural)]
pub struct BoardGeometry {
    /// Side of one square, in pixels.
    pub piece_size: i32,
    /// Half of `piece_size`, as the caller rounds it.
    pub half_piece: i32,
    pub window_width: u32,
    pub window_height: u32,
    /// Horizontal shift added to the pointer for the panel beside the board.
    pub x_padding: i32,
}

impl BoardGeometry {
    /// Pixel position of a square's centre, with the window's bottom-left
    /// corner as origin.
    pub open spec fn anchored_center(self, sq: int) -> (int, int) {
        let p = square_pos(sq);
        (
            p.x * self.piece_size + self.half_piece + self.window_width / 2,
            p.y * self.piece_size + self.half_piece + self.window_height / 2,
        )
    }

    /// Whether the pointer at (px, py), shifted right by the padding, lies
    /// strictly inside the square's box.
    pub open spec fn spec_contains(self, sq: int, px: int, py: int) -> bool {
        let c = self.anchored_center(sq);
        let bl_x = c.0 - self.half_piece;
        let bl_y = c.1 - self.half_piece;
        &&& bl_x < px + self.x_padding
        &&& bl_y < py
        &&& bl_x + self.piece_size > px + self.x_padding
        &&& bl_y + self.piece_size > py
    }

    /// Anchored pixel position of the centre of square `sq`.
    pub fn square_anchor(&self, sq: u8) -> (r: (i64, i64))
        requires
            sq < 64,
        ensures
            r.0 == self.anchored_center(sq as int).0,
            r.1 == self.anchored_center(sq as int).1,
            -0x10_0000_0000 <= r.0 <= 0x10_0000_0000,
            -0x10_0000_0000 <= r.1 <= 0x10_0000_0000,
    {
        let p = square_ref(sq).position;
        let v = square_center_vector_from_coord(p.x, p.y, self.piece_size, self.half_piece);
        proof {
            let size = self.piece_size as int;
            assert(-4 * 0x8000_0000int <= p.x * size <= 4 * 0x8000_0000int) by (nonlinear_arith)
                requires
                    -4 <= p.x <= 3,
                    i32::MIN <= size <= i32::MAX,
            ;
            assert(-4 * 0x8000_0000int <= p.y * size <= 4 * 0x8000_0000int) by (nonlinear_arith)
                requires
                    -4 <= p.y <= 3,
                    i32::MIN <= size <= i32::MAX,
            ;
        }
        translate_center_coord_vec_to_bottom_left_vec(v, self.window_width, self.window_height)
    }

    /// Whether the pointer at (px, py) falls on square `sq`.
    pub fn contains(&self, sq: u8, px: i32, py: i32) -> (r: bool)
        requires
            sq < 64,
        ensures
            r == self.spec_contains(sq as int, px as int, py as int),
    {
        let c = self.square_anchor(sq);
        let bl_x: i64 = c.0 - self.half_piece as i64;
        let bl_y: i64 = c.1 - self.half_piece as i64;
        let x: i64 = px as i64 + self.x_padding as i64;
        let y: i64 = py as i64;
        bl_x < x && bl_y < y && bl_x + (self.piece_size as i64) > x && bl_y + (self.piece_size as i64) > y
    }

    /// The first square, in index order, whose box holds the pointer at
    /// (px, py); `None` when the pointer is on no square.
    pub fn hit_test(&self, px: i32, py: i32) -> (r: Option<u8>)
        ensures
            match r {
                Some(s) => s < 64 && self.spec_contains(s as int, px as int, py as int) && forall|
                    t: int,
                | 0 <= t < s ==> !self.spec_contains(t, px as int, py as int),
                None => forall|t: int| 0 <= t < 64 ==> !self.spec_contains(t, px as int, py as int),
            },
    {
        let mut sq: u8 = 0;
        while sq < 64
            invariant
                sq <= 64,
                forall|t: int| 0 <= t < sq ==> !self.spec_contains(t, px as int, py as int),
            decreases 64 - sq,
        {
            if self.contains(sq, px, py) {
                return Some(sq);
            }
            sq += 1;
        }
        None
    }
}

} // verus!
