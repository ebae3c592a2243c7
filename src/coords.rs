use vstd::prelude::*;

verus! {

/// Number of files (and of ranks) on the board.
pub const BOARD_SIDE: usize = 8;

/// Shift applied to a file or rank so that the board is centred on the origin.
pub const CENTER_DELTA: i32 = 4;

/// File (column) of a square index, rank-major numbering: A1 = 0, H1 = 7, A8 = 56.
pub open spec fn file_of(sq: int) -> int {
    sq % 8
}

/// Rank (row) of a square index.
pub open spec fn rank_of(sq: int) -> int {
    sq / 8
}

/// Square index of a (file, rank) pair.
pub open spec fn square_at(file: int, rank: int) -> int {
    rank * 8 + file
}

/// Centered coordinate of a file or rank.
pub open spec fn centered(v: int) -> int {
    v - 4
}

/// Splits a square index into its (file, rank) pair.
pub fn translate_square_to_xy(sq: u8) -> (r: (usize, usize))
    requires
        sq < 64,
    ensures
        r.0 == file_of(sq as int),
        r.1 == rank_of(sq as int),
        r.0 < 8,
        r.1 < 8,
{
    let idx: usize = sq as usize;
    (idx % BOARD_SIDE, idx / BOARD_SIDE)
}

/// Joins a (file, rank) pair back into a square index.
pub fn translate_xy_to_square(x: usize, y: usize) -> (r: u8)
    requires
        x < 8,
        y < 8,
    ensures
        r as int == square_at(x as int, y as int),
        r < 64,
{
    (y * BOARD_SIDE + x) as u8
}

/// Shifts a (file, rank) pair so that the board's centre is the origin.
pub fn translate_xy_to_center_coord(x: usize, y: usize) -> (r: (i32, i32))
    requires
        x <= i32::MAX as usize,
        y <= i32::MAX as usize,
    ensures
        r.0 == centered(x as int),
        r.1 == centered(y as int),
{
    let nx: i32 = x as i32 - CENTER_DELTA;
    let ny: i32 = y as i32 - CENTER_DELTA;
    (nx, ny)
}

/// Pixel position, relative to the board's centre, of the middle of the square
/// whose centered coordinates are (x, y).
pub fn square_center_vector_from_coord(x: i32, y: i32, piece_size: i32, half_piece: i32) -> (r: (
    i64,
    i64,
))
    ensures
        r.0 == x * piece_size + half_piece,
        r.1 == y * piece_size + half_piece,
{
    proof {
        assert(-0x4000_0000_0000_0000 <= x * piece_size <= 0x4000_0000_0000_0000) by (nonlinear_arith)
            requires
                i32::MIN <= x <= i32::MAX,
                i32::MIN <= piece_size <= i32::MAX,
        ;
        assert(-0x4000_0000_0000_0000 <= y * piece_size <= 0x4000_0000_0000_0000) by (nonlinear_arith)
            requires
                i32::MIN <= y <= i32::MAX,
                i32::MIN <= piece_size <= i32::MAX,
        ;
    }
    let px: i64 = x as i64 * piece_size as i64;
    let py: i64 = y as i64 * piece_size as i64;
    (px + half_piece as i64, py + half_piece as i64)
}

/// Moves a centre-origin pixel position to the window's bottom-left origin by
/// adding half of the window's width and height.
pub fn translate_center_coord_vec_to_bottom_left_vec(v: (i64, i64), width: u32, height: u32) -> (r: (
    i64,
    i64,
))
    requires
        v.0 + width / 2 <= i64::MAX,
        v.1 + height / 2 <= i64::MAX,
    ensures
        r.0 == v.0 + width / 2,
        r.1 == v.1 + height / 2,
{
    (v.0 + (width / 2) as i64, v.1 + (height / 2) as i64)
}

/// Splitting a square into (file, rank) and joining the pair again gives the
/// square back, and joining then splitting gives the pair back.
pub proof fn lemma_square_grid_round_trip(sq: int, file: int, rank: int)
    requires
        0 <= sq < 64,
        0 <= file < 8,
        0 <= rank < 8,
    ensures
        square_at(file_of(sq), rank_of(sq)) == sq,
        file_of(square_at(file, rank)) == file,
        rank_of(square_at(file, rank)) == rank,
        0 <= file_of(sq) < 8,
        0 <= rank_of(sq) < 8,
{
}

} // verus!
