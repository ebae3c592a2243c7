//! Board interaction core for a desktop chess board: coordinate mapping,
//! the click-driven selection machine, the piece registry, the move resolver
//! that consults the `chess` rules engine, and the per-side clocks.

pub mod clock;
pub mod coords;
pub mod game;
pub mod hit;
pub mod oracle;
pub mod pieces;
pub mod selection;
pub mod sprite;
pub mod square;

pub use clock::{format_duration, GameState};
pub use coords::{
    square_center_vector_from_coord, translate_center_coord_vec_to_bottom_left_vec,
    translate_square_to_xy, translate_xy_to_center_coord, translate_xy_to_square,
};
pub use game::ChessGame;
pub use hit::BoardGeometry;
pub use pieces::{PieceEntity, PieceRegistry};
pub use selection::{SelectingSquares, SelectionPhase};
pub use sprite::{PieceKind, PieceSprite};
pub use square::{square_ref, square_shade, BoardPos, Shade, Side, SquareRef};
