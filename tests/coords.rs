use bevy_chess::{
    square_center_vector_from_coord, square_ref, square_shade, translate_center_coord_vec_to_bottom_left_vec,
    translate_square_to_xy, translate_xy_to_center_coord, translate_xy_to_square, BoardPos, Shade,
};
use chess::Square;
use std::iter::zip;

#[test]
fn translate_coord_works() {
    let result = translate_xy_to_center_coord(3, 4);
    assert_eq!(result, (-1, 0));
}

#[test]
fn translate_square_works() {
    let results = vec![
        translate_square_to_xy(Square::A1.to_int()),
        translate_square_to_xy(Square::A8.to_int()),
        translate_square_to_xy(Square::H1.to_int()),
        translate_square_to_xy(Square::H8.to_int()),
        translate_square_to_xy(Square::E4.to_int()),
    ];
    let expects = vec![(0, 0), (0, 7), (7, 0), (7, 7), (4, 3)];
    for (result, expect) in
        zip(results, expects).collect::<Vec<((usize, usize), (usize, usize))>>()
    {
        assert_eq!(result, expect);
    }
}

#[test]
fn every_square_round_trips_through_grid() {
    for sq in 0u8..64 {
        let (x, y) = translate_square_to_xy(sq);
        assert_eq!(translate_xy_to_square(x, y), sq);
    }
}

#[test]
fn center_coordinates_of_corners() {
    assert_eq!(translate_xy_to_center_coord(0, 0), (-4, -4));
    assert_eq!(translate_xy_to_center_coord(7, 7), (3, 3));
}

#[test]
fn square_centre_in_pixels() {
    assert_eq!(square_center_vector_from_coord(-1, 0, 75, 37), (-38, 37));
    assert_eq!(square_center_vector_from_coord(-4, -4, 75, 37), (-263, -263));
}

#[test]
fn centre_to_bottom_left_origin() {
    assert_eq!(translate_center_coord_vec_to_bottom_left_vec((-38, 37), 700, 600), (312, 337));
}

#[test]
fn square_ref_of_e4() {
    let r = square_ref(Square::E4.to_int());
    assert_eq!(r.square, 28);
    assert_eq!(r.position, BoardPos { x: 0, y: -1 });
}

#[test]
fn checkerboard_parity() {
    let shade_of = |sq: u8| {
        let (x, y) = translate_square_to_xy(sq);
        let (cx, cy) = translate_xy_to_center_coord(x, y);
        square_shade(cx, cy)
    };
    assert_eq!(shade_of(Square::A1.to_int()), Shade::Dark);
    assert_eq!(shade_of(Square::H8.to_int()), Shade::Dark);
    assert_eq!(shade_of(Square::H1.to_int()), Shade::Light);
    assert_eq!(shade_of(Square::A8.to_int()), Shade::Light);
    for sq in 0u8..64 {
        let (x, y) = translate_square_to_xy(sq);
        let (cx, cy) = translate_xy_to_center_coord(x, y);
        let light = (cx + cy + 1).rem_euclid(2) == 0;
        assert_eq!(shade_of(sq) == Shade::Light, light);
        assert_eq!(shade_of(sq) == Shade::Dark, (x + y) % 2 == 0);
    }
}
