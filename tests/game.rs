use bevy_chess::{
    square_ref, BoardGeometry, ChessGame, PieceKind, PieceSprite, SelectingSquares,
    SelectionPhase, Side,
};
use chess::Square;

fn play(game: &mut ChessGame, from: Square, to: Square) {
    game.click_square(from.to_int());
    game.click_square(to.to_int());
    game.handle_chess_move();
}

fn entity_of(game: &ChessGame, id: u32) -> Option<bevy_chess::PieceEntity> {
    game.pieces().index_of_id(id).map(|i| game.pieces().get(i))
}

#[test]
fn start_position_has_one_entity_per_piece() {
    let game = ChessGame::new();
    assert_eq!(game.pieces().len(), 32);
    assert_eq!(game.side_to_move(), Side::White);
    assert_eq!(game.selection(), SelectingSquares::empty());
    for sq in 0u8..64 {
        assert_eq!(entity_of(&game, sq as u32).is_some(), sq < 16 || sq >= 48);
    }
    let e2 = entity_of(&game, 12).unwrap();
    assert_eq!(e2.position, square_ref(12).position);
    assert_eq!(entity_of(&game, 28), None);
}

#[test]
fn piece_at_reports_kind_and_side() {
    let game = ChessGame::new();
    assert_eq!(game.piece_at(Square::E1.to_int()), Some((PieceKind::King, Side::White)));
    assert_eq!(game.piece_at(Square::D8.to_int()), Some((PieceKind::Queen, Side::Black)));
    assert_eq!(game.piece_at(Square::E4.to_int()), None);
    assert_eq!(PieceSprite::from_chess(PieceKind::King, Side::White).index(), 0);
    assert_eq!(PieceSprite::from_chess(PieceKind::Pawn, Side::Black).index(), 11);
    assert_eq!(PieceSprite::from_chess(PieceKind::Knight, Side::Black), PieceSprite::BlackKnight);
}

#[test]
fn e2_e4_from_start_position() {
    let mut game = ChessGame::new();
    game.click_square(Square::E2.to_int());
    assert_eq!(game.selection().phase(), SelectionPhase::StartChosen);
    game.click_square(Square::E4.to_int());
    assert_eq!(game.selection().phase(), SelectionPhase::Resolved);
    let board_before = game.board();
    game.handle_chess_move();
    assert_ne!(game.board(), board_before);
    let expected = chess::Board::default().make_move_new(chess::ChessMove::new(Square::E2, Square::E4, None));
    assert_eq!(game.board(), expected);
    assert_eq!(game.side_to_move(), Side::Black);
    assert_eq!(game.selection(), SelectingSquares::empty());
    assert_eq!(game.pieces().len(), 32);
    let pawn = entity_of(&game, 12).unwrap();
    assert_eq!(pawn.position, square_ref(Square::E4.to_int()).position);
}

#[test]
fn opponent_piece_cannot_be_picked() {
    let mut game = ChessGame::new();
    game.click_square(Square::E7.to_int());
    assert_eq!(game.selection(), SelectingSquares::empty());
    game.click_square(Square::E4.to_int());
    assert_eq!(game.selection(), SelectingSquares::empty());
}

#[test]
fn illegal_move_changes_nothing_but_selection() {
    let mut game = ChessGame::new();
    let board_before = game.board();
    let pieces_before = game.pieces().entities();
    play(&mut game, Square::E2, Square::E5);
    assert_eq!(game.board(), board_before);
    assert_eq!(game.pieces().entities(), pieces_before);
    assert_eq!(game.selection(), SelectingSquares::empty());
    assert_eq!(game.side_to_move(), Side::White);
}

#[test]
fn capture_removes_the_taken_piece() {
    let mut game = ChessGame::new();
    play(&mut game, Square::E2, Square::E4);
    play(&mut game, Square::D7, Square::D5);
    play(&mut game, Square::E4, Square::D5);
    assert_eq!(game.pieces().len(), 31);
    assert_eq!(entity_of(&game, Square::D7.to_int() as u32), None);
    let mover = entity_of(&game, 12).unwrap();
    assert_eq!(mover.position, square_ref(Square::D5.to_int()).position);
}

#[test]
fn en_passant_capture_removes_the_passed_pawn() {
    let mut game = ChessGame::new();
    play(&mut game, Square::E2, Square::E4);
    play(&mut game, Square::A7, Square::A6);
    play(&mut game, Square::E4, Square::E5);
    play(&mut game, Square::D7, Square::D5);
    game.click_square(Square::E5.to_int());
    game.click_square(Square::D6.to_int());
    assert_eq!(game.selection().en_passant, Some(square_ref(Square::D5.to_int())));
    game.handle_chess_move();
    assert_eq!(game.pieces().len(), 31);
    assert_eq!(entity_of(&game, Square::D7.to_int() as u32), None);
    let mover = entity_of(&game, 12).unwrap();
    assert_eq!(mover.position, square_ref(Square::D6.to_int()).position);
}

#[test]
fn pointer_press_selects_square_under_it() {
    let geometry = BoardGeometry {
        piece_size: 75,
        half_piece: 37,
        window_width: 700,
        window_height: 600,
        x_padding: 50,
    };
    let mut game = ChessGame::new();
    // e2 is the square just right of the centre line, on the second rank.
    let (cx, cy) = geometry.square_anchor(Square::E2.to_int());
    assert_eq!((cx, cy), (387, 112));
    let hit = game.click_at(&geometry, (cx - 50) as i32, cy as i32);
    assert_eq!(hit, Some(Square::E2.to_int()));
    assert_eq!(game.selection().start, Some(square_ref(Square::E2.to_int())));
    assert_eq!(game.click_at(&geometry, -10, -10), None);
    assert_eq!(geometry.hit_test(-10, 700), None);
}
