use bevy_chess::{BoardPos, PieceEntity, PieceRegistry};

fn pos(x: i32, y: i32) -> BoardPos {
    BoardPos { x, y }
}

#[test]
fn spawn_refuses_taken_position_or_identity() {
    let mut reg = PieceRegistry::new();
    assert!(reg.spawn(1, pos(0, 0)));
    assert!(!reg.spawn(2, pos(0, 0)));
    assert!(!reg.spawn(1, pos(1, 1)));
    assert_eq!(reg.len(), 1);
}

#[test]
fn capture_removes_victim_and_moves_mover() {
    let mut reg = PieceRegistry::new();
    reg.spawn(1, pos(0, 0));
    reg.spawn(2, pos(1, 1));
    reg.spawn(3, pos(2, 2));
    reg.apply_move(pos(0, 0), pos(1, 1), None);
    assert_eq!(
        reg.entities(),
        vec![PieceEntity { id: 1, position: pos(1, 1) }, PieceEntity { id: 3, position: pos(2, 2) }]
    );
}

#[test]
fn en_passant_capture_removes_pawn_beside() {
    let mut reg = PieceRegistry::new();
    reg.spawn(36, pos(0, 0));
    reg.spawn(35, pos(-1, 0));
    reg.apply_move(pos(0, 0), pos(-1, 1), Some(pos(-1, 0)));
    assert_eq!(reg.entities(), vec![PieceEntity { id: 36, position: pos(-1, 1) }]);
}

#[test]
fn quiet_move_removes_nothing() {
    let mut reg = PieceRegistry::new();
    reg.spawn(12, pos(0, -3));
    reg.spawn(13, pos(1, -3));
    reg.apply_move(pos(0, -3), pos(0, -1), None);
    assert_eq!(reg.len(), 2);
    assert_eq!(reg.get(0), PieceEntity { id: 12, position: pos(0, -1) });
    assert_eq!(reg.get(1), PieceEntity { id: 13, position: pos(1, -3) });
}

#[test]
fn remove_and_relocate() {
    let mut reg = PieceRegistry::new();
    reg.spawn(1, pos(0, 0));
    reg.spawn(2, pos(1, 0));
    assert!(!reg.relocate(1, pos(1, 0)));
    assert!(reg.relocate(1, pos(2, 0)));
    assert_eq!(reg.index_at(pos(2, 0)), Some(0));
    reg.remove(2);
    assert_eq!(reg.entities(), vec![PieceEntity { id: 1, position: pos(2, 0) }]);
    assert_eq!(reg.index_of_id(2), None);
}
