use bevy_chess::{square_ref, SelectingSquares, SelectionPhase, Side};

#[test]
fn click_on_empty_square_is_ignored() {
    let mut sel = SelectingSquares::empty();
    sel.on_click(28, None, Side::White, None);
    assert_eq!(sel, SelectingSquares::empty());
    assert_eq!(sel.phase(), SelectionPhase::Empty);
}

#[test]
fn click_on_opponent_piece_is_ignored() {
    let mut sel = SelectingSquares::empty();
    sel.on_click(52, Some(Side::Black), Side::White, None);
    assert_eq!(sel, SelectingSquares::empty());
}

#[test]
fn click_on_own_piece_chooses_start() {
    let mut sel = SelectingSquares::empty();
    sel.on_click(12, Some(Side::White), Side::White, None);
    assert_eq!(sel.phase(), SelectionPhase::StartChosen);
    assert_eq!(sel.start, Some(square_ref(12)));
    assert_eq!(sel.end, None);
    assert_eq!(sel.en_passant, None);
}

#[test]
fn second_click_chooses_end_without_legality_check() {
    let mut sel = SelectingSquares::empty();
    sel.on_click(12, Some(Side::White), Side::White, None);
    sel.on_click(63, Some(Side::Black), Side::White, None);
    assert_eq!(sel.phase(), SelectionPhase::Resolved);
    assert_eq!(sel.end, Some(square_ref(63)));
    assert_eq!(sel.en_passant, None);
}

#[test]
fn white_click_above_en_passant_square_records_it() {
    let mut sel = SelectingSquares::empty();
    // White pawn on e5, black pawn just arrived on d5 (35); e5 takes on d6 (43).
    sel.on_click(36, Some(Side::White), Side::White, Some(35));
    sel.on_click(43, None, Side::White, Some(35));
    assert_eq!(sel.en_passant, Some(square_ref(35)));
    assert_eq!(sel.end, Some(square_ref(43)));
}

#[test]
fn black_click_below_en_passant_square_records_it() {
    let mut sel = SelectingSquares::empty();
    // Black pawn on d4 (27), white pawn just arrived on e4 (28); d4 takes on e3 (20).
    sel.on_click(27, Some(Side::Black), Side::Black, Some(28));
    sel.on_click(20, None, Side::Black, Some(28));
    assert_eq!(sel.en_passant, Some(square_ref(28)));
}

#[test]
fn click_elsewhere_leaves_en_passant_unset() {
    let mut sel = SelectingSquares::empty();
    sel.on_click(36, Some(Side::White), Side::White, Some(35));
    sel.on_click(44, None, Side::White, Some(35));
    assert_eq!(sel.en_passant, None);
}

#[test]
fn completed_selection_ignores_clicks_and_resets() {
    let mut sel = SelectingSquares::empty();
    sel.on_click(12, Some(Side::White), Side::White, None);
    sel.on_click(28, None, Side::White, None);
    let before = sel;
    sel.on_click(20, None, Side::White, None);
    assert_eq!(sel, before);
    sel.reset();
    assert_eq!(sel, SelectingSquares::empty());
}
