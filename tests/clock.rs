use bevy_chess::{format_duration, GameState, Side};

#[test]
fn format_duration_pads_with_zeros() {
    assert_eq!(format_duration(0), "00:00");
    assert_eq!(format_duration(75), "01:15");
    assert_eq!(format_duration(600), "10:00");
    assert_eq!(format_duration(3599), "59:59");
    assert_eq!(format_duration(3600), "00:00");
}

#[test]
fn clocks_run_only_after_start_and_for_side_to_move() {
    let mut game = GameState::new(600_000);
    game.tick(Side::White, 1_000);
    assert_eq!(game.remaining_ms(Side::White), 600_000);
    game.start();
    game.tick(Side::White, 1_500);
    game.tick(Side::Black, 250);
    assert_eq!(game.remaining_ms(Side::White), 598_500);
    assert_eq!(game.remaining_ms(Side::Black), 599_750);
    assert_eq!(game.display(Side::White), "09:58");
}

#[test]
fn remaining_time_stops_at_zero() {
    let mut game = GameState::new(1_000);
    game.start();
    game.tick(Side::Black, 5_000);
    assert_eq!(game.remaining_ms(Side::Black), 0);
    assert_eq!(game.display(Side::Black), "00:00");
    game.tick(Side::Black, u64::MAX);
    assert_eq!(game.black_elapsed_ms, u64::MAX);
}
