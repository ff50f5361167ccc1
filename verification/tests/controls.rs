use lunar_lander::frame::Frame;
use lunar_lander::game::GameState;
use lunar_lander::input::Key;
use lunar_lander::units::{CEILING, FUEL_BAR_SCALE};

fn advance(game: &mut GameState, ticks: u32) {
    let mut done: u32 = 0;
    while done < ticks {
        game.update();
        done += 1;
    }
}

#[test]
fn the_thrust_key_switches_the_engine_on_and_off() {
    let mut game = GameState::new();
    assert!(!game.is_active_engine());
    game.key_down_event(Key::Thrust);
    assert!(game.is_active_engine());
    game.key_down_event(Key::Thrust);
    assert!(game.is_active_engine());
    game.key_up_event(Key::Thrust);
    assert!(!game.is_active_engine());
    game.key_up_event(Key::Thrust);
    assert!(!game.is_active_engine());
}

#[test]
fn other_keys_change_nothing() {
    let mut game = GameState::new();
    game.key_down_event(Key::Other);
    assert!(!game.is_active_engine());
    game.key_up_event(Key::Other);
    assert!(!game.is_active_engine());
    game.key_down_event(Key::Thrust);
    game.key_up_event(Key::Other);
    assert!(game.is_active_engine());
    game.key_down_event(Key::Other);
    assert!(game.is_active_engine());
    assert_eq!(game.height(), 0);
    assert_eq!(game.speed(), 0);
    assert_eq!(game.fuel(), 1000);
}

#[test]
fn key_events_move_nothing_but_the_engine_switch() {
    let mut game = GameState::new();
    advance(&mut game, 20);
    let before: Frame = game.draw();
    game.key_down_event(Key::Thrust);
    assert_eq!(game.draw(), before);
    game.key_up_event(Key::Thrust);
    assert_eq!(game.draw(), before);
    assert_eq!(game.gravity_acceleration(), 10);
    assert_eq!(game.engine_acceleration(), 40);
}

#[test]
fn the_first_frame_shows_a_full_tank_and_the_whole_fall() {
    let game = GameState::new();
    let frame: Frame = game.draw();
    assert_eq!(
        frame,
        Frame { ship_offset: 0, fuel_bar_width: 2000, fuel: 1000, speed: 0, altitude: 1_620_000 }
    );
    assert_eq!(frame.altitude, CEILING);
    assert_eq!(frame.fuel_bar_width, FUEL_BAR_SCALE * 1000);
}

#[test]
fn a_frame_in_flight_shows_offset_speed_and_altitude() {
    let mut game = GameState::new();
    advance(&mut game, 10);
    game.key_down_event(Key::Thrust);
    advance(&mut game, 1);
    let frame: Frame = game.draw();
    assert_eq!(
        frame,
        Frame { ship_offset: 620, fuel_bar_width: 1994, fuel: 997, speed: 70, altitude: 1_619_380 }
    );
}

#[test]
fn an_overdrawn_tank_is_shown_as_empty() {
    let mut game = GameState::new();
    game.key_down_event(Key::Thrust);
    advance(&mut game, 334);
    assert_eq!(game.fuel(), -2);
    let frame: Frame = game.draw();
    assert_eq!(frame.fuel, 0);
    assert_eq!(frame.fuel_bar_width, -4);
    assert_eq!(frame.ship_offset, 0);
    assert_eq!(frame.speed, 0);
    assert_eq!(frame.altitude, 1_620_000);
}

#[test]
fn a_frame_on_the_ground_shows_the_overshoot() {
    let mut game = GameState::new();
    advance(&mut game, 569);
    let frame: Frame = game.draw();
    assert_eq!(frame.ship_offset, 1_621_650);
    assert_eq!(frame.altitude, -1650);
    assert_eq!(frame.speed, 5690);
}
