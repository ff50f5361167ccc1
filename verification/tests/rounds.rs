use lunar_lander::game::GameState;
use lunar_lander::input::Key;
use lunar_lander::outcome::Outcome;
use lunar_lander::units::{CEILING, SAFE_SPEED};

fn advance(game: &mut GameState, ticks: u32) {
    let mut done: u32 = 0;
    while done < ticks {
        game.update();
        done += 1;
    }
}

fn advance_to_the_ground(game: &mut GameState) -> (u32, Option<Outcome>) {
    let mut ticks: u32 = 0;
    let mut outcome: Option<Outcome> = game.outcome();
    while outcome.is_none() && ticks < 100_000 {
        outcome = game.update();
        ticks += 1;
    }
    (ticks, outcome)
}

#[test]
fn free_fall_to_the_ground_is_lost() {
    let mut game = GameState::new();
    advance(&mut game, 568);
    assert_eq!(game.outcome(), None);
    assert_eq!(game.height(), 1_615_960);
    assert_eq!(game.update(), Some(Outcome::Lose));
    assert_eq!(game.height(), 1_621_650);
    assert_eq!(game.speed(), 5690);
    assert_eq!(game.fuel(), 1000);
    assert_eq!(game.outcome(), Some(Outcome::Lose));
    assert_eq!(game.outcome().unwrap().message(), "GAMEOVER");
}

#[test]
fn braking_in_time_is_won() {
    let mut game = GameState::new();
    advance(&mut game, 493);
    game.key_down_event(Key::Thrust);
    let (ticks, outcome) = advance_to_the_ground(&mut game);
    assert_eq!(ticks, 160);
    assert_eq!(outcome, Some(Outcome::Win));
    assert_eq!(game.height(), 1_620_110);
    assert_eq!(game.speed(), 130);
    assert_eq!(game.fuel(), 520);
    assert_eq!(outcome.unwrap().message(), "WINNER");
}

#[test]
fn arriving_at_exactly_the_safe_speed_is_won() {
    let mut game = GameState::new();
    advance(&mut game, 492);
    game.key_down_event(Key::Thrust);
    advance(&mut game, 100);
    game.key_up_event(Key::Thrust);
    advance(&mut game, 3);
    game.key_down_event(Key::Thrust);
    let (ticks, outcome) = advance_to_the_ground(&mut game);
    assert_eq!(ticks, 55);
    assert_eq!(game.height(), 1_620_150);
    assert_eq!(game.speed(), 300);
    assert_eq!(game.speed(), SAFE_SPEED);
    assert_eq!(game.fuel(), 535);
    assert_eq!(outcome, Some(Outcome::Win));
}

#[test]
fn arriving_just_above_the_safe_speed_is_lost() {
    let mut game = GameState::new();
    advance(&mut game, 493);
    game.key_down_event(Key::Thrust);
    advance(&mut game, 155);
    game.key_up_event(Key::Thrust);
    let (ticks, outcome) = advance_to_the_ground(&mut game);
    assert_eq!(ticks, 3);
    assert_eq!(game.height(), 1_620_060);
    assert_eq!(game.speed(), 310);
    assert_eq!(game.fuel(), 535);
    assert_eq!(outcome, Some(Outcome::Lose));
}

#[test]
fn no_grade_is_given_before_the_ground() {
    let mut game = GameState::new();
    let mut tick: u32 = 0;
    while tick < 568 {
        assert_eq!(game.update(), None);
        assert!(game.height() < CEILING);
        tick += 1;
    }
    assert!(game.update().is_some());
    assert!(game.height() >= CEILING);
}

#[test]
fn a_finished_round_stays_as_it_ended() {
    let mut game = GameState::new();
    advance(&mut game, 493);
    game.key_down_event(Key::Thrust);
    let (_, outcome) = advance_to_the_ground(&mut game);
    assert_eq!(outcome, Some(Outcome::Win));
    let mut tick: u32 = 0;
    while tick < 100 {
        assert_eq!(game.update(), Some(Outcome::Win));
        tick += 1;
    }
    game.key_up_event(Key::Thrust);
    while tick < 200 {
        assert_eq!(game.update(), Some(Outcome::Win));
        tick += 1;
    }
    assert_eq!(game.height(), 1_620_110);
    assert_eq!(game.speed(), 130);
    assert_eq!(game.fuel(), 520);
    assert_eq!(game.outcome(), Some(Outcome::Win));
}

#[test]
fn a_lost_round_stays_lost() {
    let mut game = GameState::new();
    let (ticks, outcome) = advance_to_the_ground(&mut game);
    assert_eq!(ticks, 569);
    assert_eq!(outcome, Some(Outcome::Lose));
    game.key_down_event(Key::Thrust);
    advance(&mut game, 500);
    assert_eq!(game.outcome(), Some(Outcome::Lose));
    assert_eq!(game.speed(), 5690);
    assert_eq!(game.height(), 1_621_650);
    assert_eq!(game.fuel(), 1000);
}

#[test]
fn each_grade_has_its_message() {
    assert_eq!(Outcome::Win.message(), "WINNER");
    assert_eq!(Outcome::Lose.message(), "GAMEOVER");
    assert_ne!(Outcome::Win, Outcome::Lose);
}
