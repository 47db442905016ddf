use std::time::Duration;

use slatchhammer::game_state::{
    check_game_end, end_message, end_state_for, reset_after_goal, reset_game, start_placement,
    EndState, GameEndEvent, GameTime, Placement, Point3, GAME_TIME,
};
use slatchhammer::goals::{GoalEvent, PlayerType};
use slatchhammer::points::Points;
use slatchhammer::sprint::{SprintState, SPRINT_DURATION};

fn nanos(d: Duration) -> u64 {
    d.as_nanos() as u64
}

#[test]
fn current_time_when_called_return_duration() {
    // given
    let time = GameTime::new(nanos(Duration::from_secs(2)));

    // when
    let dur = time.current_time();

    // then
    assert_eq!(dur, nanos(Duration::from_secs(2)));
}

#[test]
fn tick_reports_expiry_exactly_once() {
    let two = nanos(Duration::from_secs(2));
    let mut timer = GameTime::new(two);
    assert!(!timer.just_finished());
    timer.tick(two);
    assert!(timer.just_finished());
    assert_eq!(timer.current_time(), 0);
    timer.tick(0);
    assert!(!timer.just_finished());
    timer.tick(two);
    assert!(!timer.just_finished());
    timer.reset();
    assert_eq!(timer.current_time(), two);
    timer.tick(two);
    assert!(timer.just_finished());
}

#[test]
fn tick_accumulates_and_saturates() {
    let mut timer = GameTime::new(10);
    timer.tick(4);
    assert_eq!(timer.current_time(), 6);
    assert!(!timer.just_finished());
    timer.tick(100);
    assert_eq!(timer.current_time(), 0);
    assert!(timer.just_finished());
    assert_eq!(timer.duration(), 10);
}

#[test]
fn zero_length_clock_expires_on_first_tick() {
    let mut timer = GameTime::new(0);
    assert!(!timer.just_finished());
    timer.tick(0);
    assert!(timer.just_finished());
}

#[test]
fn remaining_secs_rounds_down() {
    let mut timer = GameTime::new(GAME_TIME);
    assert_eq!(timer.remaining_secs(), 120);
    timer.tick(nanos(Duration::from_millis(500)));
    assert_eq!(timer.remaining_secs(), 119);
}

#[test]
fn draw_when_scores_equal_at_expiry() {
    let mut timer = GameTime::new(nanos(Duration::from_secs(2)));
    timer.tick(nanos(Duration::from_secs(2)));
    let points = Points { player_1: 0, player_2: 0 };
    assert_eq!(
        check_game_end(&timer, &points),
        Some(GameEndEvent { end_state: EndState::Draw })
    );
}

#[test]
fn side_a_wins_three_to_one() {
    let mut timer = GameTime::new(nanos(Duration::from_secs(2)));
    timer.tick(nanos(Duration::from_secs(3)));
    let points = Points { player_1: 3, player_2: 1 };
    assert_eq!(
        check_game_end(&timer, &points),
        Some(GameEndEvent { end_state: EndState::Player1Won })
    );
}

#[test]
fn side_b_wins_when_ahead() {
    assert_eq!(
        end_state_for(&Points { player_1: 2, player_2: 5 }),
        EndState::Player2Won
    );
}

#[test]
fn no_end_before_expiry() {
    let mut timer = GameTime::new(nanos(Duration::from_secs(2)));
    timer.tick(nanos(Duration::from_secs(1)));
    let points = Points { player_1: 3, player_2: 1 };
    assert_eq!(check_game_end(&timer, &points), None);
}

#[test]
fn end_messages() {
    assert_eq!(end_message(EndState::Player1Won), "Player 1 Won!");
    assert_eq!(end_message(EndState::Player2Won), "Player 2 Won!");
    assert_eq!(end_message(EndState::Draw), "Draw :/");
}

#[test]
fn starting_placement_values() {
    assert_eq!(
        start_placement(),
        Placement {
            player_1: Point3 { x: -10_000, y: 1_000, z: 0 },
            player_2: Point3 { x: 10_000, y: 1_000, z: 0 },
            ball: Point3 { x: 0, y: 4_000, z: 0 },
            ball_velocity: Point3 { x: 0, y: 0, z: 0 },
        }
    );
}

#[test]
fn reset_after_goal_rehomes_only_on_goals() {
    assert_eq!(reset_after_goal(&vec![]), None);
    let goals = vec![GoalEvent { amount: 1, player: PlayerType::Second }];
    assert_eq!(reset_after_goal(&goals), Some(start_placement()));
}

#[test]
fn major_reset_clears_everything() {
    let mut timer = GameTime::new(GAME_TIME);
    timer.tick(GAME_TIME);
    let mut points = Points { player_1: 4, player_2: 2 };
    let mut p1 = SprintState { duration: 3 };
    let mut p2 = SprintState { duration: 0 };
    let events = vec![GameEndEvent { end_state: EndState::Player1Won }];
    let placement = reset_game(&mut timer, &mut points, &mut p1, &mut p2, &events);
    assert_eq!(points, Points { player_1: 0, player_2: 0 });
    assert_eq!(timer.current_time(), GAME_TIME);
    assert!(!timer.just_finished());
    assert_eq!(p1.duration, SPRINT_DURATION);
    assert_eq!(p2.duration, SPRINT_DURATION);
    let placement = placement.unwrap();
    assert_eq!(placement.ball, Point3 { x: 0, y: 4_000, z: 0 });
    assert_eq!(placement.ball_velocity, Point3 { x: 0, y: 0, z: 0 });
}

#[test]
fn reset_game_without_event_changes_nothing() {
    let mut timer = GameTime::new(GAME_TIME);
    timer.tick(5);
    let mut points = Points { player_1: 4, player_2: 2 };
    let mut p1 = SprintState { duration: 3 };
    let mut p2 = SprintState { duration: 0 };
    let placement = reset_game(&mut timer, &mut points, &mut p1, &mut p2, &vec![]);
    assert_eq!(placement, None);
    assert_eq!(points, Points { player_1: 4, player_2: 2 });
    assert_eq!(timer.current_time(), GAME_TIME - 5);
    assert_eq!(p1.duration, 3);
    assert_eq!(p2.duration, 0);
}
