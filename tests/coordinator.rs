use slatchhammer::coordinator::{FrameOutcome, MatchState};
use slatchhammer::game_state::{start_placement, EndState, GameEndEvent};
use slatchhammer::goals::{GoalEvent, PlayerType};
use slatchhammer::points::Points;
use slatchhammer::sprint::{ApplySprintEvent, NANOS_PER_SEC, SPRINT_DURATION};

const PLAYER_1_BODY: u64 = 100;
const PLAYER_2_BODY: u64 = 200;

#[test]
fn goal_rehome_leaves_sprint_untouched() {
    let mut state = MatchState::new(10 * NANOS_PER_SEC, PLAYER_1_BODY, PLAYER_2_BODY);
    state.apply_sprint_events(&vec![
        ApplySprintEvent { amount: -3, target: PLAYER_1_BODY },
        ApplySprintEvent { amount: -7, target: PLAYER_2_BODY },
    ]);
    let goals = vec![GoalEvent { amount: 1, player: PlayerType::First }];
    let placement = state.record_goals(&goals);
    assert_eq!(placement, Some(start_placement()));
    assert_eq!(state.sprint_p1.duration, SPRINT_DURATION - 3);
    assert_eq!(state.sprint_p2.duration, SPRINT_DURATION - 7);
    assert_eq!(state.points, Points { player_1: 1, player_2: 0 });
}

#[test]
fn frame_without_events_only_ticks() {
    let mut state = MatchState::new(10, PLAYER_1_BODY, PLAYER_2_BODY);
    let out = state.update(&vec![], &vec![], 4);
    assert_eq!(out, FrameOutcome { game_end: None, placement: None });
    assert_eq!(state.timer.current_time(), 6);
}

#[test]
fn frame_with_goal_scores_and_rehomes() {
    let mut state = MatchState::new(10, PLAYER_1_BODY, PLAYER_2_BODY);
    let goals = vec![GoalEvent { amount: 1, player: PlayerType::Second }];
    let sprint = vec![ApplySprintEvent { amount: -5, target: PLAYER_2_BODY }];
    let out = state.update(&goals, &sprint, 1);
    assert_eq!(out.game_end, None);
    assert_eq!(out.placement, Some(start_placement()));
    assert_eq!(state.points, Points { player_1: 0, player_2: 1 });
    assert_eq!(state.sprint_p1.duration, SPRINT_DURATION);
    assert_eq!(state.sprint_p2.duration, SPRINT_DURATION - 5);
}

#[test]
fn expiry_resolves_then_resets_match() {
    let mut state = MatchState::new(10, PLAYER_1_BODY, PLAYER_2_BODY);
    let goals = vec![
        GoalEvent { amount: 1, player: PlayerType::First },
        GoalEvent { amount: 1, player: PlayerType::First },
        GoalEvent { amount: 1, player: PlayerType::First },
        GoalEvent { amount: 1, player: PlayerType::Second },
    ];
    state.update(&goals, &vec![ApplySprintEvent { amount: -9, target: PLAYER_1_BODY }], 3);
    let out = state.update(&vec![], &vec![], 7);
    assert_eq!(
        out.game_end,
        Some(GameEndEvent { end_state: EndState::Player1Won })
    );
    let placement = out.placement.unwrap();
    assert_eq!(placement, start_placement());
    assert_eq!(placement.ball_velocity.x, 0);
    assert_eq!(placement.ball_velocity.y, 0);
    assert_eq!(placement.ball_velocity.z, 0);
    assert_eq!(state.points, Points { player_1: 0, player_2: 0 });
    assert_eq!(state.timer.current_time(), 10);
    assert_eq!(state.sprint_p1.duration, SPRINT_DURATION);
    assert_eq!(state.sprint_p2.duration, SPRINT_DURATION);
    let next = state.update(&vec![], &vec![], 0);
    assert_eq!(next.game_end, None);
}

#[test]
fn expiry_with_equal_scores_is_draw() {
    let mut state = MatchState::new(2 * NANOS_PER_SEC, PLAYER_1_BODY, PLAYER_2_BODY);
    let out = state.advance_clock(2 * NANOS_PER_SEC);
    assert_eq!(out, Some(GameEndEvent { end_state: EndState::Draw }));
    let again = state.advance_clock(0);
    assert_eq!(again, None);
    let placement = state.finish_match(&vec![out.unwrap()]);
    assert_eq!(placement, Some(start_placement()));
    assert_eq!(state.timer.current_time(), 2 * NANOS_PER_SEC);
}
