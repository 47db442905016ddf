//! The match clock, the decision of who won, and the resets between goals
//! and between matches.

use vstd::prelude::*;
use crate::goals::GoalEvent;
use crate::points::Points;
use crate::sprint::{SprintState, NANOS_PER_SEC, SPRINT_DURATION};

verus! {

/// Length of a match: two minutes, in nanoseconds.
pub const GAME_TIME: u64 = 120_000_000_000;

/// Abstract state of a one-shot countdown clock.
pub ghost struct TimerModel {
    pub total: nat,
    pub elapsed: nat,
    pub finished: bool,
    pub just_finished: bool,
}

/// A fresh clock of length `total`.
pub open spec fn fresh_timer(total: nat) -> TimerModel {
    TimerModel { total, elapsed: 0, finished: false, just_finished: false }
}

/// The clock after `delta` nanoseconds pass. Once finished it stands still;
/// otherwise the elapsed time grows up to the total, and the tick on which it
/// reaches the total is the one that reports the expiry.
pub open spec fn tick_timer(t: TimerModel, delta: nat) -> TimerModel {
    if t.finished {
        TimerModel { just_finished: false, ..t }
    } else {
        let elapsed = if t.elapsed + delta >= t.total { t.total } else { t.elapsed + delta };
        let finished = elapsed >= t.total;
        TimerModel { total: t.total, elapsed, finished, just_finished: finished }
    }
}

/// The clock after a run of ticks, in order.
pub open spec fn tick_all(t: TimerModel, deltas: Seq<nat>) -> TimerModel
    decreases deltas.len(),
{
    if deltas.len() == 0 {
        t
    } else {
        tick_timer(tick_all(t, deltas.drop_last()), deltas.last())
    }
}

/// The match clock.
pub struct GameTime {
    duration: u64,
    elapsed: u64,
    finished: bool,
    just_finished: bool,
}

impl View for GameTime {
    type V = TimerModel;

    closed spec fn view(&self) -> TimerModel {
        TimerModel {
            total: self.duration as nat,
            elapsed: self.elapsed as nat,
            finished: self.finished,
            just_finished: self.just_finished,
        }
    }
}

impl GameTime {
    /// The elapsed time stays within the total; an expiry report implies an
    /// expired clock, which has run its whole length.
    pub open spec fn wf(&self) -> bool {
        &&& self@.elapsed <= self@.total
        &&& self@.just_finished ==> self@.finished
        &&& self@.finished ==> self@.elapsed == self@.total
        &&& self@.total <= u64::MAX
    }

    /// A clock of `duration` nanoseconds that has not started running.
    pub fn new(duration: u64) -> (r: GameTime)
        ensures
            r@ == fresh_timer(duration as nat),
            r.wf(),
    {
        GameTime { duration, elapsed: 0, finished: false, just_finished: false }
    }

    /// Time left before the clock expires.
    pub fn current_time(&self) -> (r: u64)
        requires
            self.wf(),
        ensures
            r == self@.total - self@.elapsed,
    {
        self.duration - self.elapsed
    }

    /// Time left in whole seconds, as the clock display shows it.
    pub fn remaining_secs(&self) -> (r: u64)
        requires
            self.wf(),
        ensures
            r == (self@.total - self@.elapsed) / NANOS_PER_SEC as int,
    {
        self.current_time() / NANOS_PER_SEC
    }

    /// Length of the match the clock measures.
    pub fn duration(&self) -> (r: u64)
        ensures
            r == self@.total,
    {
        self.duration
    }

    /// Whether the last tick was the one on which the clock expired.
    pub fn just_finished(&self) -> (r: bool)
        ensures
            r == self@.just_finished,
    {
        self.just_finished
    }

    /// Advances the clock by `delta` nanoseconds.
    pub fn tick(&mut self, delta: u64)
        requires
            old(self).wf(),
        ensures
            final(self)@ == tick_timer(old(self)@, delta as nat),
            final(self).wf(),
    {
        if self.finished {
            self.just_finished = false;
        } else {
            if delta >= self.duration - self.elapsed {
                self.elapsed = self.duration;
            } else {
                self.elapsed = self.elapsed + delta;
            }
            self.finished = self.elapsed >= self.duration;
            self.just_finished = self.finished;
        }
    }

    /// Rewinds the clock to the start of a match.
    pub fn reset(&mut self)
        requires
            old(self).wf(),
        ensures
            final(self)@ == fresh_timer(old(self)@.total),
            final(self).wf(),
    {
        self.elapsed = 0;
        self.finished = false;
        self.just_finished = false;
    }
}

/// A clock expires on exactly one tick: one that reports the expiry is
/// followed by ticks that never report it again, whatever time they add,
/// until the clock is reset.
pub proof fn lemma_expiry_reported_once(t: TimerModel, delta: nat, later: Seq<nat>)
    requires
        tick_timer(t, delta).just_finished,
    ensures
        tick_all(tick_timer(t, delta), later).finished,
        later.len() > 0 ==> !tick_all(tick_timer(t, delta), later).just_finished,
    decreases later.len(),
{
    if later.len() > 0 {
        lemma_expiry_reported_once(t, delta, later.drop_last());
    }
}

/// A fresh clock ticked by its whole length reports its expiry on that tick.
pub proof fn lemma_full_tick_expires(total: nat, delta: nat)
    requires
        delta >= total,
    ensures
        tick_timer(fresh_timer(total), delta).just_finished,
        tick_timer(fresh_timer(total), delta).elapsed == total,
{
}

/// How a match ended.
#[derive(Clone, Copy, Debug, PartialEq, Eq, Structural)]
pub enum EndState {
    Player1Won,
    Player2Won,
    Draw,
}

/// Announces the end of a match.
#[derive(Clone, Copy, Debug, PartialEq, Eq, Structural)]
pub struct GameEndEvent {
    pub end_state: EndState,
}

/// The outcome for a final score: the side with more goals wins; equal
/// scores draw.
pub open spec fn outcome(player_1: u32, player_2: u32) -> EndState {
    if player_1 > player_2 {
        EndState::Player1Won
    } else if player_2 > player_1 {
        EndState::Player2Won
    } else {
        EndState::Draw
    }
}

/// The banner text announcing an outcome.
pub open spec fn end_message_text(end_state: EndState) -> Seq<char> {
    match end_state {
        EndState::Player1Won => "Player 1 Won!"@,
        EndState::Player2Won => "Player 2 Won!"@,
        EndState::Draw => "Draw :/"@,
    }
}

/// The banner text shown when a match ends with `end_state`.
pub fn end_message(end_state: EndState) -> (r: &'static str)
    ensures
        r@ == end_message_text(end_state),
{
    match end_state {
        EndState::Player1Won => "Player 1 Won!",
        EndState::Player2Won => "Player 2 Won!",
        EndState::Draw => "Draw :/",
    }
}

/// The outcome of the ledger `points`.
pub fn end_state_for(points: &Points) -> (r: EndState)
    ensures
        r == outcome(points.player_1, points.player_2),
{
    if points.player_1 > points.player_2 {
        EndState::Player1Won
    } else if points.player_2 > points.player_1 {
        EndState::Player2Won
    } else {
        EndState::Draw
    }
}

/// Emits the end of the match on the tick on which the clock expired, and
/// nothing on any other tick. Neither the clock nor the ledger is changed.
pub fn check_game_end(timer: &GameTime, points: &Points) -> (r: Option<GameEndEvent>)
    ensures
        r == (if timer@.just_finished {
            Some(GameEndEvent { end_state: outcome(points.player_1, points.player_2) })
        } else {
            None
        }),
{
    if timer.just_finished() {
        Some(GameEndEvent { end_state: end_state_for(points) })
    } else {
        None
    }
}

/// A point or a velocity in the arena, in millimetres (per second).
#[derive(Clone, Copy, Debug, PartialEq, Eq, Structural)]
pub struct Point3 {
    pub x: i32,
    pub y: i32,
    pub z: i32,
}

/// Where a reset puts the players and the ball, and the ball's velocity.
#[derive(Clone, Copy, Debug, PartialEq, Eq, Structural)]
pub struct Placement {
    pub player_1: Point3,
    pub player_2: Point3,
    pub ball: Point3,
    pub ball_velocity: Point3,
}

/// The fixed starting placement: the players ten metres either side of the
/// centre, the ball four metres above it and at rest.
pub open spec fn starting_placement() -> Placement {
    Placement {
        player_1: Point3 { x: (-10_000) as i32, y: 1_000, z: 0 },
        player_2: Point3 { x: 10_000, y: 1_000, z: 0 },
        ball: Point3 { x: 0, y: 4_000, z: 0 },
        ball_velocity: Point3 { x: 0, y: 0, z: 0 },
    }
}

/// Builds the starting placement.
pub fn start_placement() -> (r: Placement)
    ensures
        r == starting_placement(),
{
    Placement {
        player_1: Point3 { x: -10_000, y: 1_000, z: 0 },
        player_2: Point3 { x: 10_000, y: 1_000, z: 0 },
        ball: Point3 { x: 0, y: 4_000, z: 0 },
        ball_velocity: Point3 { x: 0, y: 0, z: 0 },
    }
}

/// The re-homing after goals: when any goal was scored this frame, the
/// players and the ball go back to their starting placement.
pub fn reset_after_goal(goal_events: &Vec<GoalEvent>) -> (r: Option<Placement>)
    ensures
        r == (if goal_events.len() > 0 { Some(starting_placement()) } else { None }),
{
    if goal_events.len() > 0 {
        Some(start_placement())
    } else {
        None
    }
}

/// The full reset after the end of a match: the clock rewinds, the ledger is
/// zeroed, both sprint resources are refilled and the players and the ball
/// return to their starting placement. Without an end event nothing changes.
pub fn reset_game(
    timer: &mut GameTime,
    points: &mut Points,
    sprint_p1: &mut SprintState,
    sprint_p2: &mut SprintState,
    game_end_events: &Vec<GameEndEvent>,
) -> (r: Option<Placement>)
    requires
        old(timer).wf(),
    ensures
        final(timer).wf(),
        game_end_events.len() > 0 ==> {
            &&& final(timer)@ == fresh_timer(old(timer)@.total)
            &&& final(points).player_1 == 0
            &&& final(points).player_2 == 0
            &&& final(sprint_p1).duration == SPRINT_DURATION
            &&& final(sprint_p2).duration == SPRINT_DURATION
            &&& r == Some(starting_placement())
        },
        game_end_events.len() == 0 ==> {
            &&& final(timer)@ == old(timer)@
            &&& *final(points) == *old(points)
            &&& *final(sprint_p1) == *old(sprint_p1)
            &&& *final(sprint_p2) == *old(sprint_p2)
            &&& r == None::<Placement>
        },
{
    if game_end_events.len() == 0 {
        return None;
    }
    timer.reset();
    points.clear();
    sprint_p1.reset();
    sprint_p2.reset();
    Some(start_placement())
}

} // verus!
