//! The match state as one owned value, stepped once per frame: sprint
//! changes, goals into the ledger, the clock, the outcome, then the resets.

use vstd::prelude::*;
use crate::game_state::{
    check_game_end, fresh_timer, outcome, reset_after_goal, reset_game, starting_placement,
    tick_timer, GameEndEvent, GameTime, Placement,
};
use crate::goals::{GoalEvent, PlayerType};
use crate::points::{points_for, Points};
use crate::sprint::{after_events, apply_sprint_events, ApplySprintEvent, SprintState, SPRINT_DURATION};

verus! {

/// Everything a match owns: the ledger, the clock, and the sprint resource of
/// each player together with the body that player is.
pub struct MatchState {
    pub points: Points,
    pub timer: GameTime,
    pub sprint_p1: SprintState,
    pub sprint_p2: SprintState,
    pub player_1_body: u64,
    pub player_2_body: u64,
}

/// What a frame hands back to the engine: the end of the match, if it ended,
/// and where to put the players and the ball, if anything was reset.
#[derive(Clone, Copy, Debug, PartialEq, Eq, Structural)]
pub struct FrameOutcome {
    pub game_end: Option<GameEndEvent>,
    pub placement: Option<Placement>,
}

impl MatchState {
    pub open spec fn wf(&self) -> bool {
        &&& self.timer.wf()
        &&& self.sprint_p1.wf()
        &&& self.sprint_p2.wf()
    }

    /// A match of `duration` nanoseconds about to start, between the bodies
    /// `player_1_body` and `player_2_body`.
    pub fn new(duration: u64, player_1_body: u64, player_2_body: u64) -> (r: MatchState)
        ensures
            r.wf(),
            r.points.player_1 == 0,
            r.points.player_2 == 0,
            r.timer@ == fresh_timer(duration as nat),
            r.sprint_p1.duration == SPRINT_DURATION,
            r.sprint_p2.duration == SPRINT_DURATION,
            r.player_1_body == player_1_body,
            r.player_2_body == player_2_body,
    {
        MatchState {
            points: Points::new(),
            timer: GameTime::new(duration),
            sprint_p1: SprintState::new(),
            sprint_p2: SprintState::new(),
            player_1_body,
            player_2_body,
        }
    }

    /// Applies this frame's sprint changes to the player each one targets.
    pub fn apply_sprint_events(&mut self, events: &Vec<ApplySprintEvent>)
        requires
            old(self).wf(),
        ensures
            final(self).wf(),
            final(self).sprint_p1.duration == after_events(
                old(self).sprint_p1.duration as nat,
                old(self).player_1_body,
                events@,
            ),
            final(self).sprint_p2.duration == after_events(
                old(self).sprint_p2.duration as nat,
                old(self).player_2_body,
                events@,
            ),
            final(self).points == old(self).points,
            final(self).timer@ == old(self).timer@,
            final(self).player_1_body == old(self).player_1_body,
            final(self).player_2_body == old(self).player_2_body,
    {
        apply_sprint_events(&mut self.sprint_p1, self.player_1_body, events);
        apply_sprint_events(&mut self.sprint_p2, self.player_2_body, events);
    }

    /// Records this frame's goals in the ledger and re-homes the players and
    /// the ball if there were any. The clock and the sprint resources are
    /// left as they are.
    pub fn record_goals(&mut self, goals: &Vec<GoalEvent>) -> (r: Option<Placement>)
        requires
            old(self).wf(),
            old(self).points.can_take(goals@),
        ensures
            final(self).wf(),
            final(self).points.player_1 == old(self).points.player_1 + points_for(goals@, PlayerType::First),
            final(self).points.player_2 == old(self).points.player_2 + points_for(goals@, PlayerType::Second),
            final(self).timer@ == old(self).timer@,
            final(self).sprint_p1 == old(self).sprint_p1,
            final(self).sprint_p2 == old(self).sprint_p2,
            final(self).player_1_body == old(self).player_1_body,
            final(self).player_2_body == old(self).player_2_body,
            r == (if goals.len() > 0 { Some(starting_placement()) } else { None }),
    {
        self.points.update_player_points(goals);
        reset_after_goal(goals)
    }

    /// Advances the clock by `delta` nanoseconds and emits the end of the
    /// match if it expired on this tick. Nothing else changes.
    pub fn advance_clock(&mut self, delta: u64) -> (r: Option<GameEndEvent>)
        requires
            old(self).wf(),
        ensures
            final(self).wf(),
            final(self).timer@ == tick_timer(old(self).timer@, delta as nat),
            final(self).points == old(self).points,
            final(self).sprint_p1 == old(self).sprint_p1,
            final(self).sprint_p2 == old(self).sprint_p2,
            final(self).player_1_body == old(self).player_1_body,
            final(self).player_2_body == old(self).player_2_body,
            r == (if final(self).timer@.just_finished {
                Some(GameEndEvent { end_state: outcome(old(self).points.player_1, old(self).points.player_2) })
            } else {
                None
            }),
    {
        self.timer.tick(delta);
        check_game_end(&self.timer, &self.points)
    }

    /// Starts a new match when one ended: see `reset_game`.
    pub fn finish_match(&mut self, game_end_events: &Vec<GameEndEvent>) -> (r: Option<Placement>)
        requires
            old(self).wf(),
        ensures
            final(self).wf(),
            final(self).player_1_body == old(self).player_1_body,
            final(self).player_2_body == old(self).player_2_body,
            game_end_events.len() > 0 ==> {
                &&& final(self).timer@ == fresh_timer(old(self).timer@.total)
                &&& final(self).points.player_1 == 0
                &&& final(self).points.player_2 == 0
                &&& final(self).sprint_p1.duration == SPRINT_DURATION
                &&& final(self).sprint_p2.duration == SPRINT_DURATION
                &&& r == Some(starting_placement())
            },
            game_end_events.len() == 0 ==> {
                &&& final(self).timer@ == old(self).timer@
                &&& final(self).points == old(self).points
                &&& final(self).sprint_p1 == old(self).sprint_p1
                &&& final(self).sprint_p2 == old(self).sprint_p2
                &&& r == None::<Placement>
            },
    {
        reset_game(
            &mut self.timer,
            &mut self.points,
            &mut self.sprint_p1,
            &mut self.sprint_p2,
            game_end_events,
        )
    }

    /// One frame of the match: sprint changes, then goals into the ledger,
    /// then `delta` nanoseconds on the clock, then the outcome if the clock
    /// expired on this tick, and then, if it did, the full reset.
    pub fn update(
        &mut self,
        goals: &Vec<GoalEvent>,
        sprint_events: &Vec<ApplySprintEvent>,
        delta: u64,
    ) -> (r: FrameOutcome)
        requires
            old(self).wf(),
            old(self).points.can_take(goals@),
        ensures
            final(self).wf(),
            final(self).player_1_body == old(self).player_1_body,
            final(self).player_2_body == old(self).player_2_body,
            ({
                let ticked = tick_timer(old(self).timer@, delta as nat);
                let score_1 = old(self).points.player_1 + points_for(goals@, PlayerType::First);
                let score_2 = old(self).points.player_2 + points_for(goals@, PlayerType::Second);
                if ticked.just_finished {
                    &&& r.game_end == Some(GameEndEvent { end_state: outcome(score_1 as u32, score_2 as u32) })
                    &&& r.placement == Some(starting_placement())
                    &&& final(self).timer@ == fresh_timer(old(self).timer@.total)
                    &&& final(self).points.player_1 == 0
                    &&& final(self).points.player_2 == 0
                    &&& final(self).sprint_p1.duration == SPRINT_DURATION
                    &&& final(self).sprint_p2.duration == SPRINT_DURATION
                } else {
                    &&& r.game_end == None::<GameEndEvent>
                    &&& r.placement == (if goals.len() > 0 { Some(starting_placement()) } else { None })
                    &&& final(self).timer@ == ticked
                    &&& final(self).points.player_1 == score_1
                    &&& final(self).points.player_2 == score_2
                    &&& final(self).sprint_p1.duration == after_events(
                        old(self).sprint_p1.duration as nat,
                        old(self).player_1_body,
                        sprint_events@,
                    )
                    &&& final(self).sprint_p2.duration == after_events(
                        old(self).sprint_p2.duration as nat,
                        old(self).player_2_body,
                        sprint_events@,
                    )
                }
            }),
    {
        self.apply_sprint_events(sprint_events);
        let rehome = self.record_goals(goals);
        let game_end = self.advance_clock(delta);
        match game_end {
            Some(ev) => {
                let events = vec![ev];
                let placement = self.finish_match(&events);
                FrameOutcome { game_end, placement }
            },
            None => FrameOutcome { game_end, placement: rehome },
        }
    }
}

} // verus!
