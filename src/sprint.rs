//! The per-player sprint resource: a stamina value that gates a speed boost.

use vstd::prelude::*;

verus! {

/// Nanoseconds in one second.
pub const NANOS_PER_SEC: u64 = 1_000_000_000;

/// Stamina of a full sprint resource: ten seconds of boost, in nanoseconds.
pub const SPRINT_DURATION: u64 = 10_000_000_000;

/// Speed multiplier granted while a player sprints.
pub const SPRINT_SPEED_FACTOR: u32 = 2;

/// Remaining sprint stamina of one player, in nanoseconds of boost.
#[derive(Clone, Copy, Debug, PartialEq, Eq, Structural)]
pub struct SprintState {
    pub duration: u64,
}

/// Marker for entities whose sprint stamina is drawn as a bar.
#[derive(Clone, Copy, Debug, PartialEq, Eq, Structural)]
pub struct ShowBars;

/// A signed stamina change aimed at one entity: a positive amount
/// resupplies, a negative one drains by its magnitude.
#[derive(Clone, Copy, Debug, PartialEq, Eq, Structural)]
pub struct ApplySprintEvent {
    pub amount: i64,
    pub target: u64,
}

/// What a sprint request yields: the speed multiplier, and the drain to apply
/// afterwards when the boost was granted.
#[derive(Clone, Copy, Debug, PartialEq, Eq, Structural)]
pub struct SprintBoost {
    pub speed_factor: u32,
    pub drain: Option<ApplySprintEvent>,
}

pub open spec fn min_nat(a: nat, b: nat) -> nat {
    if a <= b { a } else { b }
}

/// Stamina after a resupply: capped at a full resource.
pub open spec fn resupplied(duration: nat, amount: nat) -> nat {
    min_nat(duration + amount, SPRINT_DURATION as nat)
}

/// Stamina after a drain: never below zero.
pub open spec fn reduced(duration: nat, amount: nat) -> nat {
    if amount > duration { 0 } else { (duration - amount) as nat }
}

/// Stamina after a signed change.
pub open spec fn after_delta(duration: nat, amount: int) -> nat {
    if amount > 0 { resupplied(duration, amount as nat) } else { reduced(duration, (-amount) as nat) }
}

/// Stamina after the events of `events` aimed at `target`, taken in order.
pub open spec fn after_events(duration: nat, target: u64, events: Seq<ApplySprintEvent>) -> nat
    decreases events.len(),
{
    if events.len() == 0 {
        duration
    } else {
        let before = after_events(duration, target, events.drop_last());
        let ev = events.last();
        if ev.target == target { after_delta(before, ev.amount as int) } else { before }
    }
}

/// The outcome of a sprint request for a player with stamina `duration`
/// during a frame of `frame_time` nanoseconds.
pub open spec fn boost_for(duration: nat, frame_time: u64, target: u64) -> SprintBoost {
    if duration > 0 {
        SprintBoost {
            speed_factor: SPRINT_SPEED_FACTOR,
            drain: Some(ApplySprintEvent { amount: -(frame_time as int) as i64, target }),
        }
    } else {
        SprintBoost { speed_factor: 1, drain: None }
    }
}

/// A resupply followed by a drain of the same amount restores the stamina
/// when the resupply was not capped; when it was capped, the drain starts
/// from a full resource instead, and the stamina ends no higher than before.
pub proof fn lemma_resupply_then_reduce(duration: nat, amount: nat)
    requires
        duration <= SPRINT_DURATION,
    ensures
        duration + amount <= SPRINT_DURATION ==> reduced(resupplied(duration, amount), amount)
            == duration,
        duration + amount > SPRINT_DURATION ==> reduced(resupplied(duration, amount), amount)
            == reduced(SPRINT_DURATION as nat, amount),
        reduced(resupplied(duration, amount), amount) <= duration,
{
}

impl SprintState {
    /// Stamina never exceeds a full resource.
    pub open spec fn wf(&self) -> bool {
        self.duration <= SPRINT_DURATION
    }

    /// A full sprint resource.
    pub fn new() -> (r: SprintState)
        ensures
            r.duration == SPRINT_DURATION,
            r.wf(),
    {
        SprintState { duration: SPRINT_DURATION }
    }

    /// Refills the resource.
    pub fn reset(&mut self)
        ensures
            final(self).duration == SPRINT_DURATION,
    {
        self.duration = SPRINT_DURATION;
    }

    /// Adds `value` nanoseconds of stamina, capped at a full resource.
    pub fn resupply(&mut self, value: u64)
        ensures
            final(self).duration == resupplied(old(self).duration as nat, value as nat),
            final(self).wf(),
    {
        if self.duration >= SPRINT_DURATION || value >= SPRINT_DURATION - self.duration {
            self.duration = SPRINT_DURATION;
        } else {
            self.duration = self.duration + value;
        }
    }

    /// Takes `value` nanoseconds of stamina away, stopping at zero.
    pub fn reduce(&mut self, value: u64)
        ensures
            final(self).duration == reduced(old(self).duration as nat, value as nat),
            value >= old(self).duration ==> final(self).duration == 0,
            old(self).wf() ==> final(self).wf(),
    {
        if value > self.duration {
            self.duration = 0;
        } else {
            self.duration = self.duration - value;
        }
    }

    /// Whether any stamina is left.
    pub fn is_available(&self) -> (r: bool)
        ensures
            r == (self.duration > 0),
    {
        self.duration > 0
    }

    /// Remaining stamina in whole seconds, as the status bar shows it.
    pub fn whole_seconds(&self) -> (r: u64)
        ensures
            r == self.duration / NANOS_PER_SEC,
    {
        self.duration / NANOS_PER_SEC
    }

    /// Applies one signed change: a positive amount resupplies, any other
    /// drains by its magnitude.
    pub fn apply_delta(&mut self, amount: i64)
        ensures
            final(self).duration == after_delta(old(self).duration as nat, amount as int),
            old(self).wf() ==> final(self).wf(),
    {
        if amount > 0 {
            self.resupply(amount as u64);
        } else {
            let magnitude: u64 = (0i128 - amount as i128) as u64;
            self.reduce(magnitude);
        }
    }
}

impl Default for SprintState {
    fn default() -> (r: SprintState)
        ensures
            r.duration == SPRINT_DURATION,
    {
        SprintState::new()
    }
}

/// Applies, in order, the events of `events` aimed at `target` to that
/// entity's stamina; events aimed elsewhere are passed over.
pub fn apply_sprint_events(state: &mut SprintState, target: u64, events: &Vec<ApplySprintEvent>)
    ensures
        final(state).duration == after_events(old(state).duration as nat, target, events@),
        old(state).wf() ==> final(state).wf(),
{
    let mut i: usize = 0;
    while i < events.len()
        invariant
            0 <= i <= events.len(),
            state.duration == after_events(old(state).duration as nat, target, events@.subrange(0, i as int)),
            old(state).wf() ==> state.wf(),
        decreases events.len() - i,
    {
        let ev = events[i];
        proof {
            assert(events@.subrange(0, i as int + 1).drop_last() =~= events@.subrange(0, i as int));
        }
        if ev.target == target {
            state.apply_delta(ev.amount);
        }
        i = i + 1;
    }
    proof {
        assert(events@.subrange(0, events.len() as int) =~= events@);
    }
}

/// Decides a sprint request: a player with stamina left moves at double
/// speed and is charged the frame's time; one without is not boosted and is
/// charged nothing.
pub fn change_velocity(stamina: &SprintState, frame_time: u64, target: u64) -> (r: SprintBoost)
    requires
        frame_time <= i64::MAX,
    ensures
        r == boost_for(stamina.duration as nat, frame_time, target),
{
    if stamina.is_available() {
        let ev = ApplySprintEvent { amount: -(frame_time as i64), target };
        SprintBoost { speed_factor: SPRINT_SPEED_FACTOR, drain: Some(ev) }
    } else {
        SprintBoost { speed_factor: 1, drain: None }
    }
}

} // verus!
