//! The scoring ledger: goals counted for each side.

use vstd::prelude::*;
use crate::goals::{GoalEvent, PlayerType};

verus! {

/// Goals counted for each side since the match began.
#[derive(Clone, Copy, Debug, PartialEq, Eq, Structural)]
pub struct Points {
    pub player_1: u32,
    pub player_2: u32,
}

/// The points that `events` award to `player`.
pub open spec fn points_for(events: Seq<GoalEvent>, player: PlayerType) -> int
    decreases events.len(),
{
    if events.len() == 0 {
        0
    } else {
        let ev = events.last();
        points_for(events.drop_last(), player) + if ev.player == player {
            ev.amount as int
        } else {
            0
        }
    }
}

proof fn lemma_points_for_monotone(events: Seq<GoalEvent>, i: int, player: PlayerType)
    requires
        0 <= i <= events.len(),
    ensures
        0 <= points_for(events.subrange(0, i), player) <= points_for(events, player),
    decreases events.len() - i,
{
    if i < events.len() {
        lemma_points_for_monotone(events, i + 1, player);
        assert(events.subrange(0, i + 1).drop_last() =~= events.subrange(0, i));
        lemma_points_for_nonneg(events.subrange(0, i), player);
    } else {
        assert(events.subrange(0, i) =~= events);
        lemma_points_for_nonneg(events, player);
    }
}

proof fn lemma_points_for_nonneg(events: Seq<GoalEvent>, player: PlayerType)
    ensures
        points_for(events, player) >= 0,
    decreases events.len(),
{
    if events.len() > 0 {
        lemma_points_for_nonneg(events.drop_last(), player);
    }
}

impl Points {
    /// Whether both counters still fit after `events` are recorded.
    pub open spec fn can_take(&self, events: Seq<GoalEvent>) -> bool {
        &&& self.player_1 + points_for(events, PlayerType::First) <= u32::MAX
        &&& self.player_2 + points_for(events, PlayerType::Second) <= u32::MAX
    }

    /// An empty ledger.
    pub fn new() -> (r: Points)
        ensures
            r.player_1 == 0,
            r.player_2 == 0,
    {
        Points { player_1: 0, player_2: 0 }
    }

    /// Zeroes both counters.
    pub fn clear(&mut self)
        ensures
            final(self).player_1 == 0,
            final(self).player_2 == 0,
    {
        self.player_1 = 0;
        self.player_2 = 0;
    }

    /// Tells whether recording `events` keeps both counters within `u32`.
    pub fn can_record(&self, events: &Vec<GoalEvent>) -> (r: bool)
        ensures
            r == self.can_take(events@),
    {
        let mut first: u64 = self.player_1 as u64;
        let mut second: u64 = self.player_2 as u64;
        let mut i: usize = 0;
        while i < events.len()
            invariant
                0 <= i <= events.len(),
                first == self.player_1 + points_for(events@.subrange(0, i as int), PlayerType::First),
                second == self.player_2 + points_for(events@.subrange(0, i as int), PlayerType::Second),
                first <= u32::MAX,
                second <= u32::MAX,
            decreases events.len() - i,
        {
            let ev = events[i];
            proof {
                assert(events@.subrange(0, i as int + 1).drop_last() =~= events@.subrange(0, i as int));
                lemma_points_for_monotone(events@, i as int + 1, PlayerType::First);
                lemma_points_for_monotone(events@, i as int + 1, PlayerType::Second);
            }
            match ev.player {
                PlayerType::First => first = first + ev.amount as u64,
                PlayerType::Second => second = second + ev.amount as u64,
            }
            if first > u32::MAX as u64 || second > u32::MAX as u64 {
                return false;
            }
            i = i + 1;
        }
        proof {
            assert(events@.subrange(0, events.len() as int) =~= events@);
        }
        true
    }

    /// Adds each goal's amount to the counter of the side it names, in order.
    pub fn update_player_points(&mut self, events: &Vec<GoalEvent>)
        requires
            old(self).can_take(events@),
        ensures
            final(self).player_1 == old(self).player_1 + points_for(events@, PlayerType::First),
            final(self).player_2 == old(self).player_2 + points_for(events@, PlayerType::Second),
    {
        let mut i: usize = 0;
        while i < events.len()
            invariant
                0 <= i <= events.len(),
                old(self).can_take(events@),
                self.player_1 == old(self).player_1 + points_for(events@.subrange(0, i as int), PlayerType::First),
                self.player_2 == old(self).player_2 + points_for(events@.subrange(0, i as int), PlayerType::Second),
            decreases events.len() - i,
        {
            let ev = events[i];
            proof {
                assert(events@.subrange(0, i as int + 1).drop_last() =~= events@.subrange(0, i as int));
                lemma_points_for_monotone(events@, i as int + 1, PlayerType::First);
                lemma_points_for_monotone(events@, i as int + 1, PlayerType::Second);
            }
            match ev.player {
                PlayerType::First => self.player_1 = self.player_1 + ev.amount,
                PlayerType::Second => self.player_2 = self.player_2 + ev.amount,
            }
            i = i + 1;
        }
        proof {
            assert(events@.subrange(0, events.len() as int) =~= events@);
        }
    }
}

impl Default for Points {
    fn default() -> (r: Points)
        ensures
            r.player_1 == 0,
            r.player_2 == 0,
    {
        Points::new()
    }
}

} // verus!
