//! Goal detection: turns collision-begin signals into scoring events.

use vstd::prelude::*;

verus! {

/// Which of the two goal zones a body belongs to.
#[derive(Clone, Copy, Debug, PartialEq, Eq, Structural)]
pub enum GoalType {
    First,
    Second,
}

/// One of the two competing sides.
#[derive(Clone, Copy, Debug, PartialEq, Eq, Structural)]
pub enum PlayerType {
    First,
    Second,
}

/// A scored goal: `amount` points for `player`.
#[derive(Clone, Copy, Debug, PartialEq, Eq, Structural)]
pub struct GoalEvent {
    pub amount: u32,
    pub player: PlayerType,
}

/// A body of the physics layer that is tagged as a goal zone.
#[derive(Clone, Copy, Debug, PartialEq, Eq, Structural)]
pub struct GoalZone {
    pub body: u64,
    pub goal: GoalType,
}

/// A contact signal of the physics layer, naming the two bodies involved.
#[derive(Clone, Copy, Debug, PartialEq, Eq, Structural)]
pub enum CollisionSignal {
    Started(u64, u64),
    Stopped(u64, u64),
}

/// The side credited for a goal in a zone.
pub open spec fn player_for(goal: GoalType) -> PlayerType {
    match goal {
        GoalType::First => PlayerType::First,
        GoalType::Second => PlayerType::Second,
    }
}

/// The event emitted for one contact with a goal zone.
pub open spec fn goal_event_for(goal: GoalType) -> GoalEvent {
    GoalEvent { amount: 1, player: player_for(goal) }
}

/// The goal zone that `body` is tagged as, if any: the first entry of
/// `zones` that names it.
pub open spec fn goal_of(zones: Seq<GoalZone>, body: u64) -> Option<GoalType>
    decreases zones.len(),
{
    if zones.len() == 0 {
        None
    } else if zones[0].body == body {
        Some(zones[0].goal)
    } else {
        goal_of(zones.skip(1), body)
    }
}

/// Events for one body of a contact: one if it is a goal zone, none otherwise.
pub open spec fn events_for_body(zones: Seq<GoalZone>, body: u64) -> Seq<GoalEvent> {
    match goal_of(zones, body) {
        Some(g) => seq![goal_event_for(g)],
        None => Seq::empty(),
    }
}

/// Events for one signal: a started contact checks its second body, then its
/// first; a stopped contact yields nothing.
pub open spec fn events_for_signal(zones: Seq<GoalZone>, signal: CollisionSignal) -> Seq<GoalEvent> {
    match signal {
        CollisionSignal::Started(first, second) => events_for_body(zones, second) + events_for_body(
            zones,
            first,
        ),
        CollisionSignal::Stopped(_, _) => Seq::empty(),
    }
}

/// Events for a batch of signals, in the order of the signals.
pub open spec fn goal_events_of(zones: Seq<GoalZone>, signals: Seq<CollisionSignal>) -> Seq<GoalEvent>
    decreases signals.len(),
{
    if signals.len() == 0 {
        Seq::empty()
    } else {
        goal_events_of(zones, signals.drop_last()) + events_for_signal(zones, signals.last())
    }
}

/// A started contact between a goal zone and a body that is no goal zone
/// yields exactly one event, for that zone, whichever way round the pair is
/// named.
pub proof fn lemma_single_goal_contact(zones: Seq<GoalZone>, other: u64, zone_body: u64, goal: GoalType)
    requires
        goal_of(zones, zone_body) == Some(goal),
        goal_of(zones, other) == None::<GoalType>,
    ensures
        events_for_signal(zones, CollisionSignal::Started(other, zone_body)) == seq![goal_event_for(goal)],
        events_for_signal(zones, CollisionSignal::Started(zone_body, other)) == seq![goal_event_for(goal)],
{
    assert(events_for_signal(zones, CollisionSignal::Started(other, zone_body)) =~= seq![goal_event_for(goal)]);
    assert(events_for_signal(zones, CollisionSignal::Started(zone_body, other)) =~= seq![goal_event_for(goal)]);
}

/// Looks up the goal zone that `body` is tagged as.
pub fn goal_type_of(zones: &Vec<GoalZone>, body: u64) -> (r: Option<GoalType>)
    ensures
        r == goal_of(zones@, body),
{
    let mut i: usize = 0;
    proof {
        assert(zones@.subrange(0, zones.len() as int) =~= zones@);
    }
    while i < zones.len()
        invariant
            0 <= i <= zones.len(),
            goal_of(zones@, body) == goal_of(zones@.subrange(i as int, zones.len() as int), body),
        decreases zones.len() - i,
    {
        let ghost rest = zones@.subrange(i as int, zones.len() as int);
        if zones[i].body == body {
            return Some(zones[i].goal);
        }
        proof {
            assert(rest.skip(1) =~= zones@.subrange(i as int + 1, zones.len() as int));
        }
        i = i + 1;
    }
    None
}

/// Emits the event for a contact with the goal zone `goal_type`.
pub fn send_goal_event(goal_type: GoalType, goal_event_writer: &mut Vec<GoalEvent>)
    ensures
        final(goal_event_writer)@ == old(goal_event_writer)@.push(goal_event_for(goal_type)),
{
    let player = match goal_type {
        GoalType::First => PlayerType::First,
        GoalType::Second => PlayerType::Second,
    };
    goal_event_writer.push(GoalEvent { amount: 1, player });
}

/// Turns this frame's contact signals into goal events. Each body of a
/// started contact is checked on its own, the second before the first, so a
/// contact between two goal zones yields two events; stopped contacts are
/// ignored.
pub fn check_collision_for_goals(signals: &Vec<CollisionSignal>, zones: &Vec<GoalZone>) -> (r: Vec<
    GoalEvent,
>)
    ensures
        r@ == goal_events_of(zones@, signals@),
{
    let mut out: Vec<GoalEvent> = Vec::new();
    let mut i: usize = 0;
    while i < signals.len()
        invariant
            0 <= i <= signals.len(),
            out@ == goal_events_of(zones@, signals@.subrange(0, i as int)),
        decreases signals.len() - i,
    {
        let ghost before = out@;
        proof {
            assert(signals@.subrange(0, i as int + 1).drop_last() =~= signals@.subrange(0, i as int));
        }
        match signals[i] {
            CollisionSignal::Started(first, second) => {
                if let Some(goal) = goal_type_of(zones, second) {
                    send_goal_event(goal, &mut out);
                }
                let ghost mid = out@;
                if let Some(goal) = goal_type_of(zones, first) {
                    send_goal_event(goal, &mut out);
                }
                proof {
                    assert(mid =~= before + events_for_body(zones@, second));
                    assert(out@ =~= mid + events_for_body(zones@, first));
                    assert(out@ =~= before + events_for_signal(zones@, signals@[i as int]));
                }
            },
            CollisionSignal::Stopped(_, _) => {
                proof {
                    assert(out@ =~= before + events_for_signal(zones@, signals@[i as int]));
                }
            },
        }
        i = i + 1;
    }
    proof {
        assert(signals@.subrange(0, signals.len() as int) =~= signals@);
    }
    out
}

} // verus!
