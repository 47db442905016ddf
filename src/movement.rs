//! Movement intent from the state of a player's keys.

use vstd::prelude::*;

verus! {

/// The direction along one axis: -1 when only the negative key is held, 1
/// when only the positive key is held, 0 otherwise.
pub open spec fn axis_of(negative: bool, positive: bool) -> int {
    if negative && !positive {
        -1
    } else if positive && !negative {
        1
    } else {
        0
    }
}

/// Direction along one axis from its two keys.
pub fn movement_axis(negative_pressed: bool, positive_pressed: bool) -> (r: i32)
    ensures
        r as int == axis_of(negative_pressed, positive_pressed),
{
    match (negative_pressed, positive_pressed) {
        (true, false) => -1,
        (false, true) => 1,
        _ => 0,
    }
}

/// The wanted direction on the ground plane, as (sideways, forwards) axis
/// values, from the four direction keys.
pub fn wanted_player_direction(left: bool, right: bool, up: bool, down: bool) -> (r: (i32, i32))
    ensures
        r.0 as int == axis_of(left, right),
        r.1 as int == axis_of(up, down),
{
    (movement_axis(left, right), movement_axis(up, down))
}

} // verus!
