//! Laws of the elevator core, stated over the spec-level model and proved
//! once and for all.

use vstd::prelude::*;

use crate::lift::Directions;
use crate::lift::FloorState;
use crate::lift::LiftState;
use crate::lift::LiftView;
use crate::lift::floor_down;
use crate::lift::floor_ord;
use crate::lift::floor_up;
use crate::lift::has_key_above;
use crate::lift::has_key_below;
use crate::lift::lift_inv;
use crate::lift::phase_close;
use crate::lift::phase_open;
use crate::lift::resolve_direction;
use crate::lift::step_view;

verus! {

/// Adjacency round trip: going down one floor and back up returns to the
/// starting floor everywhere except at the bottom boundary, and the boundary
/// floors are fixed points of the saturating step that points past them.
pub proof fn lemma_floor_round_trip(f: FloorState)
    ensures
        f != FloorState::Floor1st ==> floor_up(floor_down(f)) == f,
        floor_down(FloorState::Floor1st) == FloorState::Floor1st,
        floor_up(FloorState::Floor8th) == FloorState::Floor8th,
{
}

/// Arrival clears the car's own request: immediately after a tick that runs
/// the Arrived phase, the flag for the floor the car stands on is false.
pub proof fn lemma_arrival_clears_current(v: LiftView)
    requires
        lift_inv(v),
        v.phase == LiftState::Arrived,
    ensures
        !step_view(v).keys[floor_ord(step_view(v).floor)],
{
}

/// The scan policy is sound: it never resolves Up without a pending request
/// strictly above the car, and never Down without one strictly below.
pub proof fn lemma_direction_sound(d: Directions, keys: Seq<bool>, cur: int)
    ensures
        resolve_direction(d, keys, cur) == Directions::Up ==> has_key_above(keys, cur),
        resolve_direction(d, keys, cur) == Directions::Down ==> has_key_below(keys, cur),
{
}

/// The scan policy continues until exhausted: an upward car stays upward
/// while any request pends strictly above it, whatever pends below, and
/// symmetrically for a downward car.
pub proof fn lemma_scan_continues(d: Directions, keys: Seq<bool>, cur: int)
    ensures
        d == Directions::Up && has_key_above(keys, cur) ==> resolve_direction(d, keys, cur)
            == Directions::Up,
        d == Directions::Down && has_key_below(keys, cur) ==> resolve_direction(d, keys, cur)
            == Directions::Down,
{
}

/// A car moving upward serves a request at the very next floor before
/// anything else: the tick lands on that floor and completes into Chime,
/// regardless of any requests pending further up or below.
pub proof fn lemma_moving_serves_next_above(v: LiftView)
    requires
        lift_inv(v),
        v.phase == LiftState::Moving,
        v.dir == Directions::Up,
        v.keys[floor_ord(floor_up(v.floor))],
    ensures
        step_view(v).floor == floor_up(v.floor),
        step_view(v).phase == LiftState::Chime,
{
}

/// A Moving tick changes the floor by exactly one ordinal in the travel
/// direction wherever a next floor exists in that direction.
pub proof fn lemma_moving_steps_one_floor(v: LiftView)
    requires
        lift_inv(v),
        v.phase == LiftState::Moving,
    ensures
        v.dir == Directions::Up && v.floor != FloorState::Floor8th ==> floor_ord(
            step_view(v).floor,
        ) == floor_ord(v.floor) + 1,
        v.dir == Directions::Down && v.floor != FloorState::Floor1st ==> floor_ord(
            step_view(v).floor,
        ) == floor_ord(v.floor) - 1,
{
}

/// The door-open command acts only on a close in progress: Closing turns into
/// Opening and every other phase, Waiting included, is left untouched.
pub proof fn lemma_open_policy(p: LiftState)
    ensures
        phase_open(LiftState::Closing) == LiftState::Opening,
        p != LiftState::Closing ==> phase_open(p) == p,
{
}

/// The door-close command acts only on an open or waiting door: Opening and
/// Waiting turn into Closing and every other phase, Chime included, is left
/// untouched.
pub proof fn lemma_close_policy(p: LiftState)
    ensures
        phase_close(LiftState::Opening) == LiftState::Closing,
        phase_close(LiftState::Waiting) == LiftState::Closing,
        p != LiftState::Opening && p != LiftState::Waiting ==> phase_close(p) == p,
{
}

/// A tick preserves the car's invariant: the board keeps its size, the car
/// stays on a real floor, and the car is never left moving without a
/// direction.
pub proof fn lemma_step_preserves_inv(v: LiftView)
    requires
        lift_inv(v),
    ensures
        lift_inv(step_view(v)),
{
}

} // verus!
