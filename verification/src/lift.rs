//! The elevator core: floors, phases, directions, the request board, and the
//! tick-driven state machine that ties them together.

use vstd::pervasive::unreached;
use vstd::prelude::*;

verus! {

/// A position in the fixed eight-floor column. `FloorMax` is a sentinel that
/// marks "no floor"; the car never occupies it and no request is filed for it.
#[derive(Copy, Clone, Debug, PartialEq, Eq, Structural)]
pub enum FloorState {
    Floor1st,
    Floor2nd,
    Floor3rd,
    Floor4th,
    Floor5th,
    Floor6th,
    Floor7th,
    Floor8th,
    FloorMax,
}

/// The ordinal of a floor: `Floor1st` is 0 up to `Floor8th` at 7; the
/// sentinel `FloorMax` sits one past the real floors at 8.
pub open spec fn floor_ord(f: FloorState) -> int {
    match f {
        FloorState::Floor1st => 0,
        FloorState::Floor2nd => 1,
        FloorState::Floor3rd => 2,
        FloorState::Floor4th => 3,
        FloorState::Floor5th => 4,
        FloorState::Floor6th => 5,
        FloorState::Floor7th => 6,
        FloorState::Floor8th => 7,
        FloorState::FloorMax => 8,
    }
}

/// The floor directly above, saturating at the top: the topmost floor and the
/// sentinel are their own upward neighbours.
pub open spec fn floor_up(f: FloorState) -> FloorState {
    match f {
        FloorState::Floor1st => FloorState::Floor2nd,
        FloorState::Floor2nd => FloorState::Floor3rd,
        FloorState::Floor3rd => FloorState::Floor4th,
        FloorState::Floor4th => FloorState::Floor5th,
        FloorState::Floor5th => FloorState::Floor6th,
        FloorState::Floor6th => FloorState::Floor7th,
        FloorState::Floor7th => FloorState::Floor8th,
        FloorState::Floor8th => FloorState::Floor8th,
        FloorState::FloorMax => FloorState::FloorMax,
    }
}

/// The floor directly below, saturating at the bottom: the bottommost floor
/// and the sentinel are their own downward neighbours.
pub open spec fn floor_down(f: FloorState) -> FloorState {
    match f {
        FloorState::Floor1st => FloorState::Floor1st,
        FloorState::Floor2nd => FloorState::Floor1st,
        FloorState::Floor3rd => FloorState::Floor2nd,
        FloorState::Floor4th => FloorState::Floor3rd,
        FloorState::Floor5th => FloorState::Floor4th,
        FloorState::Floor6th => FloorState::Floor5th,
        FloorState::Floor7th => FloorState::Floor6th,
        FloorState::Floor8th => FloorState::Floor7th,
        FloorState::FloorMax => FloorState::FloorMax,
    }
}

impl FloorState {
    /// The next floor above, or this floor unchanged at the top boundary.
    pub fn up(&self) -> (r: FloorState)
        ensures
            r == floor_up(*self),
    {
        match self {
            FloorState::Floor1st => FloorState::Floor2nd,
            FloorState::Floor2nd => FloorState::Floor3rd,
            FloorState::Floor3rd => FloorState::Floor4th,
            FloorState::Floor4th => FloorState::Floor5th,
            FloorState::Floor5th => FloorState::Floor6th,
            FloorState::Floor6th => FloorState::Floor7th,
            FloorState::Floor7th => FloorState::Floor8th,
            _ => *self,
        }
    }

    /// The next floor below, or this floor unchanged at the bottom boundary.
    pub fn down(&self) -> (r: FloorState)
        ensures
            r == floor_down(*self),
    {
        match self {
            FloorState::Floor2nd => FloorState::Floor1st,
            FloorState::Floor3rd => FloorState::Floor2nd,
            FloorState::Floor4th => FloorState::Floor3rd,
            FloorState::Floor5th => FloorState::Floor4th,
            FloorState::Floor6th => FloorState::Floor5th,
            FloorState::Floor7th => FloorState::Floor6th,
            FloorState::Floor8th => FloorState::Floor7th,
            _ => *self,
        }
    }
}

/// One discrete step of the door/motion operational cycle. `Checked` is a
/// reserved phase that no transition reaches; the machine holds there if it
/// is ever entered.
#[derive(Copy, Clone, Debug, PartialEq, Eq, Structural)]
pub enum LiftState {
    Chime,
    Arrived,
    Opening,
    Waiting,
    Closing,
    Checking,
    Checked,
    Moving,
}

/// The unguarded successor of a phase in the cyclic order; the reserved
/// `Checked` phase is its own successor.
pub open spec fn phase_next(p: LiftState) -> LiftState {
    match p {
        LiftState::Chime => LiftState::Arrived,
        LiftState::Arrived => LiftState::Opening,
        LiftState::Opening => LiftState::Waiting,
        LiftState::Waiting => LiftState::Closing,
        LiftState::Closing => LiftState::Checking,
        LiftState::Checking => LiftState::Moving,
        LiftState::Checked => LiftState::Checked,
        LiftState::Moving => LiftState::Chime,
    }
}

/// Where an external door-open command sends a phase: it cancels a close in
/// progress and is a no-op in every other phase.
pub open spec fn phase_open(p: LiftState) -> LiftState {
    match p {
        LiftState::Closing => LiftState::Opening,
        _ => p,
    }
}

/// Where an external door-close command sends a phase: it cuts short an open
/// or waiting door and is a no-op in every other phase.
pub open spec fn phase_close(p: LiftState) -> LiftState {
    match p {
        LiftState::Opening => LiftState::Closing,
        LiftState::Waiting => LiftState::Closing,
        _ => p,
    }
}

impl LiftState {
    /// The unguarded successor phase in the cyclic order.
    pub fn next(&self) -> (r: LiftState)
        ensures
            r == phase_next(*self),
    {
        match self {
            LiftState::Chime => LiftState::Arrived,
            LiftState::Arrived => LiftState::Opening,
            LiftState::Opening => LiftState::Waiting,
            LiftState::Waiting => LiftState::Closing,
            LiftState::Closing => LiftState::Checking,
            LiftState::Checking => LiftState::Moving,
            LiftState::Moving => LiftState::Chime,
            _ => *self,
        }
    }

    /// The phase after an external door-open command.
    pub fn open(&self) -> (r: LiftState)
        ensures
            r == phase_open(*self),
    {
        match self {
            LiftState::Closing => LiftState::Opening,
            _ => *self,
        }
    }

    /// The phase after an external door-close command.
    pub fn close(&self) -> (r: LiftState)
        ensures
            r == phase_close(*self),
    {
        match self {
            LiftState::Opening => LiftState::Closing,
            LiftState::Waiting => LiftState::Closing,
            _ => *self,
        }
    }
}

/// The car's travel direction; `Idle` means no direction is resolved.
#[derive(Copy, Clone, Debug, PartialEq, Eq, Structural)]
pub enum Directions {
    Up,
    Down,
    Idle,
}

/// Whether some floor strictly above ordinal `cur` has a pending request.
pub open spec fn has_key_above(keys: Seq<bool>, cur: int) -> bool {
    exists|i: int| cur < i < keys.len() && keys[i]
}

/// Whether some floor strictly below ordinal `cur` has a pending request.
pub open spec fn has_key_below(keys: Seq<bool>, cur: int) -> bool {
    exists|i: int| 0 <= i < cur && i < keys.len() && keys[i]
}

/// The continue-until-exhausted scan policy. A moving car keeps its direction
/// while a request pends strictly ahead of it, reverses when requests pend
/// only behind it, and falls idle when no request pends anywhere else.
/// Requests at the current floor never take part in the decision.
pub open spec fn resolve_direction(d: Directions, keys: Seq<bool>, cur: int) -> Directions {
    match d {
        Directions::Up => if has_key_above(keys, cur) {
            Directions::Up
        } else if has_key_below(keys, cur) {
            Directions::Down
        } else {
            Directions::Idle
        },
        Directions::Down => if has_key_below(keys, cur) {
            Directions::Down
        } else if has_key_above(keys, cur) {
            Directions::Up
        } else {
            Directions::Idle
        },
        Directions::Idle => if has_key_above(keys, cur) {
            Directions::Up
        } else if has_key_below(keys, cur) {
            Directions::Down
        } else {
            Directions::Idle
        },
    }
}

/// The number of real floors, and so the size of the request board.
pub const FLOOR_COUNT: usize = 8;

/// The spec-level snapshot of a car: its floor, its phase, its travel
/// direction, and the request board as a sequence of pending-call flags
/// indexed by floor ordinal.
#[verifier::ext_equal]
pub ghost struct LiftView {
    pub floor: FloorState,
    pub phase: LiftState,
    pub dir: Directions,
    pub keys: Seq<bool>,
}

/// The car's internal invariant: the board has one flag per real floor, the
/// car stands on a real floor (never the sentinel), and the car is never in
/// the moving phase without a resolved direction.
pub open spec fn lift_inv(v: LiftView) -> bool {
    &&& v.keys.len() == FLOOR_COUNT
    &&& floor_ord(v.floor) < FLOOR_COUNT
    &&& (v.phase == LiftState::Moving ==> v.dir != Directions::Idle)
}

/// One tick of the state machine, as a function on snapshots.
///
/// Chime, Opening and Waiting advance unconditionally. Arrived clears the
/// request flag for the floor just reached, then re-resolves the direction on
/// the cleared board. Closing re-resolves the direction and promotes to
/// Checking only when a direction came out; otherwise the car idles in
/// Closing with the doors shut. Checking re-resolves likewise and releases
/// the car into Moving only with a resolved direction. Moving steps the car
/// exactly one floor in its direction and completes into Chime precisely when
/// the newly reached floor has a pending request. The reserved Checked phase
/// holds.
pub open spec fn step_view(v: LiftView) -> LiftView {
    match v.phase {
        LiftState::Chime => LiftView { phase: LiftState::Arrived, ..v },
        LiftState::Arrived => {
            let keys = v.keys.update(floor_ord(v.floor), false);
            LiftView {
                phase: LiftState::Opening,
                dir: resolve_direction(v.dir, keys, floor_ord(v.floor)),
                keys: keys,
                ..v
            }
        },
        LiftState::Opening => LiftView { phase: LiftState::Waiting, ..v },
        LiftState::Waiting => LiftView { phase: LiftState::Closing, ..v },
        LiftState::Closing => {
            let d = resolve_direction(v.dir, v.keys, floor_ord(v.floor));
            LiftView {
                phase: if d != Directions::Idle {
                    LiftState::Checking
                } else {
                    LiftState::Closing
                },
                dir: d,
                ..v
            }
        },
        LiftState::Checking => {
            let d = resolve_direction(v.dir, v.keys, floor_ord(v.floor));
            LiftView {
                phase: if d != Directions::Idle {
                    LiftState::Moving
                } else {
                    LiftState::Checking
                },
                dir: d,
                ..v
            }
        },
        LiftState::Checked => v,
        LiftState::Moving => {
            let f = if v.dir == Directions::Up {
                floor_up(v.floor)
            } else {
                floor_down(v.floor)
            };
            LiftView {
                phase: if v.keys[floor_ord(f)] {
                    LiftState::Chime
                } else {
                    LiftState::Moving
                },
                floor: f,
                ..v
            }
        },
    }
}

/// One elevator car: its position, phase, direction, and request board.
pub struct Lift {
    floor_state: FloorState,
    lift_state: LiftState,
    direction: Directions,
    floor_keys: Vec<bool>,
}

impl View for Lift {
    type V = LiftView;

    closed spec fn view(&self) -> LiftView {
        LiftView {
            floor: self.floor_state,
            phase: self.lift_state,
            dir: self.direction,
            keys: self.floor_keys@,
        }
    }
}

/// The ordinal of a floor as a board index; the sentinel maps one past the
/// real floors.
fn floor_index(f: &FloorState) -> (r: usize)
    ensures
        r == floor_ord(*f),
{
    match f {
        FloorState::Floor1st => 0,
        FloorState::Floor2nd => 1,
        FloorState::Floor3rd => 2,
        FloorState::Floor4th => 3,
        FloorState::Floor5th => 4,
        FloorState::Floor6th => 5,
        FloorState::Floor7th => 6,
        FloorState::Floor8th => 7,
        FloorState::FloorMax => 8,
    }
}

impl Lift {
    /// The internal invariant, as seen through the view.
    pub open spec fn wf(self) -> bool {
        lift_inv(self@)
    }

    /// A fresh car: standing at the bottom floor in the Arrived phase, with
    /// no direction and an empty request board.
    pub fn new() -> (r: Lift)
        ensures
            r.wf(),
            r@.floor == FloorState::Floor1st,
            r@.phase == LiftState::Arrived,
            r@.dir == Directions::Idle,
            r@.keys.len() == FLOOR_COUNT,
            forall|i: int| 0 <= i < FLOOR_COUNT ==> !r@.keys[i],
    {
        let mut keys: Vec<bool> = Vec::new();
        while keys.len() < FLOOR_COUNT
            invariant
                keys@.len() <= FLOOR_COUNT,
                forall|i: int| 0 <= i < keys@.len() ==> !keys@[i],
            decreases FLOOR_COUNT - keys@.len(),
        {
            keys.push(false);
        }
        Lift {
            floor_state: FloorState::Floor1st,
            lift_state: LiftState::Arrived,
            direction: Directions::Idle,
            floor_keys: keys,
        }
    }

    /// The floor the car currently occupies.
    pub fn floor_state(&self) -> (r: &FloorState)
        ensures
            *r == self@.floor,
    {
        &self.floor_state
    }

    /// The phase the machine currently holds.
    pub fn lift_state(&self) -> (r: &LiftState)
        ensures
            *r == self@.phase,
    {
        &self.lift_state
    }

    /// The currently resolved travel direction.
    pub fn direction(&self) -> (r: &Directions)
        ensures
            *r == self@.dir,
    {
        &self.direction
    }

    /// Files or withdraws a request for a floor and reports whether the board
    /// changed. Pressing the button for the floor the car already occupies is
    /// rejected outright: the board is untouched and the call reports
    /// "unchanged".
    pub fn set_floor_key(&mut self, floor: FloorState, key: bool) -> (changed: bool)
        requires
            old(self).wf(),
            floor != FloorState::FloorMax,
        ensures
            final(self).wf(),
            final(self)@.floor == old(self)@.floor,
            final(self)@.phase == old(self)@.phase,
            final(self)@.dir == old(self)@.dir,
            key && floor == old(self)@.floor ==> {
                &&& final(self)@.keys == old(self)@.keys
                &&& !changed
            },
            !(key && floor == old(self)@.floor) ==> {
                &&& final(self)@.keys == old(self)@.keys.update(floor_ord(floor), key)
                &&& changed == (key != old(self)@.keys[floor_ord(floor)])
            },
    {
        if key && self.floor_state == floor {
            return false;
        }
        let idx = floor_index(&floor);
        let prev = self.floor_keys[idx];
        self.floor_keys[idx] = key;
        key != prev
    }

    /// Whether the floor the car occupies has a pending request.
    fn has_current_by_key(&self) -> (r: bool)
        requires
            self.wf(),
        ensures
            r == self@.keys[floor_ord(self@.floor)],
    {
        let cur = floor_index(&self.floor_state);
        self.floor_keys[cur]
    }

    /// Whether some floor strictly above the car has a pending request.
    fn has_upper_by_key(&self) -> (r: bool)
        requires
            self.wf(),
        ensures
            r == has_key_above(self@.keys, floor_ord(self@.floor)),
    {
        let cur = floor_index(&self.floor_state);
        let mut i: usize = cur + 1;
        while i < FLOOR_COUNT
            invariant
                self.wf(),
                cur == floor_ord(self@.floor),
                cur < i <= FLOOR_COUNT,
                forall|j: int| cur < j < i ==> !self@.keys[j],
            decreases FLOOR_COUNT - i,
        {
            if self.floor_keys[i] {
                return true;
            }
            i += 1;
        }
        false
    }

    /// Whether some floor strictly below the car has a pending request.
    fn has_lower_by_key(&self) -> (r: bool)
        requires
            self.wf(),
        ensures
            r == has_key_below(self@.keys, floor_ord(self@.floor)),
    {
        let cur = floor_index(&self.floor_state);
        let mut i: usize = 0;
        while i < cur
            invariant
                self.wf(),
                cur == floor_ord(self@.floor),
                i <= cur,
                forall|j: int| 0 <= j < i ==> !self@.keys[j],
            decreases cur - i,
        {
            if self.floor_keys[i] {
                return true;
            }
            i += 1;
        }
        false
    }

    /// Re-resolves the travel direction from the board by the scan policy;
    /// nothing else changes.
    fn update_direction(&mut self)
        requires
            old(self).wf(),
        ensures
            final(self)@.floor == old(self)@.floor,
            final(self)@.phase == old(self)@.phase,
            final(self)@.keys == old(self)@.keys,
            final(self)@.dir == resolve_direction(
                old(self)@.dir,
                old(self)@.keys,
                floor_ord(old(self)@.floor),
            ),
    {
        match self.direction {
            Directions::Up => {
                if !self.has_upper_by_key() {
                    if self.has_lower_by_key() {
                        self.direction = Directions::Down;
                    } else {
                        self.direction = Directions::Idle;
                    }
                }
            },
            Directions::Down => {
                if !self.has_lower_by_key() {
                    if self.has_upper_by_key() {
                        self.direction = Directions::Up;
                    } else {
                        self.direction = Directions::Idle;
                    }
                }
            },
            Directions::Idle => {
                if self.has_upper_by_key() {
                    self.direction = Directions::Up;
                } else if self.has_lower_by_key() {
                    self.direction = Directions::Down;
                }
            },
        }
    }

    /// One tick: advances the machine exactly as `step_view` says.
    pub fn next(&mut self)
        requires
            old(self).wf(),
        ensures
            final(self).wf(),
            final(self)@ == step_view(old(self)@),
    {
        match self.lift_state {
            LiftState::Chime => {
                self.lift_state = LiftState::Arrived;
            },
            LiftState::Arrived => {
                self.lift_arrived();
                self.lift_state = LiftState::Opening;
            },
            LiftState::Opening => {
                self.lift_state = LiftState::Waiting;
            },
            LiftState::Waiting => {
                self.lift_state = LiftState::Closing;
            },
            LiftState::Closing => {
                self.lift_closing();
            },
            LiftState::Checking => {
                self.lift_checking();
            },
            LiftState::Checked => {},
            LiftState::Moving => {
                self.lift_moving();
            },
        }
        proof {
            assert(self@ =~= step_view(old(self)@));
        }
    }

    /// The Arrived phase's work: clears the request flag for the floor just
    /// reached, then re-resolves the direction on the cleared board.
    fn lift_arrived(&mut self)
        requires
            old(self).wf(),
        ensures
            final(self)@.floor == old(self)@.floor,
            final(self)@.phase == old(self)@.phase,
            final(self)@.keys == old(self)@.keys.update(floor_ord(old(self)@.floor), false),
            final(self)@.dir == resolve_direction(
                old(self)@.dir,
                old(self)@.keys.update(floor_ord(old(self)@.floor), false),
                floor_ord(old(self)@.floor),
            ),
    {
        let here = self.floor_state;
        self.set_floor_key(here, false);
        self.update_direction();
    }

    /// The Closing phase's work: re-resolves the direction and promotes to
    /// Checking only when a direction came out; with no pending request the
    /// car idles in Closing.
    fn lift_closing(&mut self)
        requires
            old(self).wf(),
            old(self)@.phase == LiftState::Closing,
        ensures
            final(self).wf(),
            final(self)@ == step_view(old(self)@),
    {
        self.update_direction();
        if self.direction != Directions::Idle {
            self.lift_state = LiftState::Checking;
        }
        proof {
            assert(self@ =~= step_view(old(self)@));
        }
    }

    /// The Checking phase's guard: re-resolves the direction and releases the
    /// car into Moving only when a direction came out; otherwise the phase
    /// holds until an external request call changes the board.
    fn lift_checking(&mut self)
        requires
            old(self).wf(),
            old(self)@.phase == LiftState::Checking,
        ensures
            final(self).wf(),
            final(self)@ == step_view(old(self)@),
    {
        self.update_direction();
        if self.direction != Directions::Idle {
            self.lift_state = LiftState::Moving;
        }
        proof {
            assert(self@ =~= step_view(old(self)@));
        }
    }

    /// The Moving phase's work: steps the car one floor in its direction and
    /// completes into Chime precisely when the newly reached floor has a
    /// pending request.
    fn lift_moving(&mut self)
        requires
            old(self).wf(),
            old(self)@.phase == LiftState::Moving,
        ensures
            final(self).wf(),
            final(self)@ == step_view(old(self)@),
    {
        self.move_floor();
        if self.has_current_by_key() {
            self.lift_state = LiftState::Chime;
        }
        proof {
            assert(self@ =~= step_view(old(self)@));
        }
    }

    /// Moves the car exactly one floor in its resolved direction, saturating
    /// at the boundary floors. A car with no direction never moves: the
    /// Checking guard keeps this call unreachable then.
    fn move_floor(&mut self)
        requires
            old(self).wf(),
            old(self)@.dir != Directions::Idle,
        ensures
            final(self)@.floor == (if old(self)@.dir == Directions::Up {
                floor_up(old(self)@.floor)
            } else {
                floor_down(old(self)@.floor)
            }),
            final(self)@.phase == old(self)@.phase,
            final(self)@.dir == old(self)@.dir,
            final(self)@.keys == old(self)@.keys,
            floor_ord(final(self)@.floor) < FLOOR_COUNT,
    {
        let f = match self.direction {
            Directions::Up => self.floor_state.up(),
            Directions::Down => self.floor_state.down(),
            Directions::Idle => unreached(),
        };
        self.floor_state = f;
    }

    /// An external door-open command: cancels a close in progress and is a
    /// no-op in every other phase.
    pub fn open(&mut self)
        requires
            old(self).wf(),
        ensures
            final(self).wf(),
            final(self)@.phase == phase_open(old(self)@.phase),
            final(self)@.floor == old(self)@.floor,
            final(self)@.dir == old(self)@.dir,
            final(self)@.keys == old(self)@.keys,
    {
        self.lift_state = self.lift_state.open();
    }

    /// An external door-close command: cuts short an open or waiting door and
    /// is a no-op in every other phase.
    pub fn close(&mut self)
        requires
            old(self).wf(),
        ensures
            final(self).wf(),
            final(self)@.phase == phase_close(old(self)@.phase),
            final(self)@.floor == old(self)@.floor,
            final(self)@.dir == old(self)@.dir,
            final(self)@.keys == old(self)@.keys,
    {
        self.lift_state = self.lift_state.close();
    }

    /// The request board, one pending-call flag per real floor.
    pub fn keys(&self) -> (r: &[bool])
        ensures
            r@ == self@.keys,
    {
        self.floor_keys.as_slice()
    }
}

} // verus!
