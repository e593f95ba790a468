use pico_toy_elevator::lift::Directions;
use pico_toy_elevator::lift::FloorState;
use pico_toy_elevator::lift::Lift;
use pico_toy_elevator::lift::LiftState;

/// Drives a fresh car into its idle rest: doors shut in Closing at the
/// bottom floor with nothing pending.
fn idle_at_bottom() -> Lift {
    let mut lift = Lift::new();
    lift.next(); // Arrived -> Opening
    lift.next(); // Opening -> Waiting
    lift.next(); // Waiting -> Closing, and it stays there
    assert_eq!(*lift.lift_state(), LiftState::Closing);
    assert_eq!(*lift.direction(), Directions::Idle);
    lift
}

#[test]
fn bottom_to_top_traversal() {
    let mut lift = idle_at_bottom();
    assert!(lift.set_floor_key(FloorState::Floor8th, true));

    lift.next();
    assert_eq!(*lift.lift_state(), LiftState::Checking);
    assert_eq!(*lift.direction(), Directions::Up);
    lift.next();
    assert_eq!(*lift.lift_state(), LiftState::Moving);

    // One floor per tick; Moving completes precisely at the requested top.
    let climb = [
        FloorState::Floor2nd,
        FloorState::Floor3rd,
        FloorState::Floor4th,
        FloorState::Floor5th,
        FloorState::Floor6th,
        FloorState::Floor7th,
    ];
    for expected in climb {
        lift.next();
        assert_eq!(*lift.floor_state(), expected);
        assert_eq!(*lift.lift_state(), LiftState::Moving);
    }
    lift.next();
    assert_eq!(*lift.floor_state(), FloorState::Floor8th);
    assert_eq!(*lift.lift_state(), LiftState::Chime);

    // The door cycle follows in order.
    lift.next();
    assert_eq!(*lift.lift_state(), LiftState::Arrived);
    lift.next();
    assert_eq!(*lift.lift_state(), LiftState::Opening);
    lift.next();
    assert_eq!(*lift.lift_state(), LiftState::Waiting);
    lift.next();
    assert_eq!(*lift.lift_state(), LiftState::Closing);
}

#[test]
fn arrival_clears_the_request_for_the_floor_reached() {
    let mut lift = idle_at_bottom();
    assert!(lift.set_floor_key(FloorState::Floor2nd, true));
    lift.next(); // Closing -> Checking
    lift.next(); // Checking -> Moving
    lift.next(); // Moving lands on the 2nd floor
    assert_eq!(*lift.floor_state(), FloorState::Floor2nd);
    assert_eq!(*lift.lift_state(), LiftState::Chime);
    assert!(lift.keys()[1]);
    lift.next(); // Chime -> Arrived
    lift.next(); // the Arrived phase runs: the flag is auto-cleared
    assert!(!lift.keys()[1]);
    assert_eq!(*lift.lift_state(), LiftState::Opening);
    assert_eq!(*lift.direction(), Directions::Idle);
}

#[test]
fn scan_serves_an_intermediate_request_before_a_lower_one() {
    let mut lift = idle_at_bottom();
    assert!(lift.set_floor_key(FloorState::Floor8th, true));
    lift.next(); // Closing -> Checking
    lift.next(); // Checking -> Moving
    lift.next(); // now Moving, at the 2nd floor
    assert_eq!(*lift.floor_state(), FloorState::Floor2nd);
    assert_eq!(*lift.lift_state(), LiftState::Moving);

    // A request for the floor just ahead arrives, along with a lower one.
    assert!(lift.set_floor_key(FloorState::Floor3rd, true));
    assert!(lift.set_floor_key(FloorState::Floor1st, true));

    // The car stops at the intermediate floor first...
    lift.next();
    assert_eq!(*lift.floor_state(), FloorState::Floor3rd);
    assert_eq!(*lift.lift_state(), LiftState::Chime);

    // ...and after the door cycle it continues upward, not downward.
    lift.next(); // Chime -> Arrived
    lift.next(); // Arrived -> Opening, direction re-resolved on the board
    assert!(!lift.keys()[2]);
    assert_eq!(*lift.direction(), Directions::Up);
    lift.next(); // Opening -> Waiting
    lift.next(); // Waiting -> Closing
    lift.next(); // Closing -> Checking, still upward
    assert_eq!(*lift.direction(), Directions::Up);
    lift.next(); // Checking -> Moving
    for expected in [
        FloorState::Floor4th,
        FloorState::Floor5th,
        FloorState::Floor6th,
        FloorState::Floor7th,
    ] {
        lift.next();
        assert_eq!(*lift.floor_state(), expected);
        assert_eq!(*lift.lift_state(), LiftState::Moving);
    }
    lift.next();
    assert_eq!(*lift.floor_state(), FloorState::Floor8th);
    assert_eq!(*lift.lift_state(), LiftState::Chime);
}

#[test]
fn direction_reverses_only_when_ahead_is_exhausted() {
    let mut lift = idle_at_bottom();
    assert!(lift.set_floor_key(FloorState::Floor3rd, true));
    // Ride up to the 3rd floor and let the arrival settle the board.
    lift.next(); // Closing -> Checking
    assert_eq!(*lift.direction(), Directions::Up);
    lift.next(); // Checking -> Moving
    lift.next(); // at the 2nd floor, still moving
    lift.next(); // lands on the 3rd floor, Chime
    lift.next(); // Chime -> Arrived
    lift.next(); // Arrived runs: flag cleared, nothing pending anywhere
    assert_eq!(*lift.direction(), Directions::Idle);
    lift.next(); // Opening -> Waiting
    // A request below arrives while the doors stand open.
    assert!(lift.set_floor_key(FloorState::Floor1st, true));
    lift.next(); // Waiting -> Closing
    lift.next(); // Closing re-resolves: only a lower request, so Down
    assert_eq!(*lift.direction(), Directions::Down);
    assert_eq!(*lift.lift_state(), LiftState::Checking);
    lift.next(); // Checking -> Moving
    lift.next(); // down one floor, nothing at the 2nd
    assert_eq!(*lift.floor_state(), FloorState::Floor2nd);
    assert_eq!(*lift.lift_state(), LiftState::Moving);
    lift.next(); // lands on the 1st floor
    assert_eq!(*lift.floor_state(), FloorState::Floor1st);
    assert_eq!(*lift.lift_state(), LiftState::Chime);
}

#[test]
fn stalled_checking_waits_for_a_new_request() {
    let mut lift = idle_at_bottom();
    assert!(lift.set_floor_key(FloorState::Floor4th, true));
    lift.next(); // Closing -> Checking
    assert_eq!(*lift.lift_state(), LiftState::Checking);
    // The request is withdrawn before the car is released.
    assert!(lift.set_floor_key(FloorState::Floor4th, false));
    for _ in 0..3 {
        lift.next();
        assert_eq!(*lift.lift_state(), LiftState::Checking);
        assert_eq!(*lift.direction(), Directions::Idle);
    }
    // A fresh request frees the car on the next tick.
    assert!(lift.set_floor_key(FloorState::Floor2nd, true));
    lift.next();
    assert_eq!(*lift.lift_state(), LiftState::Moving);
    assert_eq!(*lift.direction(), Directions::Up);
}
