//! A verified elevator-car dispatch core.
//!
//! One car serves a fixed column of eight floors. A request board keeps one
//! pending-call flag per floor, a scan policy resolves the travel direction,
//! and a cyclic phase machine drives the chime / door / movement cycle one
//! tick at a time. The caller owns all timing: each external `next` call
//! advances the machine by exactly one tick.

pub mod lift;
pub mod laws;
