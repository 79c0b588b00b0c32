//! Deterministic, tick-driven 2D combat simulator core.
//!
//! The library owns the discrete rules of the simulation: the scenario
//! registry and its victory evaluators, the orders waypoint codec, weapon
//! cycle timers, the missile-test driver state machine, and the snapshot
//! byte codec. Floating-point physics and the host shell live outside.

pub mod missile_test;
pub mod orders;
pub mod radar;
pub mod rng;
pub mod schedule;
pub mod scenario;
pub mod ship;
pub mod snapshot;
pub mod victory;
pub mod weapons;

use vstd::prelude::*;

verus! {

/// Hard cap on the number of ticks in one match.
pub const MAX_TICKS: u32 = 10000;

} // verus!
