//! Ship classes and the plain-value summary of a ship that the victory
//! evaluators read.

use vstd::prelude::*;

verus! {

/// The physical/weapon archetype of a ship.
#[derive(Clone, Copy, PartialEq, Eq, Structural, Debug)]
pub enum ShipClass {
    Fighter,
    Frigate,
    Cruiser,
    Missile,
    Torpedo,
    Target,
    Asteroid,
}

/// What a victory evaluator reads of one live ship: its team and class.
/// Health enters only through liveness (dead ships are garbage-collected
/// before status is evaluated), but is carried for the snapshot stream.
#[derive(Clone, Copy, PartialEq, Eq, Structural, Debug)]
pub struct ShipSummary {
    pub team: i32,
    pub class: ShipClass,
    pub health: u32,
}

} // verus!
