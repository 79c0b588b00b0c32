//! The missile-test driver: a state machine that runs several
//! sub-iterations of one missile chasing one evading target.
//!
//! Each iteration gets its own derived seed. The driver restarts the
//! world when the target dies, tells the host when the target is due for
//! a fresh randomized maneuver (once per second), and fails an iteration
//! that outlives its tick budget.

use vstd::prelude::*;

use crate::victory::Status;

verus! {

/// Number of sub-iterations one missile test runs.
pub const MISSILE_TEST_ITERATIONS: u32 = 10;

/// Tick budget of one sub-iteration.
pub const MISSILE_TEST_TICK_LIMIT: u32 = 2000;

/// Status of the missile test as a function of its state: an iteration
/// over budget fails the whole test; the test runs while the target
/// lives or iterations are left; once the last target is down, team 0
/// has won.
pub open spec fn missile_test_status(st: MissileTestState, target_alive: bool) -> Status {
    if st.tick_in_iteration > MISSILE_TEST_TICK_LIMIT {
        Status::Failed
    } else if target_alive || st.iteration < MISSILE_TEST_ITERATIONS {
        Status::Running
    } else {
        Status::Victory { team: 0 }
    }
}

/// Progress of the missile test across its sub-iterations.
#[derive(Clone, Copy, PartialEq, Eq, Structural, Debug)]
pub struct MissileTestState {
    /// Index of the running sub-iteration.
    pub iteration: u32,
    /// Ticks spent inside the running sub-iteration.
    pub tick_in_iteration: u32,
}

/// What the host must do for one driver tick.
#[derive(Clone, Copy, PartialEq, Eq, Structural, Debug)]
pub enum MissileTestAction {
    /// The target died: drain leftover bullets and rebuild the world for
    /// the next iteration.
    Restart,
    /// Push the target with a freshly randomized full-throttle maneuver.
    FreshManeuver,
    /// Keep pushing the target with the maneuver already in force.
    HoldManeuver,
    /// All iterations are over: nothing to drive.
    Idle,
}

impl MissileTestState {
    /// The driver starts at the first iteration.
    pub fn new() -> (s: Self)
        ensures
            s.iteration == 0,
            s.tick_in_iteration == 0,
    {
        MissileTestState { iteration: 0, tick_in_iteration: 0 }
    }

    /// One driver tick. While the target lives, the driver renews its
    /// maneuver once per second (every 60 ticks) and otherwise holds it;
    /// when the target dies with iterations left, the driver advances to
    /// the next iteration and asks for a restart.
    pub fn step(&mut self, target_alive: bool) -> (a: MissileTestAction)
        requires
            old(self).tick_in_iteration < u32::MAX,
            old(self).iteration <= MISSILE_TEST_ITERATIONS,
        ensures
            final(self).iteration <= MISSILE_TEST_ITERATIONS,
            !target_alive && old(self).iteration < MISSILE_TEST_ITERATIONS ==> a
                == MissileTestAction::Restart && final(self).iteration == old(self).iteration + 1
                && final(self).tick_in_iteration == 1,
            target_alive ==> final(self).iteration == old(self).iteration
                && final(self).tick_in_iteration == old(self).tick_in_iteration + 1
                && a == (if old(self).tick_in_iteration % 60 == 0 {
                    MissileTestAction::FreshManeuver
                } else {
                    MissileTestAction::HoldManeuver
                }),
            !target_alive && old(self).iteration >= MISSILE_TEST_ITERATIONS ==> a
                == MissileTestAction::Idle && final(self).iteration == old(self).iteration
                && final(self).tick_in_iteration == old(self).tick_in_iteration + 1,
    {
        let a: MissileTestAction = if !target_alive && self.iteration < MISSILE_TEST_ITERATIONS {
            self.iteration = self.iteration + 1;
            self.tick_in_iteration = 0;
            MissileTestAction::Restart
        } else if target_alive {
            if self.tick_in_iteration % 60 == 0 {
                MissileTestAction::FreshManeuver
            } else {
                MissileTestAction::HoldManeuver
            }
        } else {
            MissileTestAction::Idle
        };
        self.tick_in_iteration = self.tick_in_iteration + 1;
        a
    }

    /// Status of the missile test; see `missile_test_status`.
    pub fn status(&self, target_alive: bool) -> (r: Status)
        ensures
            r == missile_test_status(*self, target_alive),
    {
        if self.tick_in_iteration > MISSILE_TEST_TICK_LIMIT {
            Status::Failed
        } else if target_alive || self.iteration < MISSILE_TEST_ITERATIONS {
            Status::Running
        } else {
            Status::Victory { team: 0 }
        }
    }
}

/// The seed of one sub-iteration, derived from the match seed so that
/// every iteration of every match seed gets a reproducible stream of its
/// own.
pub fn iteration_seed(seed: u32, iteration: u32) -> (r: u32)
    requires
        iteration <= MISSILE_TEST_ITERATIONS,
    ensures
        r == (seed % 1000) * 1000 + iteration,
{
    (seed % 1000) * 1000 + iteration
}

} // verus!
