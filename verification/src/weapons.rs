//! Weapon cycle timers.
//!
//! Guns and missile launchers share one cycle rule: a weapon fires only
//! when its timer is at zero, firing rearms the timer to the full cycle,
//! and the timer counts down by one each tick, stopping at zero.

use vstd::prelude::*;

verus! {

/// One weapon's firing cycle, measured in whole simulation ticks.
#[derive(Clone, Copy, PartialEq, Eq, Structural, Debug)]
pub struct WeaponCycle {
    /// Ticks between two shots.
    pub cycle_ticks: u32,
    /// Ticks left until the weapon may fire again.
    pub ticks_remaining: u32,
}

/// The timer after one tick of cooldown.
pub open spec fn cooled(g: WeaponCycle) -> WeaponCycle {
    WeaponCycle {
        cycle_ticks: g.cycle_ticks,
        ticks_remaining: if g.ticks_remaining > 0 {
            (g.ticks_remaining - 1) as u32
        } else {
            0
        },
    }
}

/// The timer after `n` ticks of cooldown.
pub open spec fn cooled_n(g: WeaponCycle, n: nat) -> WeaponCycle
    decreases n,
{
    if n == 0 {
        g
    } else {
        cooled(cooled_n(g, (n - 1) as nat))
    }
}

impl WeaponCycle {
    /// Whether the weapon may fire this tick.
    pub open spec fn is_ready(self) -> bool {
        self.ticks_remaining == 0
    }

    /// A fresh weapon is ready at once.
    pub fn new(cycle_ticks: u32) -> (g: Self)
        ensures
            g.cycle_ticks == cycle_ticks,
            g.is_ready(),
    {
        WeaponCycle { cycle_ticks, ticks_remaining: 0 }
    }

    /// Whether the weapon may fire this tick.
    pub fn ready(&self) -> (b: bool)
        ensures
            b == self.is_ready(),
    {
        self.ticks_remaining == 0
    }

    /// One tick of cooldown: the timer counts down to zero and stays
    /// there.
    pub fn tick(&mut self)
        ensures
            *final(self) == cooled(*old(self)),
    {
        if self.ticks_remaining > 0 {
            self.ticks_remaining = self.ticks_remaining - 1;
        }
    }

    /// Attempt to fire. Succeeds exactly when the timer is at zero, and
    /// then rearms the timer to the full cycle; otherwise the weapon is
    /// left untouched.
    pub fn try_fire(&mut self) -> (fired: bool)
        ensures
            fired == old(self).is_ready(),
            fired ==> *final(self) == (WeaponCycle {
                cycle_ticks: old(self).cycle_ticks,
                ticks_remaining: old(self).cycle_ticks,
            }),
            !fired ==> *final(self) == *old(self),
    {
        if self.ticks_remaining == 0 {
            self.ticks_remaining = self.cycle_ticks;
            true
        } else {
            false
        }
    }
}

/// Cooling for `n` ticks takes the timer down by exactly `n`, stopping at
/// zero, and never touches the cycle length.
pub proof fn lemma_cooldown_countdown(g: WeaponCycle, n: nat)
    ensures
        cooled_n(g, n).cycle_ticks == g.cycle_ticks,
        cooled_n(g, n).ticks_remaining == if n <= g.ticks_remaining {
            g.ticks_remaining - n
        } else {
            0
        },
    decreases n,
{
    if n > 0 {
        lemma_cooldown_countdown(g, (n - 1) as nat);
    }
}

/// The gun-cycle law: once a weapon has fired, it cannot fire again until
/// at least its full cycle of ticks has passed.
pub proof fn lemma_cycle_between_fires(g: WeaponCycle, n: nat)
    requires
        g.ticks_remaining == g.cycle_ticks,
        n < g.cycle_ticks,
    ensures
        !cooled_n(g, n).is_ready(),
{
    lemma_cooldown_countdown(g, n);
}

} // verus!
