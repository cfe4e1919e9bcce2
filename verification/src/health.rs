//! Health of a damageable actor.

use vstd::prelude::*;

verus! {

/// Remaining and full health of an actor, in millionths of a point.
#[derive(Clone, Copy, Debug, PartialEq, Eq, Structural)]
pub struct Health {
    pub current: u64,
    pub max: u64,
}

/// The full health of the game's player: a hundred points.
pub const PLAYER_HEALTH: u64 = 100_000_000;

/// What is left of `current` after losing `damage`, never below zero.
pub open spec fn remaining(current: int, damage: int) -> int {
    if current - damage > 0 {
        current - damage
    } else {
        0
    }
}

impl Health {
    /// Health never exceeds its maximum, and the maximum is positive.
    pub open spec fn wf(&self) -> bool {
        &&& self.max > 0
        &&& self.current <= self.max
    }

    /// This health after a loss of `damage`.
    pub open spec fn after_damage(self, damage: nat) -> Health {
        Health { current: remaining(self.current as int, damage as int) as u64, max: self.max }
    }

    /// A fresh actor at full health.
    pub fn new(max: u64) -> (health: Health)
        requires
            max > 0,
        ensures
            health.current == max,
            health.max == max,
            health.wf(),
    {
        Health { current: max, max }
    }

    /// Takes `damage` away from the current health, stopping at zero.
    pub fn apply_damage(&mut self, damage: u64)
        ensures
            *final(self) == old(self).after_damage(damage as nat),
            final(self).current == remaining(old(self).current as int, damage as int),
            final(self).max == old(self).max,
            old(self).wf() ==> final(self).wf(),
            final(self).is_dead() <==> damage >= old(self).current,
    {
        self.current = self.current.saturating_sub(damage);
    }

    /// Dead is health of exactly zero.
    pub open spec fn spec_is_dead(&self) -> bool {
        self.current == 0
    }

    /// Whether nothing is left.
    #[verifier::when_used_as_spec(spec_is_dead)]
    pub fn is_dead(&self) -> (dead: bool)
        ensures
            dead == (self.current == 0),
    {
        self.current == 0
    }
}

/// Losses add up: two losses one after the other leave what their sum
/// leaves, whichever comes first.
pub proof fn lemma_damage_adds_up(health: Health, first: nat, second: nat)
    ensures
        health.after_damage(first).after_damage(second) == health.after_damage(first + second),
        health.after_damage(first).after_damage(second) == health.after_damage(
            second,
        ).after_damage(first),
{
}

/// Damage keeps health within its bounds, and leaves an actor dead exactly
/// when it takes all that was left.
pub proof fn lemma_damage_keeps_health_well_formed(health: Health, damage: nat)
    requires
        health.wf(),
    ensures
        health.after_damage(damage).wf(),
        health.after_damage(damage).current <= health.current,
        health.after_damage(damage).is_dead() <==> damage >= health.current,
{
}

} // verus!
