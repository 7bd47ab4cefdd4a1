//! Health counters of the player and the enemy.
use vstd::prelude::*;

verus! {

/// Health that player and enemy start with.
pub const STARTING_HEALTH: usize = 100;

/// Highest health that player and enemy can have.
pub const MAX_HEALTH: usize = 125;

/// A health counter that never exceeds its maximum.
#[derive(Clone, Copy, Debug, PartialEq, Eq)]
pub struct Health {
    current: usize,
    max: usize,
}

impl Health {
    #[verifier::type_invariant]
    spec fn within_max(self) -> bool {
        self.current <= self.max
    }

    /// The current health.
    pub closed spec fn current_spec(self) -> nat {
        self.current as nat
    }

    /// The maximum health.
    pub closed spec fn max_spec(self) -> nat {
        self.max as nat
    }

    /// A counter at `current` out of `max`.
    pub fn new(current: usize, max: usize) -> (r: Health)
        requires
            current <= max,
        ensures
            r.current_spec() == current,
            r.max_spec() == max,
    {
        Health { current, max }
    }

    /// The health that player and enemy start with.
    pub fn starting() -> (r: Health)
        ensures
            r.current_spec() == STARTING_HEALTH,
            r.max_spec() == MAX_HEALTH,
    {
        Health::new(STARTING_HEALTH, MAX_HEALTH)
    }

    /// The current health, never above the maximum.
    pub fn current(&self) -> (r: usize)
        ensures
            r == self.current_spec(),
            r <= self.max_spec(),
    {
        proof {
            use_type_invariant(self);
        }
        self.current
    }

    /// The maximum health.
    pub fn max(&self) -> (r: usize)
        ensures
            r == self.max_spec(),
            self.current_spec() <= r,
    {
        proof {
            use_type_invariant(self);
        }
        self.max
    }
}

} // verus!
