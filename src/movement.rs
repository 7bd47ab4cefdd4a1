//! Turning the arrow keys held during a frame into a movement step.
use vstd::prelude::*;

verus! {

/// The arrow keys held down during one frame.
#[derive(Clone, Copy, Debug, PartialEq, Eq, Structural)]
pub struct HeldKeys {
    pub up: bool,
    pub down: bool,
    pub left: bool,
    pub right: bool,
}

/// A movement step in grid axes, each component in -1, 0 or 1. The
/// caller scales it by the player's speed and the frame time.
#[derive(Clone, Copy, Debug, PartialEq, Eq, Structural)]
pub struct Step {
    /// Horizontal component: 1 moves right, -1 moves left.
    pub di: i8,
    /// Vertical component: 1 moves up, -1 moves down.
    pub dj: i8,
}

/// 1 when the key is held, 0 otherwise.
pub open spec fn key_value(held: bool) -> int {
    if held {
        1
    } else {
        0
    }
}

/// Each pair of opposite keys pulls its axis both ways; a pair held
/// together cancels out.
pub open spec fn step_of(keys: HeldKeys) -> (int, int) {
    (
        key_value(keys.right) - key_value(keys.left),
        key_value(keys.up) - key_value(keys.down),
    )
}

fn key_unit(held: bool) -> (r: i8)
    ensures
        r == key_value(held),
{
    if held {
        1
    } else {
        0
    }
}

/// The step that the held keys ask for.
pub fn step_for_keys(keys: HeldKeys) -> (r: Step)
    ensures
        (r.di as int, r.dj as int) == step_of(keys),
        -1 <= r.di <= 1,
        -1 <= r.dj <= 1,
{
    Step {
        di: key_unit(keys.right) - key_unit(keys.left),
        dj: key_unit(keys.up) - key_unit(keys.down),
    }
}

} // verus!
