//! How the arena answers contacts between the player and the colliders:
//! every contact raises a collision event, and a wall that is touched is
//! removed.
use vstd::prelude::*;

verus! {

/// What one frame's overlap test found for one collider.
#[derive(Clone, Copy, Debug, PartialEq, Eq, Structural)]
pub struct Contact {
    /// The collider's box overlaps the player's box.
    pub touching: bool,
    /// The collider is a wall tile.
    pub is_wall: bool,
}

/// The answer to one frame's contacts.
#[derive(Debug)]
pub struct CollisionOutcome {
    /// Number of collision events to raise.
    pub events: usize,
    /// Positions, among the contacts, of the colliders to remove, in order.
    pub despawn: Vec<usize>,
}

/// A wall that the player touches is removed.
pub open spec fn is_removed(c: Contact) -> bool {
    c.touching && c.is_wall
}

/// Number of contacts in which the player touches the collider.
pub open spec fn touch_count(s: Seq<Contact>) -> nat
    decreases s.len(),
{
    if s.len() == 0 {
        0
    } else {
        touch_count(s.drop_last()) + if s.last().touching {
            1nat
        } else {
            0nat
        }
    }
}

/// Positions of the removed colliders, in increasing order.
pub open spec fn removed_positions(s: Seq<Contact>) -> Seq<usize>
    decreases s.len(),
{
    if s.len() == 0 {
        Seq::empty()
    } else if is_removed(s.last()) {
        removed_positions(s.drop_last()).push((s.len() - 1) as usize)
    } else {
        removed_positions(s.drop_last())
    }
}

/// Answers the contacts found for the colliders of one frame, given in
/// the order in which they were tested.
pub fn resolve_collisions(contacts: &Vec<Contact>) -> (r: CollisionOutcome)
    ensures
        r.events == touch_count(contacts@),
        r.despawn@ == removed_positions(contacts@),
        forall|n: int|
            0 <= n < r.despawn@.len() ==> #[trigger] r.despawn@[n] < contacts@.len()
                && is_removed(contacts@[r.despawn@[n] as int]),
{
    let mut events: usize = 0;
    let mut despawn: Vec<usize> = Vec::new();
    let mut k: usize = 0;
    while k < contacts.len()
        invariant
            k <= contacts@.len(),
            events <= k,
            events == touch_count(contacts@.subrange(0, k as int)),
            despawn@ == removed_positions(contacts@.subrange(0, k as int)),
            forall|n: int|
                0 <= n < despawn@.len() ==> #[trigger] despawn@[n] < k && is_removed(
                    contacts@[despawn@[n] as int],
                ),
        decreases contacts@.len() - k,
    {
        let c = contacts[k];
        assert(contacts@.subrange(0, k + 1).drop_last() =~= contacts@.subrange(0, k as int));
        if c.touching {
            events = events + 1;
        }
        if c.touching && c.is_wall {
            despawn.push(k);
        }
        k = k + 1;
    }
    assert(contacts@.subrange(0, k as int) =~= contacts@);
    CollisionOutcome { events, despawn }
}

} // verus!
