//! Identifier and counter types shared by the proxy, the state model and the supervisor.
use vstd::prelude::*;

verus! {

/// Opaque identifier of an in-game entity (its full 64-bit GUID).
#[derive(Clone, Copy, Debug, PartialEq, Eq, Structural)]
pub struct EntityId(pub u64);

/// Generation of the account-ownership state; a new generation fences stale tickets.
#[derive(Clone, Copy, Debug, PartialEq, Eq, Structural)]
pub struct OwnershipGeneration(pub u64);

/// Epoch of authorised bot locomotion; movement stamped with an older epoch is stale.
#[derive(Clone, Copy, Debug, PartialEq, Eq, Structural)]
pub struct MovementEpoch(pub u64);

/// Generation of the worker process serving a lane.
#[derive(Clone, Copy, Debug, PartialEq, Eq, Structural)]
pub struct WorkerGeneration(pub u64);

/// Identifier of a supervised lane.
#[derive(Clone, Copy, Debug, PartialEq, Eq, Structural)]
pub struct LaneId(pub u64);

/// Identifier of a configured account.
#[derive(Clone, Copy, Debug, PartialEq, Eq, Structural)]
pub struct AccountId(pub u64);

/// Identifier of a bot mission.
#[derive(Clone, Copy, Debug, PartialEq, Eq, Structural)]
pub struct MissionId(pub u64);

/// Identifier of a planned action.
#[derive(Clone, Copy, Debug, PartialEq, Eq, Structural)]
pub struct ActionId(pub u64);

/// Revision of the authoritative state.
#[derive(Clone, Copy, Debug, PartialEq, Eq, Structural)]
pub struct StateRevision(pub u64);

/// The successor of a counter value; counters wrap at the end of the 64-bit range.
pub open spec fn next_counter(v: u64) -> u64 {
    if v == u64::MAX { 0 } else { (v + 1) as u64 }
}

/// The successor of a counter value.
pub fn next_counter_exec(v: u64) -> (r: u64)
    ensures
        r == next_counter(v),
{
    if v == u64::MAX { 0 } else { v + 1 }
}

impl OwnershipGeneration {
    /// The first generation.
    pub fn zero() -> (r: Self)
        ensures
            r.0 == 0,
    {
        OwnershipGeneration(0)
    }

    /// The next generation.
    pub fn next(self) -> (r: Self)
        ensures
            r.0 == next_counter(self.0),
    {
        OwnershipGeneration(next_counter_exec(self.0))
    }
}

impl MovementEpoch {
    /// The next epoch.
    pub fn next(self) -> (r: Self)
        ensures
            r.0 == next_counter(self.0),
    {
        MovementEpoch(next_counter_exec(self.0))
    }
}

impl WorkerGeneration {
    /// The next worker generation.
    pub fn next(self) -> (r: Self)
        ensures
            r.0 == next_counter(self.0),
    {
        WorkerGeneration(next_counter_exec(self.0))
    }
}

impl StateRevision {
    /// The next state revision.
    pub fn next(self) -> (r: Self)
        ensures
            r.0 == next_counter(self.0),
    {
        StateRevision(next_counter_exec(self.0))
    }
}

/// The successor of a counter is never the counter itself.
pub proof fn lemma_next_counter_differs(v: u64)
    ensures
        next_counter(v) != v,
{
}

} // verus!
