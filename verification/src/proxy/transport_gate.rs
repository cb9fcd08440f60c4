//! The last check before a bot action is written upstream, and the movement fence.
use vstd::prelude::*;
use crate::domain::{SendableAction, is_locomotion};
use crate::ids::{MovementEpoch, WorkerGeneration, next_counter};
use crate::proxy::ownership::{ClientKind, OwnershipSnapshot, snapshot_permits};

verus! {

/// Why an action is not admitted.
#[derive(Clone, Copy, Debug, Eq, PartialEq, Structural)]
pub enum GateRejection {
    StaleWorker,
    StaleOwnership,
    StaleMovement,
    SourceNotPermitted,
}

/// Whether an action is admitted, and if not, why.
pub open spec fn gate_verdict(action: SendableAction, current_worker: WorkerGeneration, owner: OwnershipSnapshot) -> Result<(), GateRejection> {
    if action.stamp.worker != current_worker {
        Err(GateRejection::StaleWorker)
    } else if action.stamp.ownership != owner.generation {
        Err(GateRejection::StaleOwnership)
    } else if !snapshot_permits(owner, ClientKind::Bot) {
        Err(GateRejection::SourceNotPermitted)
    } else if is_locomotion(action.command) && action.stamp.movement != owner.movement_epoch {
        Err(GateRejection::StaleMovement)
    } else {
        Ok(())
    }
}

/// Admits a bot action only if it was planned by the current worker against the
/// current ownership generation, the bot may act, and locomotion carries the current
/// movement epoch.
pub fn authorize(action: &SendableAction, current_worker: WorkerGeneration, owner: OwnershipSnapshot) -> (r: Result<(), GateRejection>)
    ensures
        r == gate_verdict(*action, current_worker, owner),
{
    let stamp = action.stamp;
    if stamp.worker != current_worker {
        return Err(GateRejection::StaleWorker);
    }
    if stamp.ownership != owner.generation {
        return Err(GateRejection::StaleOwnership);
    }
    if !owner.permits(ClientKind::Bot) {
        return Err(GateRejection::SourceNotPermitted);
    }
    if action.command.locomotion() && stamp.movement != owner.movement_epoch {
        return Err(GateRejection::StaleMovement);
    }
    Ok(())
}

/// An admitted action always matches the current worker and ownership generation,
/// and the snapshot lets the bot act.
pub proof fn law_gate_admits_only_current_actions(action: SendableAction, worker: WorkerGeneration, owner: OwnershipSnapshot)
    requires
        gate_verdict(action, worker, owner) is Ok,
    ensures
        action.stamp.worker == worker,
        action.stamp.ownership == owner.generation,
        snapshot_permits(owner, ClientKind::Bot),
        is_locomotion(action.command) ==> action.stamp.movement == owner.movement_epoch,
{
}

/// The current movement epoch of a mover.
#[derive(Clone, Copy, Debug)]
pub struct MovementFence {
    epoch: MovementEpoch,
}

impl MovementFence {
    /// The epoch currently accepted.
    pub closed spec fn epoch(&self) -> MovementEpoch {
        self.epoch
    }

    /// A fence accepting `epoch`.
    pub fn new(epoch: MovementEpoch) -> (r: Self)
        ensures
            r.epoch() == epoch,
    {
        MovementFence { epoch }
    }

    /// The epoch currently accepted.
    pub fn current(&self) -> (r: MovementEpoch)
        ensures
            r == self.epoch(),
    {
        self.epoch
    }

    /// Moves to the next epoch and returns it.
    pub fn advance(&mut self) -> (r: MovementEpoch)
        ensures
            r.0 == next_counter(old(self).epoch().0),
            final(self).epoch() == r,
    {
        self.epoch = self.epoch.next();
        self.epoch
    }

    /// Whether movement stamped with `e` is current.
    pub fn accepts(&self, e: MovementEpoch) -> (r: bool)
        ensures
            r == (e == self.epoch()),
    {
        e.0 == self.epoch.0
    }
}

} // verus!
