//! Barriers of the player/bot handoff.
use vstd::prelude::*;

verus! {

/// What a handoff waits for.
#[derive(Clone, Copy, Debug, PartialEq, Eq, Structural)]
pub struct HandoffBarrier {
    pub worker_quiesced: bool,
    pub ownership_committed: bool,
    pub movement_stopped: bool,
    pub upstream_ready: bool,
}

impl HandoffBarrier {
    /// Nothing reached yet.
    pub fn default() -> (r: Self)
        ensures
            !r.worker_quiesced && !r.ownership_committed && !r.movement_stopped && !r.upstream_ready,
    {
        HandoffBarrier { worker_quiesced: false, ownership_committed: false, movement_stopped: false, upstream_ready: false }
    }

    /// The player may take over once the worker is quiet and ownership is committed.
    pub fn takeover_ready(self) -> (r: bool)
        ensures
            r == (self.worker_quiesced && self.ownership_committed),
    {
        self.worker_quiesced && self.ownership_committed
    }

    /// The bot may resume once, in addition, movement has stopped and upstream is ready.
    pub fn resume_ready(self) -> (r: bool)
        ensures
            r == (self.worker_quiesced && self.ownership_committed && self.movement_stopped && self.upstream_ready),
    {
        self.worker_quiesced && self.ownership_committed && self.movement_stopped && self.upstream_ready
    }
}

/// Whenever the bot may resume, the player could have taken over.
pub proof fn law_resume_implies_takeover(b: HandoffBarrier)
    ensures
        (b.worker_quiesced && b.ownership_committed && b.movement_stopped && b.upstream_ready)
            ==> (b.worker_quiesced && b.ownership_committed),
{
}

} // verus!
