//! The lane supervisor: startup checks and order, worker heartbeats, restart policy,
//! worker leases and the lane registry.
use vstd::prelude::*;
use std::collections::BTreeMap;
use crate::ids::{LaneId, WorkerGeneration, next_counter, next_counter_exec};

verus! {

broadcast use vstd::std_specs::btree::group_btree_axioms;

/// The checks that must pass before lanes start.
#[derive(Clone, Copy, Debug, PartialEq, Eq, Structural)]
pub struct StartupGate {
    pub config_valid: bool,
    pub runtime_data_valid: bool,
    pub private_paths_valid: bool,
    pub supervisor_control_ready: bool,
}

/// The first startup check that failed.
#[derive(Clone, Copy, Debug, PartialEq, Eq, Structural)]
pub enum StartupError {
    InvalidConfig,
    InvalidRuntimeData,
    InvalidPrivatePaths,
    SupervisorControlNotReady,
}

impl StartupError {
    /// The error as text.
    pub fn message(&self) -> (r: &'static str)
        ensures
            r@ == (match *self {
                StartupError::InvalidConfig => "configuration validation failed"@,
                StartupError::InvalidRuntimeData => "runtime data validation failed"@,
                StartupError::InvalidPrivatePaths => "private path validation failed"@,
                StartupError::SupervisorControlNotReady => "supervisor control is not established"@,
            }),
    {
        match self {
            StartupError::InvalidConfig => "configuration validation failed",
            StartupError::InvalidRuntimeData => "runtime data validation failed",
            StartupError::InvalidPrivatePaths => "private path validation failed",
            StartupError::SupervisorControlNotReady => "supervisor control is not established",
        }
    }
}

impl StartupGate {
    /// Ready where every check passed; otherwise the first failed check, in the order
    /// configuration, runtime data, private paths, supervisor control.
    pub fn ready(&self) -> (r: Result<(), StartupError>)
        ensures
            r == (if !self.config_valid {
                Err(StartupError::InvalidConfig)
            } else if !self.runtime_data_valid {
                Err(StartupError::InvalidRuntimeData)
            } else if !self.private_paths_valid {
                Err(StartupError::InvalidPrivatePaths)
            } else if !self.supervisor_control_ready {
                Err(StartupError::SupervisorControlNotReady)
            } else {
                Ok(())
            }),
    {
        if !self.config_valid {
            return Err(StartupError::InvalidConfig);
        }
        if !self.runtime_data_valid {
            return Err(StartupError::InvalidRuntimeData);
        }
        if !self.private_paths_valid {
            return Err(StartupError::InvalidPrivatePaths);
        }
        if !self.supervisor_control_ready {
            return Err(StartupError::SupervisorControlNotReady);
        }
        Ok(())
    }
}

/// Whether lanes are in ascending order of their identifiers.
pub open spec fn lanes_sorted(s: Seq<LaneId>) -> bool {
    forall|i: int, j: int| 0 <= i < j < s.len() ==> (#[trigger] s[i]).0 <= (#[trigger] s[j]).0
}

/// The order in which lanes start: ascending by identifier.
pub fn startup_order(lanes: Vec<LaneId>) -> (r: Vec<LaneId>)
    ensures
        lanes_sorted(r@),
        r@.to_multiset() == lanes@.to_multiset(),
{
    let mut v = lanes;
    let n = v.len();
    let mut i: usize = 1;
    if n == 0 {
        return v;
    }
    while i < n
        invariant
            1 <= i <= n,
            n == v@.len(),
            forall|a: int, b: int| 0 <= a < b < i ==> (#[trigger] v@[a]).0 <= (#[trigger] v@[b]).0,
            v@.to_multiset() == lanes@.to_multiset(),
        decreases n - i,
    {
        let mut j = i;
        while j > 0 && v[j - 1].0 > v[j].0
            invariant
                0 <= j <= i < n,
                n == v@.len(),
                v@.to_multiset() == lanes@.to_multiset(),
                forall|a: int, b: int| 0 <= a < b <= i && a != j && b != j ==> (#[trigger] v@[a]).0 <= (#[trigger] v@[b]).0,
                forall|b: int| j < b <= i ==> v@[j as int].0 < (#[trigger] v@[b]).0,
            decreases j,
        {
            let x = v[j - 1];
            let y = v[j];
            let ghost before = v@;
            v.set(j - 1, y);
            v.set(j, x);
            proof {
                assert(v@ =~= before.update(j - 1, y).update(j as int, x));
                swap_keeps_multiset(before, j - 1, j as int);
            }
            j = j - 1;
        }
        proof {
            assert forall|a: int, b: int| 0 <= a < b < i + 1 implies (#[trigger] v@[a]).0 <= (#[trigger] v@[b]).0 by {
                if a != j && b != j {
                } else if b == j {
                    if a < j - 1 {
                        assert(v@[a].0 <= v@[j - 1].0);
                    }
                } else {
                    assert(v@[j as int].0 < v@[b].0);
                }
            }
        }
        i = i + 1;
    }
    proof {
        assert forall|a: int, b: int| 0 <= a < b < v@.len() implies (#[trigger] v@[a]).0 <= (#[trigger] v@[b]).0 by {}
    }
    assert(v@.subrange(0, n as int) =~= v@);
    v
}

proof fn swap_keeps_multiset(s: Seq<LaneId>, a: int, b: int)
    requires
        0 <= a < b < s.len(),
    ensures
        s.update(a, s[b]).update(b, s[a]).to_multiset() == s.to_multiset(),
{
    let t = s.update(a, s[b]);
    broadcast use vstd::multiset::group_multiset_properties;
    vstd::seq_lib::to_multiset_update(s, a, s[b]);
    vstd::seq_lib::to_multiset_update(t, b, s[a]);
    assert(t[b] == s[b]);
    broadcast use vstd::multiset::group_multiset_axioms;
    let m = s.to_multiset();
    vstd::seq_lib::to_multiset_contains(s, s[a]);
    assert(s.contains(s[a])) by {
        assert(s[a] == s[a]);
    }
    assert(m.count(s[a]) > 0);
    assert forall|v: LaneId| #[trigger] m.insert(s[b]).remove(s[a]).insert(s[a]).remove(s[b]).count(v) == m.count(v) by {
    }
    assert(m.insert(s[b]).remove(s[a]).insert(s[a]).remove(s[b]) =~= m);
}

/// The last heartbeat of a worker and how long it may stay silent, in milliseconds.
#[derive(Clone, Copy, Debug, PartialEq, Eq, Structural)]
pub struct Heartbeat {
    pub last_ms: u64,
    pub timeout_ms: u64,
}

/// Why a worker ended or is considered failed.
#[derive(Clone, Debug, PartialEq, Eq)]
pub enum WorkerFailure {
    ExpectedTakeover,
    Cancelled,
    Protocol(String),
    Io(String),
    StartupTimeout,
    LoginTimeout,
    ProcessExit(Option<i32>),
}

/// Whether a worker that last beat at `last` is healthy at `now`: the time since (zero if
/// the clock reads earlier) is within the timeout.
pub open spec fn heartbeat_healthy(h: Heartbeat, now: u64) -> bool {
    (if now >= h.last_ms { now - h.last_ms } else { 0 }) <= h.timeout_ms
}

impl Heartbeat {
    /// Whether the worker is healthy at `now_ms`.
    pub fn healthy(&self, now_ms: u64) -> (r: bool)
        ensures
            r == heartbeat_healthy(*self, now_ms),
    {
        now_ms.saturating_sub(self.last_ms) <= self.timeout_ms
    }

    /// The failure of a worker that missed its heartbeat: a login timeout; none while
    /// healthy.
    pub fn classify(&self, now_ms: u64) -> (r: Option<WorkerFailure>)
        ensures
            r == (if heartbeat_healthy(*self, now_ms) { None } else { Some(WorkerFailure::LoginTimeout) }),
    {
        if self.healthy(now_ms) { None } else { Some(WorkerFailure::LoginTimeout) }
    }
}

/// How often and how fast a failed worker is restarted.
#[derive(Clone, Copy, Debug, PartialEq, Eq, Structural)]
pub struct RestartPolicy {
    pub max_restarts: u32,
    pub base_backoff_ms: u64,
}

impl RestartPolicy {
    /// Ten restarts, backing off from half a second.
    pub fn default() -> (r: Self)
        ensures
            r.max_restarts == 10,
            r.base_backoff_ms == 500,
    {
        RestartPolicy { max_restarts: 10, base_backoff_ms: 500 }
    }
}

/// The lane and worker generation a worker was started for.
#[derive(Clone, Copy, Debug, PartialEq, Eq, Structural)]
pub struct WorkerLease {
    pub lane: LaneId,
    pub generation: WorkerGeneration,
}

impl WorkerLease {
    /// Whether the lease is for this lane and generation.
    pub fn is_current(&self, lane: LaneId, generation: WorkerGeneration) -> (r: bool)
        ensures
            r == (self.lane == lane && self.generation == generation),
    {
        self.lane.0 == lane.0 && self.generation.0 == generation.0
    }
}

/// Where a lane is in its life.
#[derive(Clone, Copy, Debug, PartialEq, Eq, Structural)]
pub enum LaneStatus {
    Stopped,
    Starting,
    Ready,
    Failed,
    Stopping,
}

/// What the supervisor knows of a lane. `pause` holds the pause reasons as bits.
#[derive(Clone, Copy, Debug, PartialEq, Eq, Structural)]
pub struct LaneRecord {
    pub generation: WorkerGeneration,
    pub status: LaneStatus,
    pub restarts: u32,
    pub pause: u32,
}

/// The lanes by identifier.
#[derive(Clone, Debug)]
pub struct LaneRegistry {
    pub lanes: BTreeMap<u64, LaneRecord>,
}

/// The generation for a lane's next worker: 1 for an unknown lane, else the successor of
/// its current generation.
pub open spec fn next_generation_of(lanes: Map<u64, LaneRecord>, l: LaneId) -> WorkerGeneration {
    if lanes.contains_key(l.0) { WorkerGeneration(next_counter(lanes[l.0].generation.0)) } else { WorkerGeneration(1) }
}

impl LaneRegistry {
    /// No lanes.
    pub fn new() -> (r: Self)
        ensures
            r.lanes@ == Map::<u64, LaneRecord>::empty(),
    {
        LaneRegistry { lanes: BTreeMap::new() }
    }

    /// The record of a lane.
    pub fn get(&self, l: LaneId) -> (r: Option<LaneRecord>)
        ensures
            r == (if self.lanes@.contains_key(l.0) { Some(self.lanes@[l.0]) } else { None::<LaneRecord> }),
    {
        match self.lanes.get(&l.0) {
            Some(r) => Some(*r),
            None => None,
        }
    }

    /// Set the record of a lane.
    pub fn set(&mut self, l: LaneId, r: LaneRecord)
        ensures
            final(self).lanes@ == old(self).lanes@.insert(l.0, r),
    {
        self.lanes.insert(l.0, r);
    }

    /// The generation for the lane's next worker.
    pub fn next_generation(&self, l: LaneId) -> (r: WorkerGeneration)
        ensures
            r == next_generation_of(self.lanes@, l),
    {
        match self.lanes.get(&l.0) {
            Some(r) => WorkerGeneration(next_counter_exec(r.generation.0)),
            None => WorkerGeneration(1),
        }
    }

    /// Change a lane's record only where its worker generation is still `g`; gives whether
    /// it changed. `f` computes the new record from the current one.
    pub fn update_if_current<F: FnOnce(LaneRecord) -> LaneRecord>(&mut self, l: LaneId, g: WorkerGeneration, f: F) -> (r: bool)
        requires
            forall|x: LaneRecord| f.requires((x,)),
        ensures
            r == (old(self).lanes@.contains_key(l.0) && old(self).lanes@[l.0].generation == g),
            r ==> final(self).lanes@.remove(l.0) == old(self).lanes@.remove(l.0) && final(self).lanes@.contains_key(l.0)
                && f.ensures((old(self).lanes@[l.0],), final(self).lanes@[l.0]),
            !r ==> final(self).lanes@ == old(self).lanes@,
    {
        let current = match self.lanes.get(&l.0) {
            Some(r) => *r,
            None => return false,
        };
        if current.generation.0 != g.0 {
            return false;
        }
        let updated = f(current);
        self.lanes.insert(l.0, updated);
        assert(self.lanes@.remove(l.0) =~= old(self).lanes@.remove(l.0));
        true
    }
}

/// A new worker generation of a known lane differs from the current one, so a stale
/// worker's lease is never current.
pub proof fn law_next_generation_fences_stale_worker(lanes: Map<u64, LaneRecord>, l: LaneId)
    requires
        lanes.contains_key(l.0),
    ensures
        next_generation_of(lanes, l) != lanes[l.0].generation,
{
    crate::ids::lemma_next_counter_differs(lanes[l.0].generation.0);
}

/// The largest queue of controller requests that the scheduler accepts.
pub const SCHEDULE_QUEUE_CAPACITY: usize = 8;

/// Whether the controller scheduler accepts a queue capacity: at least one request and at
/// most [`SCHEDULE_QUEUE_CAPACITY`]; any other capacity is refused as invalid.
pub fn schedule_capacity_valid(capacity: usize) -> (r: bool)
    ensures
        r == (1 <= capacity <= SCHEDULE_QUEUE_CAPACITY),
{
    capacity != 0 && capacity <= SCHEDULE_QUEUE_CAPACITY
}

} // verus!
