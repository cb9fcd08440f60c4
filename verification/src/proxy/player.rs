//! Presence of attended players on a configured account and the idle-resume
//! schedule that hands control back to the bot. Time is virtual: instants and
//! durations are milliseconds on a monotonic clock.
use vstd::prelude::*;
use std::collections::BTreeSet;

verus! {

broadcast use vstd::std_specs::btree::group_btree_axioms;

/// First delay before retrying a failed resume.
pub const INITIAL_RETRY_DELAY_MS: u64 = 1000;

/// Upper bound of the resume retry delay.
pub const MAX_RETRY_DELAY_MS: u64 = 30000;

/// Something the attended player did.
#[derive(Clone, Debug)]
pub enum PlayerEvent {
    Attached { connection: u64 },
    Detached { connection: u64 },
    Moved { at: u64 },
    ChannelActivity { until: u64 },
    Command(String),
}

/// Attended-player presence and the bot's idle-resume schedule.
#[derive(Clone, Debug)]
pub struct PlayerPresence {
    pub connections: BTreeSet<u64>,
    pub last_movement: Option<u64>,
    pub channel_block_until: Option<u64>,
    pub idle_resume_armed: bool,
    pub explicit_manual_off: bool,
    pub idle_window: u64,
    pub resume_retry_at: Option<u64>,
    pub resume_retry_delay: u64,
}

/// The later of two optional instants, the second always present.
pub open spec fn later(a: Option<u64>, b: u64) -> u64 {
    match a {
        Some(x) => if x >= b { x } else { b },
        None => b,
    }
}

/// Whether two presences agree on everything but the attached connections: movement,
/// channel blocking, the resume arming, the bot switch, the idle window and the retry
/// schedule.
pub open spec fn same_schedule(a: PlayerPresence, b: PlayerPresence) -> bool {
    &&& a.last_movement == b.last_movement
    &&& a.channel_block_until == b.channel_block_until
    &&& a.idle_resume_armed == b.idle_resume_armed
    &&& a.explicit_manual_off == b.explicit_manual_off
    &&& a.idle_window == b.idle_window
    &&& a.retry_at() == b.retry_at()
    &&& a.retry_delay() == b.retry_delay()
}

/// A call on a player presence.
pub enum PresenceCall {
    Attach(u64),
    Detach(u64),
    Moved(u64),
    BotOn,
    BotOff,
    BlockChannelUntil(u64),
    ResumeFailed(u64),
    Resumed,
}

/// Whether `q` is what the call `c` makes of `p`, as the method's contract states it.
pub open spec fn presence_call(p: PlayerPresence, c: PresenceCall, q: PlayerPresence) -> bool {
    let schedule_kept = same_schedule(q, p);
    match c {
        PresenceCall::Attach(id) => q.connection_set() == p.connection_set().insert(id) && schedule_kept,
        PresenceCall::Detach(id) => q.connection_set() == p.connection_set().remove(id) && schedule_kept,
        PresenceCall::Moved(now) => {
            &&& q.connection_set() == p.connection_set()
            &&& q.last_movement == Some(now)
            &&& q.channel_block_until == p.channel_block_until
            &&& q.idle_resume_armed == (p.idle_resume_armed || !p.explicit_manual_off)
            &&& q.explicit_manual_off == p.explicit_manual_off
            &&& q.idle_window == p.idle_window
            &&& q.retry_at().is_none()
            &&& q.retry_delay() == INITIAL_RETRY_DELAY_MS
        },
        PresenceCall::BotOn => {
            &&& q.connection_set() == p.connection_set()
            &&& q.last_movement == p.last_movement
            &&& q.channel_block_until == p.channel_block_until
            &&& q.idle_resume_armed
            &&& !q.explicit_manual_off
            &&& q.idle_window == p.idle_window
            &&& q.retry_at().is_none()
            &&& q.retry_delay() == INITIAL_RETRY_DELAY_MS
        },
        PresenceCall::BotOff => {
            &&& q.connection_set() == p.connection_set()
            &&& q.last_movement == p.last_movement
            &&& q.channel_block_until == p.channel_block_until
            &&& !q.idle_resume_armed
            &&& q.explicit_manual_off
            &&& q.idle_window == p.idle_window
            &&& q.retry_at() == p.retry_at()
            &&& q.retry_delay() == p.retry_delay()
        },
        PresenceCall::BlockChannelUntil(until) => {
            &&& q.connection_set() == p.connection_set()
            &&& q.last_movement == p.last_movement
            &&& q.channel_block_until == Some(later(p.channel_block_until, until))
            &&& q.idle_resume_armed == p.idle_resume_armed
            &&& q.explicit_manual_off == p.explicit_manual_off
            &&& q.idle_window == p.idle_window
            &&& q.retry_at() == p.retry_at()
            &&& q.retry_delay() == p.retry_delay()
        },
        PresenceCall::ResumeFailed(now) => {
            &&& q.connection_set() == p.connection_set()
            &&& q.last_movement == p.last_movement
            &&& q.channel_block_until == p.channel_block_until
            &&& q.idle_resume_armed == p.idle_resume_armed
            &&& q.explicit_manual_off == p.explicit_manual_off
            &&& q.idle_window == p.idle_window
            &&& q.retry_at() == Some((now + p.retry_delay()) as u64)
            &&& q.retry_delay() == (if 2 * p.retry_delay() <= MAX_RETRY_DELAY_MS {
                (2 * p.retry_delay()) as u64
            } else {
                MAX_RETRY_DELAY_MS
            })
        },
        PresenceCall::Resumed => {
            &&& q.connection_set() == p.connection_set()
            &&& q.last_movement == p.last_movement
            &&& q.channel_block_until.is_none()
            &&& !q.idle_resume_armed
            &&& q.explicit_manual_off == p.explicit_manual_off
            &&& q.idle_window == p.idle_window
            &&& q.retry_at().is_none()
            &&& q.retry_delay() == INITIAL_RETRY_DELAY_MS
        },
    }
}

impl PlayerPresence {
    /// The attached player connections.
    pub open spec fn connection_set(&self) -> Set<u64> {
        self.connections@
    }

    /// When a failed resume may next be retried.
    pub open spec fn retry_at(&self) -> Option<u64> {
        self.resume_retry_at
    }

    /// The delay that the next failure will wait.
    pub open spec fn retry_delay(&self) -> u64 {
        self.resume_retry_delay
    }

    /// The retry delay lies within its bounds, the connection set is finite,
    /// and the idle deadline fits in the clock.
    pub open spec fn wf(&self) -> bool {
        &&& INITIAL_RETRY_DELAY_MS <= self.retry_delay() <= MAX_RETRY_DELAY_MS
        &&& self.connection_set().finite()
        &&& (self.last_movement matches Some(t) ==> t + self.idle_window <= u64::MAX)
    }

    /// When the bot should resume, if resuming is armed and a movement was seen.
    pub open spec fn deadline(&self) -> Option<u64> {
        if !self.idle_resume_armed || self.explicit_manual_off {
            None
        } else {
            match self.last_movement {
                None => None,
                Some(t) => Some(later(self.channel_block_until, (t + self.idle_window) as u64)),
            }
        }
    }

    /// Whether the bot should resume at `now`.
    pub open spec fn resume_due(&self, now: u64) -> bool {
        match self.deadline() {
            None => false,
            Some(d) => now >= d && (match self.retry_at() {
                None => true,
                Some(r) => now >= r,
            }),
        }
    }

    /// No player, nothing armed, and the initial retry delay.
    pub fn new(idle_window: u64) -> (r: Self)
        ensures
            r.wf(),
            r.connection_set() == Set::<u64>::empty(),
            r.last_movement.is_none(),
            r.channel_block_until.is_none(),
            !r.idle_resume_armed,
            !r.explicit_manual_off,
            r.idle_window == idle_window,
            r.retry_at().is_none(),
            r.retry_delay() == INITIAL_RETRY_DELAY_MS,
    {
        PlayerPresence {
            connections: BTreeSet::new(),
            last_movement: None,
            channel_block_until: None,
            idle_resume_armed: false,
            explicit_manual_off: false,
            idle_window,
            resume_retry_at: None,
            resume_retry_delay: INITIAL_RETRY_DELAY_MS,
        }
    }

    /// Records an attached player connection.
    pub fn attach(&mut self, id: u64)
        requires
            old(self).wf(),
        ensures
            final(self).wf(),
            final(self).connection_set() == old(self).connection_set().insert(id),
            final(self).last_movement == old(self).last_movement,
            final(self).channel_block_until == old(self).channel_block_until,
            final(self).idle_resume_armed == old(self).idle_resume_armed,
            final(self).explicit_manual_off == old(self).explicit_manual_off,
            final(self).idle_window == old(self).idle_window,
            final(self).retry_at() == old(self).retry_at(),
            final(self).retry_delay() == old(self).retry_delay(),
            presence_call(*old(self), PresenceCall::Attach(id), *final(self)),
    {
        self.connections.insert(id);
    }

    /// Forgets a player connection; true when no player connection remains.
    pub fn detach(&mut self, id: u64) -> (last: bool)
        requires
            old(self).wf(),
        ensures
            final(self).wf(),
            final(self).connection_set() == old(self).connection_set().remove(id),
            last == final(self).connection_set().is_empty(),
            final(self).last_movement == old(self).last_movement,
            final(self).channel_block_until == old(self).channel_block_until,
            final(self).idle_resume_armed == old(self).idle_resume_armed,
            final(self).explicit_manual_off == old(self).explicit_manual_off,
            final(self).idle_window == old(self).idle_window,
            final(self).retry_at() == old(self).retry_at(),
            final(self).retry_delay() == old(self).retry_delay(),
            presence_call(*old(self), PresenceCall::Detach(id), *final(self)),
    {
        self.connections.remove(&id);
        self.connections.len() == 0
    }

    /// The number of attached player connections.
    pub fn count(&self) -> (n: usize)
        requires
            self.wf(),
        ensures
            n == self.connection_set().len(),
    {
        self.connections.len()
    }

    fn reset_resume_retry(&mut self)
        requires
            old(self).wf(),
        ensures
            final(self).wf(),
            final(self).connection_set() == old(self).connection_set(),
            final(self).last_movement == old(self).last_movement,
            final(self).channel_block_until == old(self).channel_block_until,
            final(self).idle_resume_armed == old(self).idle_resume_armed,
            final(self).explicit_manual_off == old(self).explicit_manual_off,
            final(self).idle_window == old(self).idle_window,
            final(self).retry_at().is_none(),
            final(self).retry_delay() == INITIAL_RETRY_DELAY_MS,
    {
        self.resume_retry_at = None;
        self.resume_retry_delay = INITIAL_RETRY_DELAY_MS;
    }

    /// The player moved at `now`: resuming restarts from the first retry delay
    /// and is armed unless the player turned the bot off.
    pub fn moved(&mut self, now: u64)
        requires
            old(self).wf(),
            now + old(self).idle_window <= u64::MAX,
        ensures
            final(self).wf(),
            final(self).connection_set() == old(self).connection_set(),
            final(self).last_movement == Some(now),
            final(self).channel_block_until == old(self).channel_block_until,
            final(self).idle_resume_armed == (old(self).idle_resume_armed || !old(self).explicit_manual_off),
            final(self).explicit_manual_off == old(self).explicit_manual_off,
            final(self).idle_window == old(self).idle_window,
            final(self).retry_at().is_none(),
            final(self).retry_delay() == INITIAL_RETRY_DELAY_MS,
            presence_call(*old(self), PresenceCall::Moved(now), *final(self)),
    {
        self.last_movement = Some(now);
        self.reset_resume_retry();
        if !self.explicit_manual_off {
            self.idle_resume_armed = true;
        }
    }

    /// The player turned bot automation on.
    pub fn bot_on(&mut self)
        requires
            old(self).wf(),
        ensures
            final(self).wf(),
            final(self).connection_set() == old(self).connection_set(),
            final(self).last_movement == old(self).last_movement,
            final(self).channel_block_until == old(self).channel_block_until,
            final(self).idle_resume_armed,
            !final(self).explicit_manual_off,
            final(self).idle_window == old(self).idle_window,
            final(self).retry_at().is_none(),
            final(self).retry_delay() == INITIAL_RETRY_DELAY_MS,
            presence_call(*old(self), PresenceCall::BotOn, *final(self)),
    {
        self.explicit_manual_off = false;
        self.idle_resume_armed = true;
        self.reset_resume_retry();
    }

    /// The player turned bot automation off.
    pub fn bot_off(&mut self)
        requires
            old(self).wf(),
        ensures
            final(self).wf(),
            final(self).connection_set() == old(self).connection_set(),
            final(self).last_movement == old(self).last_movement,
            final(self).channel_block_until == old(self).channel_block_until,
            !final(self).idle_resume_armed,
            final(self).explicit_manual_off,
            final(self).idle_window == old(self).idle_window,
            final(self).retry_at() == old(self).retry_at(),
            final(self).retry_delay() == old(self).retry_delay(),
            presence_call(*old(self), PresenceCall::BotOff, *final(self)),
    {
        self.explicit_manual_off = true;
        self.idle_resume_armed = false;
    }

    /// Channel activity blocks resuming until at least `until`.
    pub fn block_channel_until(&mut self, until: u64)
        requires
            old(self).wf(),
        ensures
            final(self).wf(),
            final(self).connection_set() == old(self).connection_set(),
            final(self).last_movement == old(self).last_movement,
            final(self).channel_block_until == Some(later(old(self).channel_block_until, until)),
            final(self).idle_resume_armed == old(self).idle_resume_armed,
            final(self).explicit_manual_off == old(self).explicit_manual_off,
            final(self).idle_window == old(self).idle_window,
            final(self).retry_at() == old(self).retry_at(),
            final(self).retry_delay() == old(self).retry_delay(),
            presence_call(*old(self), PresenceCall::BlockChannelUntil(until), *final(self)),
    {
        let value = match self.channel_block_until {
            Some(old) => if old >= until { old } else { until },
            None => until,
        };
        self.channel_block_until = Some(value);
    }

    /// The idle deadline: the end of the idle window after the last movement,
    /// or the end of channel activity if later; none unless resuming is armed.
    pub fn resume_deadline(&self) -> (r: Option<u64>)
        requires
            self.wf(),
        ensures
            r == self.deadline(),
    {
        if !self.idle_resume_armed || self.explicit_manual_off {
            return None;
        }
        let movement = match self.last_movement {
            Some(t) => t + self.idle_window,
            None => return None,
        };
        match self.channel_block_until {
            Some(c) => Some(if c >= movement { c } else { movement }),
            None => Some(movement),
        }
    }

    /// Whether the idle deadline has passed at `now` and no retry delay is pending.
    pub fn should_resume(&self, now: u64) -> (r: bool)
        requires
            self.wf(),
        ensures
            r == self.resume_due(now),
    {
        match self.resume_deadline() {
            Some(deadline) => now >= deadline && match self.resume_retry_at {
                Some(retry_at) => now >= retry_at,
                None => true,
            },
            None => false,
        }
    }

    /// A resume attempt failed at `now`: retry after the current delay, then
    /// double the delay up to thirty seconds.
    pub fn resume_failed(&mut self, now: u64)
        requires
            old(self).wf(),
            now + MAX_RETRY_DELAY_MS <= u64::MAX,
        ensures
            final(self).wf(),
            final(self).connection_set() == old(self).connection_set(),
            final(self).last_movement == old(self).last_movement,
            final(self).channel_block_until == old(self).channel_block_until,
            final(self).idle_resume_armed == old(self).idle_resume_armed,
            final(self).explicit_manual_off == old(self).explicit_manual_off,
            final(self).idle_window == old(self).idle_window,
            final(self).retry_at() == Some((now + old(self).retry_delay()) as u64),
            final(self).retry_delay() == (if 2 * old(self).retry_delay() <= MAX_RETRY_DELAY_MS {
                (2 * old(self).retry_delay()) as u64
            } else {
                MAX_RETRY_DELAY_MS
            }),
            presence_call(*old(self), PresenceCall::ResumeFailed(now), *final(self)),
    {
        self.resume_retry_at = Some(now + self.resume_retry_delay);
        let doubled = self.resume_retry_delay * 2;
        self.resume_retry_delay = if doubled <= MAX_RETRY_DELAY_MS {
            doubled
        } else {
            MAX_RETRY_DELAY_MS
        };
    }

    /// The bot resumed: disarm resuming, clear channel blocking and the retry schedule.
    pub fn resumed(&mut self)
        requires
            old(self).wf(),
        ensures
            final(self).wf(),
            final(self).connection_set() == old(self).connection_set(),
            final(self).last_movement == old(self).last_movement,
            final(self).channel_block_until.is_none(),
            !final(self).idle_resume_armed,
            final(self).explicit_manual_off == old(self).explicit_manual_off,
            final(self).idle_window == old(self).idle_window,
            final(self).retry_at().is_none(),
            final(self).retry_delay() == INITIAL_RETRY_DELAY_MS,
            presence_call(*old(self), PresenceCall::Resumed, *final(self)),
    {
        self.idle_resume_armed = false;
        self.channel_block_until = None;
        self.reset_resume_retry();
    }
}

/// After a failed resume the bot does not resume again before the retry delay elapses,
/// and does resume once it has (when nothing else changed).
pub proof fn law_failed_resume_waits_for_retry(p: PlayerPresence, q: PlayerPresence, failed_at: u64, now: u64)
    requires
        p.wf(),
        q.retry_at() == Some((failed_at + p.retry_delay()) as u64),
        q.deadline() == p.deadline(),
        p.resume_due(failed_at),
        failed_at + p.retry_delay() <= u64::MAX,
    ensures
        now < failed_at + p.retry_delay() ==> !q.resume_due(now),
        now >= failed_at + p.retry_delay() ==> q.resume_due(now),
{
}

/// The resume retry delay never exceeds thirty seconds and never drops below one second.
pub proof fn law_retry_delay_bounded(p: PlayerPresence)
    requires
        p.wf(),
    ensures
        INITIAL_RETRY_DELAY_MS <= p.retry_delay() <= MAX_RETRY_DELAY_MS,
{
}

/// Once the player turned the bot off, no presence schedules a resume: along any sequence
/// of presences in which each keeps the bot off (as attaching, detaching, movement, channel
/// activity, failed resumes and resumes all do, by their contracts; only `bot_on` turns it
/// back on), the idle deadline is `None` and the bot never resumes, at any time.
pub proof fn law_bot_off_keeps_bot_out(states: Seq<PlayerPresence>, now: u64)
    requires
        states.len() > 0,
        states[0].explicit_manual_off,
        forall|i: int| 0 <= i < states.len() - 1 && #[trigger] states[i].explicit_manual_off
            ==> states[i + 1].explicit_manual_off,
    ensures
        forall|i: int| 0 <= i < states.len() ==> (#[trigger] states[i]).explicit_manual_off
            && states[i].deadline() is None && !states[i].resume_due(now),
    decreases states.len(),
{
    if states.len() > 1 {
        let prefix = states.drop_last();
        assert forall|i: int| 0 <= i < prefix.len() - 1 && #[trigger] prefix[i].explicit_manual_off
            implies prefix[i + 1].explicit_manual_off by {
            assert(prefix[i] == states[i] && prefix[i + 1] == states[i + 1]);
        }
        law_bot_off_keeps_bot_out(prefix, now);
        assert forall|i: int| 0 <= i < states.len() implies (#[trigger] states[i]).explicit_manual_off
            && states[i].deadline() is None && !states[i].resume_due(now) by {
            if i < states.len() - 1 {
                assert(prefix[i] == states[i]);
            } else {
                assert(prefix[i - 1] == states[i - 1]);
                assert(prefix[i - 1].explicit_manual_off);
            }
        }
    }
}

/// After the bot resumed, no resume is due at any time until the player moves again; a
/// later movement at `t`, with the bot not turned off and no channel activity between,
/// arms the resume for the end of the idle window after `t`. `p` is the presence before
/// `resumed`, `q` after it, and `r` after `moved(t)`, as their contracts give them.
pub proof fn law_resumed_waits_for_next_movement(p: PlayerPresence, q: PlayerPresence, r: PlayerPresence, t: u64, now: u64)
    requires
        p.wf(),
        q.last_movement == p.last_movement,
        q.channel_block_until.is_none(),
        !q.idle_resume_armed,
        q.explicit_manual_off == p.explicit_manual_off,
        q.idle_window == p.idle_window,
        q.retry_at().is_none(),
        !p.explicit_manual_off,
        t + q.idle_window <= u64::MAX,
        r.last_movement == Some(t),
        r.channel_block_until == q.channel_block_until,
        r.idle_resume_armed == (q.idle_resume_armed || !q.explicit_manual_off),
        r.explicit_manual_off == q.explicit_manual_off,
        r.idle_window == q.idle_window,
    ensures
        q.deadline() is None,
        !q.resume_due(now),
        r.deadline() == Some((t + p.idle_window) as u64),
{
}

/// After an explicit bot-off, no sequence of presence calls other than `bot_on` (attaching,
/// detaching, moving, channel activity, failed resumes, resumes, and further bot-offs)
/// re-arms the resume: along the calls the bot stays off and unarmed, the idle deadline is
/// `None`, and the bot never resumes, at any time. `states[0]` is the presence after the
/// bot-off and `states[i + 1]` the presence after `calls[i]`, as the methods' contracts
/// give them.
pub proof fn law_bot_off_holds_until_bot_on(before: PlayerPresence, calls: Seq<PresenceCall>, states: Seq<PlayerPresence>, now: u64)
    requires
        states.len() == calls.len() + 1,
        presence_call(before, PresenceCall::BotOff, states[0]),
        forall|i: int| 0 <= i < calls.len() ==> presence_call(states[i], #[trigger] calls[i], states[i + 1]),
        forall|i: int| 0 <= i < calls.len() ==> !(#[trigger] calls[i] is BotOn),
    ensures
        forall|i: int| 0 <= i < states.len() ==> {
            &&& (#[trigger] states[i]).explicit_manual_off
            &&& !states[i].idle_resume_armed
            &&& states[i].deadline() is None
            &&& !states[i].resume_due(now)
        },
    decreases calls.len(),
{
    if calls.len() > 0 {
        let k = calls.len() - 1;
        law_bot_off_holds_until_bot_on(before, calls.drop_last(), states.drop_last(), now);
        assert forall|i: int| 0 <= i < states.len() implies {
            &&& (#[trigger] states[i]).explicit_manual_off
            &&& !states[i].idle_resume_armed
            &&& states[i].deadline() is None
            &&& !states[i].resume_due(now)
        } by {
            if i < states.len() - 1 {
                assert(states.drop_last()[i] == states[i]);
            } else {
                assert(states.drop_last()[k] == states[k]);
                assert(calls[k] == calls[k]);
                assert(presence_call(states[k], calls[k], states[k + 1]));
                assert(!(calls[k] is BotOn));
            }
        }
    }
}

} // verus!
