//! Decisions of the configured-session actor: the actor's state, what each message
//! does to it, and the effects (messages to the worker, the supervisor and the
//! upstream connection) that the caller must carry out.
use vstd::prelude::*;
use crate::domain::{GameplayCommand, SendableAction, Vec3};
use crate::ids::{AccountId, LaneId, MovementEpoch, OwnershipGeneration, WorkerGeneration};
use crate::proxy::ownership::{
    AccountAttendance, AccountOwnership, AttendedControlState, ClientKind, ControlMode,
    OwnershipSnapshot, SessionPhase, TransitionTicket, advanced, attendance_consistent, begun,
    committed, forced_manual, initial_ownership, snapshot_bot_allowed, snapshot_permits,
    snapshot_ticket, ticket_current,
};
use crate::proxy::player::{same_schedule, PlayerPresence};
use crate::proxy::transport_gate::{GateRejection, authorize, gate_verdict};

verus! {

/// Idle time after player movement before the bot resumes.
pub const PLAYER_IDLE_WINDOW_MS: u64 = 2000;

/// Something the caller must do on the actor's behalf.
#[derive(Clone, Debug)]
pub enum SessionEffect {
    /// Tell the worker whether upstream is connected and the character is in the world.
    PublishSessionState { connected: bool, in_world: bool },
    /// Tell the worker the ownership state.
    PublishOwnership { generation: OwnershipGeneration, movement_epoch: MovementEpoch, player_present: bool, bot_allowed: bool },
    /// Ask the supervisor to set (`true`) or clear (`false`) the player-control pause.
    UpdatePause { paused: bool },
    /// Send a gameplay command upstream.
    Upstream(GameplayCommand),
}

/// The effect publishing an ownership snapshot.
pub open spec fn publish_of(s: OwnershipSnapshot) -> SessionEffect {
    SessionEffect::PublishOwnership {
        generation: s.generation,
        movement_epoch: s.movement_epoch,
        player_present: s.attendance == AccountAttendance::PlayerPresent,
        bot_allowed: snapshot_bot_allowed(s),
    }
}

/// The state of one configured account's session.
pub struct ConfiguredSessionState {
    pub account: AccountId,
    pub lane: LaneId,
    pub worker: WorkerGeneration,
    pub ownership: AccountOwnership,
    pub player: PlayerPresence,
    pub upstream_connected: bool,
    pub world_authoritative: bool,
    pub worker_running: bool,
}

/// How a bot action ended at the transport.
#[derive(Clone, Copy, Debug, PartialEq, Eq, Structural)]
pub enum TransportVerdict {
    Accepted,
    UpstreamClosed,
    Refused(GateRejection),
}

/// The outcome for a bot action given the admission result and whether the upstream send succeeded.
pub open spec fn transport_verdict_of(gate: Result<(), GateRejection>, sent: bool) -> TransportVerdict {
    match gate {
        Err(e) => TransportVerdict::Refused(e),
        Ok(()) => if sent { TransportVerdict::Accepted } else { TransportVerdict::UpstreamClosed },
    }
}

/// The outcome for a bot action given the admission result and whether the upstream send succeeded.
pub fn transport_verdict(gate: Result<(), GateRejection>, sent: bool) -> (r: TransportVerdict)
    ensures
        r == transport_verdict_of(gate, sent),
{
    match gate {
        Err(e) => TransportVerdict::Refused(e),
        Ok(()) => if sent { TransportVerdict::Accepted } else { TransportVerdict::UpstreamClosed },
    }
}

fn publish(s: OwnershipSnapshot) -> (e: SessionEffect)
    ensures
        e == publish_of(s),
{
    SessionEffect::PublishOwnership {
        generation: s.generation,
        movement_epoch: s.movement_epoch,
        player_present: s.player_present(),
        bot_allowed: s.bot_allowed(),
    }
}

/// Whether two session states belong to the same account, lane and worker, with the worker
/// in the same running state.
pub open spec fn same_identity(a: ConfiguredSessionState, b: ConfiguredSessionState) -> bool {
    a.account == b.account && a.lane == b.lane && a.worker == b.worker && a.worker_running == b.worker_running
}

impl ConfiguredSessionState {
    /// The player schedule is well formed.
    pub open spec fn wf(&self) -> bool {
        self.player.wf()
    }

    /// A fresh session: bot-owned, no player, idle window of two seconds, upstream
    /// disconnected and the worker running.
    pub fn new(account: AccountId, lane: LaneId, worker: WorkerGeneration) -> (r: Self)
        ensures
            r.wf(),
            r.account == account,
            r.lane == lane,
            r.worker == worker,
            r.ownership@ == initial_ownership(ControlMode::Bot),
            r.player.connection_set().is_empty(),
            r.player.idle_window == PLAYER_IDLE_WINDOW_MS,
            !r.player.idle_resume_armed,
            !r.player.explicit_manual_off,
            r.player.last_movement.is_none(),
            r.player.channel_block_until.is_none(),
            r.player.retry_at().is_none(),
            r.player.retry_delay() == crate::proxy::player::INITIAL_RETRY_DELAY_MS,
            !r.upstream_connected,
            !r.world_authoritative,
            r.worker_running,
    {
        ConfiguredSessionState {
            account,
            lane,
            worker,
            ownership: AccountOwnership::default(),
            player: PlayerPresence::new(PLAYER_IDLE_WINDOW_MS),
            upstream_connected: false,
            world_authoritative: false,
            worker_running: true,
        }
    }

    /// A player connection is attaching: it is recorded and the bot lane must be paused.
    /// The caller reports the pause outcome to [`Self::attach_paused`].
    pub fn attach_player(&mut self, connection: u64) -> (e: SessionEffect)
        requires
            old(self).wf(),
        ensures
            final(self).wf(),
            final(self).player.connection_set() == old(self).player.connection_set().insert(connection),
            same_schedule(final(self).player, old(self).player),
            same_identity(*final(self), *old(self)),
            final(self).ownership@ == old(self).ownership@,
            final(self).upstream_connected == old(self).upstream_connected,
            final(self).world_authoritative == old(self).world_authoritative,
            final(self).worker_running == old(self).worker_running,
            e == (SessionEffect::UpdatePause { paused: true }),
    {
        self.player.attach(connection);
        SessionEffect::UpdatePause { paused: true }
    }

    /// The pause for an attaching player succeeded (`paused`) or failed. When paused,
    /// the player owns the character with the bot off; otherwise the connection is
    /// forgotten. Returns whether the lane was paused, and the effects.
    pub fn attach_paused(&mut self, connection: u64, paused: bool) -> (r: (bool, Vec<SessionEffect>))
        requires
            old(self).wf(),
        ensures
            final(self).wf(),
            r.0 == paused,
            same_identity(*final(self), *old(self)),
            final(self).upstream_connected == old(self).upstream_connected,
            final(self).world_authoritative == old(self).world_authoritative,
            final(self).worker_running == old(self).worker_running,
            paused ==> {
                &&& final(self).player.connection_set() == old(self).player.connection_set()
                &&& !final(self).player.idle_resume_armed
                &&& final(self).player.explicit_manual_off
                &&& final(self).player.last_movement == old(self).player.last_movement
                &&& final(self).player.channel_block_until == old(self).player.channel_block_until
                &&& final(self).player.idle_window == old(self).player.idle_window
                &&& final(self).player.retry_at() == old(self).player.retry_at()
                &&& final(self).player.retry_delay() == old(self).player.retry_delay()
                &&& final(self).ownership@ == (OwnershipSnapshot {
                    mode: ControlMode::Manual,
                    requested: ControlMode::Manual,
                    phase: SessionPhase::Manual,
                    attendance: AccountAttendance::PlayerPresent,
                    attended_control: AttendedControlState::PlayerAttachedManualOff,
                    ..advanced(old(self).ownership@)
                })
                &&& r.1@ == seq![publish_of(final(self).ownership@)]
            },
            !paused ==> {
                &&& final(self).player.connection_set() == old(self).player.connection_set().remove(connection)
                &&& same_schedule(final(self).player, old(self).player)
                &&& final(self).ownership@ == old(self).ownership@
                &&& r.1@ == Seq::<SessionEffect>::empty()
            },
    {
        let mut effects: Vec<SessionEffect> = Vec::new();
        if paused {
            self.player.bot_off();
            self.ownership.player_attached_manual_off();
            effects.push(publish(self.ownership.snapshot()));
        } else {
            self.player.detach(connection);
        }
        (paused, effects)
    }

    /// A player connection ended. When it was the last one, upstream and world authority
    /// are dropped and ownership goes back to the bot (reclaiming) or to nobody.
    pub fn player_detached(&mut self, connection: u64) -> (effects: Vec<SessionEffect>)
        requires
            old(self).wf(),
        ensures
            final(self).wf(),
            final(self).player.connection_set() == old(self).player.connection_set().remove(connection),
            same_schedule(final(self).player, old(self).player),
            same_identity(*final(self), *old(self)),
            ({
                let last = final(self).player.connection_set().is_empty();
                let o = old(self).ownership@;
                if !last {
                    &&& final(self).ownership@ == o
                    &&& final(self).upstream_connected == old(self).upstream_connected
                    &&& final(self).world_authoritative == old(self).world_authoritative
                    &&& effects@ == Seq::<SessionEffect>::empty()
                } else if old(self).worker_running {
                    let reclaiming = OwnershipSnapshot {
                        mode: ControlMode::Manual,
                        requested: ControlMode::Bot,
                        phase: SessionPhase::Manual,
                        attendance: AccountAttendance::PlayerPresent,
                        attended_control: AttendedControlState::ReclaimingAfterPlayerLogout,
                        ..advanced(o)
                    };
                    &&& !final(self).upstream_connected
                    &&& !final(self).world_authoritative
                    &&& final(self).ownership@ == (OwnershipSnapshot {
                        phase: SessionPhase::ReconnectingBot,
                        ..begun(reclaiming, ControlMode::Bot)
                    })
                    &&& effects@ == seq![
                        SessionEffect::PublishSessionState { connected: false, in_world: false },
                        publish_of(reclaiming),
                    ]
                } else {
                    let released = OwnershipSnapshot {
                        mode: ControlMode::Manual,
                        requested: ControlMode::Manual,
                        phase: SessionPhase::Manual,
                        attendance: AccountAttendance::Unattended,
                        attended_control: AttendedControlState::Unattended,
                        ..advanced(o)
                    };
                    &&& !final(self).upstream_connected
                    &&& !final(self).world_authoritative
                    &&& final(self).ownership@ == released
                    &&& effects@ == seq![
                        SessionEffect::PublishSessionState { connected: false, in_world: false },
                        publish_of(released),
                    ]
                }
            }),
    {
        let mut effects: Vec<SessionEffect> = Vec::new();
        let last = self.player.detach(connection);
        if last {
            self.upstream_connected = false;
            self.world_authoritative = false;
            effects.push(SessionEffect::PublishSessionState { connected: false, in_world: false });
            if self.worker_running {
                self.ownership.player_logout_reclaiming(true);
                effects.push(publish(self.ownership.snapshot()));
                let ticket = self.ownership.reconnect();
                if self.upstream_connected && self.ownership.commit(ticket) {
                    effects.push(SessionEffect::UpdatePause { paused: false });
                    effects.push(publish(self.ownership.snapshot()));
                }
            } else {
                self.ownership.player_logout_no_bot();
                effects.push(publish(self.ownership.snapshot()));
            }
        }
        effects
    }

    /// The attended player moved at `at`: the player takes locomotion and the bot's
    /// resume is armed.
    pub fn player_movement(&mut self, at: u64) -> (effects: Vec<SessionEffect>)
        requires
            old(self).wf(),
            at + old(self).player.idle_window <= u64::MAX,
        ensures
            final(self).wf(),
            final(self).player.last_movement == Some(at),
            final(self).player.idle_resume_armed == (old(self).player.idle_resume_armed || !old(self).player.explicit_manual_off),
            final(self).player.retry_at().is_none(),
            final(self).player.retry_delay() == crate::proxy::player::INITIAL_RETRY_DELAY_MS,
            final(self).player.connection_set() == old(self).player.connection_set(),
            final(self).player.channel_block_until == old(self).player.channel_block_until,
            final(self).player.explicit_manual_off == old(self).player.explicit_manual_off,
            final(self).player.idle_window == old(self).player.idle_window,
            same_identity(*final(self), *old(self)),
            final(self).ownership@ == (OwnershipSnapshot {
                mode: ControlMode::Manual,
                requested: ControlMode::Bot,
                phase: SessionPhase::Manual,
                attendance: AccountAttendance::PlayerPresent,
                attended_control: AttendedControlState::PlayerAttachedBotOnUserMoving,
                ..advanced(old(self).ownership@)
            }),
            final(self).upstream_connected == old(self).upstream_connected,
            final(self).world_authoritative == old(self).world_authoritative,
            effects@ == seq![publish_of(final(self).ownership@)],
    {
        self.player.moved(at);
        self.ownership.player_movement_takeover();
        let mut effects: Vec<SessionEffect> = Vec::new();
        effects.push(publish(self.ownership.snapshot()));
        effects
    }

    /// Channel activity blocks resuming until `until`.
    pub fn channel_activity(&mut self, until: u64)
        requires
            old(self).wf(),
        ensures
            final(self).wf(),
            final(self).player.channel_block_until == Some(crate::proxy::player::later(old(self).player.channel_block_until, until)),
            final(self).player.connection_set() == old(self).player.connection_set(),
            final(self).player.last_movement == old(self).player.last_movement,
            final(self).player.idle_resume_armed == old(self).player.idle_resume_armed,
            final(self).player.explicit_manual_off == old(self).player.explicit_manual_off,
            final(self).player.idle_window == old(self).player.idle_window,
            final(self).player.retry_at() == old(self).player.retry_at(),
            final(self).player.retry_delay() == old(self).player.retry_delay(),
            same_identity(*final(self), *old(self)),
            final(self).ownership@ == old(self).ownership@,
            final(self).upstream_connected == old(self).upstream_connected,
            final(self).world_authoritative == old(self).world_authoritative,
    {
        self.player.block_channel_until(until);
    }

    /// The player asked for the bot: ownership moves to the bot, committed at once when
    /// upstream is connected (then the lane is unpaused).
    pub fn bot_on(&mut self) -> (effects: Vec<SessionEffect>)
        requires
            old(self).wf(),
        ensures
            final(self).wf(),
            final(self).player.idle_resume_armed,
            !final(self).player.explicit_manual_off,
            final(self).player.connection_set() == old(self).player.connection_set(),
            final(self).player.last_movement == old(self).player.last_movement,
            final(self).player.channel_block_until == old(self).player.channel_block_until,
            final(self).player.idle_window == old(self).player.idle_window,
            final(self).player.retry_at().is_none(),
            final(self).player.retry_delay() == crate::proxy::player::INITIAL_RETRY_DELAY_MS,
            same_identity(*final(self), *old(self)),
            final(self).upstream_connected == old(self).upstream_connected,
            final(self).world_authoritative == old(self).world_authoritative,
            ({
                let b = begun(old(self).ownership@, ControlMode::Bot);
                if old(self).upstream_connected {
                    &&& final(self).ownership@ == committed(b)
                    &&& effects@ == seq![SessionEffect::UpdatePause { paused: false }, publish_of(committed(b))]
                } else {
                    &&& final(self).ownership@ == b
                    &&& effects@ == seq![publish_of(b)]
                }
            }),
    {
        self.player.bot_on();
        let ticket = self.ownership.begin(ControlMode::Bot);
        let mut effects: Vec<SessionEffect> = Vec::new();
        let committed = self.upstream_connected && self.ownership.commit(ticket);
        if committed {
            effects.push(SessionEffect::UpdatePause { paused: false });
        }
        effects.push(publish(self.ownership.snapshot()));
        effects
    }

    /// The player turned the bot off: the lane is paused and ownership is forced to manual.
    pub fn bot_off(&mut self) -> (effects: Vec<SessionEffect>)
        requires
            old(self).wf(),
        ensures
            final(self).wf(),
            !final(self).player.idle_resume_armed,
            final(self).player.explicit_manual_off,
            final(self).player.connection_set() == old(self).player.connection_set(),
            final(self).player.last_movement == old(self).player.last_movement,
            final(self).player.channel_block_until == old(self).player.channel_block_until,
            final(self).player.idle_window == old(self).player.idle_window,
            final(self).player.retry_at() == old(self).player.retry_at(),
            final(self).player.retry_delay() == old(self).player.retry_delay(),
            same_identity(*final(self), *old(self)),
            final(self).ownership@ == forced_manual(old(self).ownership@),
            final(self).upstream_connected == old(self).upstream_connected,
            final(self).world_authoritative == old(self).world_authoritative,
            effects@ == seq![SessionEffect::UpdatePause { paused: true }, publish_of(forced_manual(old(self).ownership@))],
    {
        self.player.bot_off();
        let ticket = self.ownership.begin(ControlMode::Manual);
        let mut effects: Vec<SessionEffect> = Vec::new();
        effects.push(SessionEffect::UpdatePause { paused: true });
        let committed = self.ownership.commit(ticket);
        if committed {
            effects.push(publish(self.ownership.snapshot()));
        }
        effects
    }

    /// A timer tick at `now`: when the idle deadline has passed (and no retry is pending)
    /// and upstream is connected, a bot transition begins and its ticket is returned; the
    /// caller unpauses the lane and reports the outcome to [`Self::resume_outcome`].
    pub fn tick(&mut self, now: u64) -> (r: Option<TransitionTicket>)
        requires
            old(self).wf(),
        ensures
            final(self).wf(),
            final(self).player == old(self).player,
            same_identity(*final(self), *old(self)),
            final(self).upstream_connected == old(self).upstream_connected,
            final(self).world_authoritative == old(self).world_authoritative,
            (old(self).player.resume_due(now) && old(self).upstream_connected) ==> {
                &&& final(self).ownership@ == begun(old(self).ownership@, ControlMode::Bot)
                &&& r == Some(snapshot_ticket(final(self).ownership@))
            },
            !(old(self).player.resume_due(now) && old(self).upstream_connected) ==> {
                &&& final(self).ownership@ == old(self).ownership@
                &&& r.is_none()
            },
    {
        if self.player.should_resume(now) && self.upstream_connected {
            Some(self.ownership.begin(ControlMode::Bot))
        } else {
            None
        }
    }

    /// The unpause for an idle resume succeeded (`unpaused`) or failed. On success a
    /// still-current ticket commits and the resume is complete; on failure the
    /// transition fails (manual control) and the resume is retried later.
    pub fn resume_outcome(&mut self, ticket: TransitionTicket, unpaused: bool, now: u64) -> (effects: Vec<SessionEffect>)
        requires
            old(self).wf(),
            now + crate::proxy::player::MAX_RETRY_DELAY_MS <= u64::MAX,
        ensures
            final(self).wf(),
            same_identity(*final(self), *old(self)),
            final(self).player.connection_set() == old(self).player.connection_set(),
            final(self).player.last_movement == old(self).player.last_movement,
            final(self).player.explicit_manual_off == old(self).player.explicit_manual_off,
            final(self).player.idle_window == old(self).player.idle_window,
            final(self).upstream_connected == old(self).upstream_connected,
            final(self).world_authoritative == old(self).world_authoritative,
            ({
                let o = old(self).ownership@;
                if unpaused {
                    if ticket_current(o, ticket) {
                        &&& final(self).ownership@ == committed(o)
                        &&& !final(self).player.idle_resume_armed
                        &&& final(self).player.channel_block_until.is_none()
                        &&& final(self).player.retry_at().is_none()
                        &&& final(self).player.retry_delay() == crate::proxy::player::INITIAL_RETRY_DELAY_MS
                        &&& effects@ == seq![publish_of(committed(o))]
                    } else {
                        &&& final(self).ownership@ == o
                        &&& final(self).player == old(self).player
                        &&& effects@ == Seq::<SessionEffect>::empty()
                    }
                } else {
                    &&& final(self).ownership@ == (if ticket_current(o, ticket) { forced_manual(o) } else { o })
                    &&& final(self).player.idle_resume_armed == old(self).player.idle_resume_armed
                    &&& final(self).player.channel_block_until == old(self).player.channel_block_until
                    &&& final(self).player.retry_at() == Some((now + old(self).player.retry_delay()) as u64)
                    &&& final(self).player.retry_delay() == (if 2 * old(self).player.retry_delay() <= crate::proxy::player::MAX_RETRY_DELAY_MS {
                        (2 * old(self).player.retry_delay()) as u64
                    } else {
                        crate::proxy::player::MAX_RETRY_DELAY_MS
                    })
                    &&& effects@ == seq![publish_of(final(self).ownership@)]
                }
            }),
    {
        let mut effects: Vec<SessionEffect> = Vec::new();
        if unpaused {
            if self.ownership.commit(ticket) {
                self.player.resumed();
                effects.push(publish(self.ownership.snapshot()));
            }
        } else {
            self.ownership.fail(ticket);
            self.player.resume_failed(now);
            effects.push(publish(self.ownership.snapshot()));
        }
        effects
    }

    /// Upstream connected or disconnected; a disconnect also drops world authority.
    pub fn upstream_connected_changed(&mut self, value: bool) -> (effects: Vec<SessionEffect>)
        ensures
            final(self).upstream_connected == value,
            final(self).world_authoritative == (value && old(self).world_authoritative),
            final(self).ownership@ == old(self).ownership@,
            final(self).player == old(self).player,
            same_identity(*final(self), *old(self)),
            effects@ == seq![SessionEffect::PublishSessionState {
                connected: value,
                in_world: value && old(self).world_authoritative,
            }],
    {
        self.upstream_connected = value;
        if !value {
            self.world_authoritative = false;
        }
        let mut effects: Vec<SessionEffect> = Vec::new();
        effects.push(SessionEffect::PublishSessionState {
            connected: self.upstream_connected,
            in_world: self.world_authoritative,
        });
        effects
    }

    /// The character entered or left the world authoritatively.
    pub fn world_authoritative_changed(&mut self, value: bool) -> (effects: Vec<SessionEffect>)
        ensures
            final(self).world_authoritative == value,
            final(self).upstream_connected == old(self).upstream_connected,
            final(self).ownership@ == old(self).ownership@,
            final(self).player == old(self).player,
            same_identity(*final(self), *old(self)),
            effects@ == seq![SessionEffect::PublishSessionState {
                connected: old(self).upstream_connected,
                in_world: value,
            }],
    {
        self.world_authoritative = value;
        let mut effects: Vec<SessionEffect> = Vec::new();
        effects.push(SessionEffect::PublishSessionState {
            connected: self.upstream_connected,
            in_world: self.world_authoritative,
        });
        effects
    }

    /// The worker asked for the session state.
    pub fn query_session(&self) -> (e: SessionEffect)
        ensures
            e == (SessionEffect::PublishSessionState { connected: self.upstream_connected, in_world: self.world_authoritative }),
    {
        SessionEffect::PublishSessionState { connected: self.upstream_connected, in_world: self.world_authoritative }
    }

    /// Whether a worker action is admitted; when admitted the caller sends the command
    /// upstream and reports the send with [`transport_outcome`].
    pub fn worker_action(&self, action: &SendableAction) -> (r: Result<(), GateRejection>)
        ensures
            r == gate_verdict(*action, self.worker, self.ownership@),
    {
        authorize(action, self.worker, self.ownership.snapshot())
    }

    /// Whether worker movement towards `destination` stamped with `epoch` is admitted
    /// (the bot may act, the epoch is current and the destination finite).
    pub fn worker_movement(&self, epoch: MovementEpoch, destination: Vec3) -> (r: Option<SessionEffect>)
        ensures
            ({
                let o = self.ownership@;
                let ok = snapshot_permits(o, ClientKind::Bot) && o.movement_epoch == epoch && destination.finite();
                &&& ok ==> r == Some(SessionEffect::Upstream(GameplayCommand::MoveTo(destination)))
                &&& !ok ==> r.is_none()
            }),
    {
        let owner = self.ownership.snapshot();
        if owner.permits(ClientKind::Bot) && owner.movement_epoch == epoch && destination.is_finite() {
            Some(SessionEffect::Upstream(GameplayCommand::MoveTo(destination)))
        } else {
            None
        }
    }

    /// Whether a worker stop stamped with `epoch` is admitted.
    pub fn worker_stop(&self, epoch: MovementEpoch) -> (r: Option<SessionEffect>)
        ensures
            ({
                let o = self.ownership@;
                let ok = snapshot_permits(o, ClientKind::Bot) && o.movement_epoch == epoch;
                &&& ok ==> r == Some(SessionEffect::Upstream(GameplayCommand::StopMovement))
                &&& !ok ==> r.is_none()
            }),
    {
        let owner = self.ownership.snapshot();
        if owner.permits(ClientKind::Bot) && owner.movement_epoch == epoch {
            Some(SessionEffect::Upstream(GameplayCommand::StopMovement))
        } else {
            None
        }
    }
}

/// A failed idle resume never leaves the bot allowed to act.
pub proof fn law_failed_resume_keeps_bot_out(o: OwnershipSnapshot, t: TransitionTicket)
    requires
        attendance_consistent(o),
    ensures
        !snapshot_bot_allowed(if ticket_current(o, t) { forced_manual(o) } else { o }) || !ticket_current(o, t),
{
}

} // verus!
