//! Account ownership: who (bot or attended player) may drive the character,
//! with generation-fenced transitions.
use vstd::prelude::*;
use crate::ids::{MovementEpoch, OwnershipGeneration, next_counter, lemma_next_counter_differs};

verus! {

/// Which side currently controls gameplay.
#[derive(Debug, Clone, Copy, PartialEq, Eq, Structural)]
pub enum ControlMode {
    Bot,
    Manual,
}

/// The source of a gameplay packet.
#[derive(Debug, Clone, Copy, PartialEq, Eq, Structural)]
pub enum ClientKind {
    Bot,
    Player,
}

/// Whether `mode` owns packets from `source`.
pub open spec fn mode_owns(mode: ControlMode, source: ClientKind) -> bool {
    (mode == ControlMode::Bot && source == ClientKind::Bot)
        || (mode == ControlMode::Manual && source == ClientKind::Player)
}

impl ControlMode {
    /// The bot mode owns bot packets; the manual mode owns player packets.
    pub fn owns(self, source: ClientKind) -> (r: bool)
        ensures
            r == mode_owns(self, source),
    {
        match (self, source) {
            (ControlMode::Bot, ClientKind::Bot) => true,
            (ControlMode::Manual, ClientKind::Player) => true,
            _ => false,
        }
    }
}

/// Phase of the ownership state machine.
#[derive(Debug, Clone, Copy, PartialEq, Eq, Structural)]
pub enum SessionPhase {
    Bot,
    TakingManual,
    Manual,
    TakingBot,
    ReconnectingBot,
}

/// Whether a human player is attached to the account.
#[derive(Debug, Clone, Copy, PartialEq, Eq, Structural)]
pub enum AccountAttendance {
    Unattended,
    PlayerPresent,
}

/// Control state while a player is attached.
#[derive(Debug, Clone, Copy, PartialEq, Eq, Structural)]
pub enum AttendedControlState {
    Unattended,
    PlayerAttachedManualOff,
    PlayerAttachedBotOn,
    PlayerAttachedBotOnUserMoving,
    ReclaimingAfterPlayerLogout,
}

/// Proof that a transition was begun at a given generation towards a target mode.
#[derive(Debug, Clone, Copy, PartialEq, Eq, Structural)]
pub struct TransitionTicket {
    pub generation: OwnershipGeneration,
    pub target: ControlMode,
}

/// A copy of the ownership state.
#[derive(Debug, Clone, Copy, PartialEq, Eq, Structural)]
pub struct OwnershipSnapshot {
    pub mode: ControlMode,
    pub requested: ControlMode,
    pub phase: SessionPhase,
    pub attendance: AccountAttendance,
    pub attended_control: AttendedControlState,
    pub generation: OwnershipGeneration,
    pub movement_epoch: MovementEpoch,
}

/// A phase in which ownership is moving between sides.
pub open spec fn phase_transitioning(p: SessionPhase) -> bool {
    p == SessionPhase::TakingManual || p == SessionPhase::TakingBot
        || p == SessionPhase::ReconnectingBot
}

/// Whether the snapshot admits packets from `source`.
pub open spec fn snapshot_permits(s: OwnershipSnapshot, source: ClientKind) -> bool {
    if phase_transitioning(s.phase) {
        false
    } else {
        match s.attended_control {
            AttendedControlState::PlayerAttachedManualOff => source == ClientKind::Player,
            AttendedControlState::PlayerAttachedBotOnUserMoving => source == ClientKind::Player,
            AttendedControlState::PlayerAttachedBotOn => source == ClientKind::Bot,
            AttendedControlState::ReclaimingAfterPlayerLogout => false,
            AttendedControlState::Unattended => mode_owns(s.mode, source),
        }
    }
}

/// Whether the bot may act according to the snapshot.
pub open spec fn snapshot_bot_allowed(s: OwnershipSnapshot) -> bool {
    s.attended_control == AttendedControlState::PlayerAttachedBotOn
        || (s.attended_control == AttendedControlState::Unattended && s.mode == ControlMode::Bot)
}

/// The ticket describing the transition in progress.
pub open spec fn snapshot_ticket(s: OwnershipSnapshot) -> TransitionTicket {
    TransitionTicket { generation: s.generation, target: s.requested }
}

impl OwnershipSnapshot {
    /// Whether ownership is in the middle of a transition.
    pub fn transitioning(self) -> (r: bool)
        ensures
            r == phase_transitioning(self.phase),
    {
        match self.phase {
            SessionPhase::TakingManual | SessionPhase::TakingBot | SessionPhase::ReconnectingBot => true,
            _ => false,
        }
    }

    /// The ticket of the current (or last) transition.
    pub fn ticket(self) -> (r: TransitionTicket)
        ensures
            r == snapshot_ticket(self),
    {
        TransitionTicket { generation: self.generation, target: self.requested }
    }

    /// Whether packets from `source` may be sent upstream now.
    pub fn permits(self, source: ClientKind) -> (r: bool)
        ensures
            r == snapshot_permits(self, source),
    {
        if self.transitioning() {
            return false;
        }
        match self.attended_control {
            AttendedControlState::PlayerAttachedManualOff
            | AttendedControlState::PlayerAttachedBotOnUserMoving => source == ClientKind::Player,
            AttendedControlState::PlayerAttachedBotOn => source == ClientKind::Bot,
            AttendedControlState::ReclaimingAfterPlayerLogout => false,
            AttendedControlState::Unattended => self.mode.owns(source),
        }
    }

    /// Whether a player is attached.
    pub fn player_present(self) -> (r: bool)
        ensures
            r == (self.attendance == AccountAttendance::PlayerPresent),
    {
        self.attendance == AccountAttendance::PlayerPresent
    }

    /// Whether the bot is allowed to act.
    pub fn bot_allowed(self) -> (r: bool)
        ensures
            r == snapshot_bot_allowed(self),
    {
        self.attended_control == AttendedControlState::PlayerAttachedBotOn
            || (self.attended_control == AttendedControlState::Unattended
                && self.mode == ControlMode::Bot)
    }
}

/// The phase in which a committed transition towards `target` settles.
pub open spec fn settled_phase(target: ControlMode) -> SessionPhase {
    if target == ControlMode::Bot { SessionPhase::Bot } else { SessionPhase::Manual }
}

/// The attended control state of a present player after a transition towards `target`.
pub open spec fn attended_for(target: ControlMode) -> AttendedControlState {
    if target == ControlMode::Bot {
        AttendedControlState::PlayerAttachedBotOn
    } else {
        AttendedControlState::PlayerAttachedManualOff
    }
}

/// `s` with a new generation and a new movement epoch.
pub open spec fn advanced(s: OwnershipSnapshot) -> OwnershipSnapshot {
    OwnershipSnapshot {
        generation: OwnershipGeneration(next_counter(s.generation.0)),
        movement_epoch: MovementEpoch(next_counter(s.movement_epoch.0)),
        ..s
    }
}

/// The state right after a transition towards `target` was begun in `s`.
pub open spec fn begun(s: OwnershipSnapshot, target: ControlMode) -> OwnershipSnapshot {
    let a = advanced(s);
    OwnershipSnapshot {
        requested: target,
        phase: if target == ControlMode::Manual {
            SessionPhase::TakingManual
        } else {
            SessionPhase::TakingBot
        },
        attended_control: if s.attendance == AccountAttendance::PlayerPresent
            && s.attended_control != AttendedControlState::ReclaimingAfterPlayerLogout {
            attended_for(target)
        } else {
            s.attended_control
        },
        ..a
    }
}

/// The state right after the transition in progress in `s` was committed.
pub open spec fn committed(s: OwnershipSnapshot) -> OwnershipSnapshot {
    let target = s.requested;
    if s.attended_control == AttendedControlState::ReclaimingAfterPlayerLogout {
        OwnershipSnapshot {
            mode: target,
            phase: settled_phase(target),
            attendance: AccountAttendance::Unattended,
            attended_control: AttendedControlState::Unattended,
            ..s
        }
    } else if s.attendance == AccountAttendance::PlayerPresent {
        OwnershipSnapshot {
            mode: target,
            phase: settled_phase(target),
            attended_control: attended_for(target),
            ..s
        }
    } else {
        OwnershipSnapshot { mode: target, phase: settled_phase(target), ..s }
    }
}

/// The state after ownership was forced to manual from `s`.
pub open spec fn forced_manual(s: OwnershipSnapshot) -> OwnershipSnapshot {
    committed(begun(s, ControlMode::Manual))
}

/// Whether `t` is the ticket of the transition in progress in `s`.
pub open spec fn ticket_current(s: OwnershipSnapshot, t: TransitionTicket) -> bool {
    phase_transitioning(s.phase) && snapshot_ticket(s) == t
}

/// The ownership state of one account.
pub struct AccountOwnership {
    state: OwnershipSnapshot,
}

impl View for AccountOwnership {
    type V = OwnershipSnapshot;

    closed spec fn view(&self) -> OwnershipSnapshot {
        self.state
    }
}

/// The initial ownership state for `mode`.
pub open spec fn initial_ownership(mode: ControlMode) -> OwnershipSnapshot {
    OwnershipSnapshot {
        mode,
        requested: mode,
        phase: settled_phase(mode),
        attendance: AccountAttendance::Unattended,
        attended_control: AttendedControlState::Unattended,
        generation: OwnershipGeneration(0),
        movement_epoch: MovementEpoch(1),
    }
}

impl AccountOwnership {
    /// Unattended ownership settled in `mode`, at generation zero and movement epoch one.
    pub fn new(mode: ControlMode) -> (r: Self)
        ensures
            r@ == initial_ownership(mode),
    {
        AccountOwnership {
            state: OwnershipSnapshot {
                mode,
                requested: mode,
                phase: if mode == ControlMode::Bot {
                    SessionPhase::Bot
                } else {
                    SessionPhase::Manual
                },
                attendance: AccountAttendance::Unattended,
                attended_control: AttendedControlState::Unattended,
                generation: OwnershipGeneration::zero(),
                movement_epoch: MovementEpoch(1),
            },
        }
    }

    /// Bot-owned unattended ownership.
    pub fn default() -> (r: Self)
        ensures
            r@ == initial_ownership(ControlMode::Bot),
    {
        Self::new(ControlMode::Bot)
    }

    /// A copy of the current state.
    pub fn snapshot(&self) -> (r: OwnershipSnapshot)
        ensures
            r == self@,
    {
        self.state
    }

    /// Invalidates in-flight bot movement by starting a new movement epoch.
    pub fn fence_movement(&mut self)
        ensures
            final(self)@ == (OwnershipSnapshot {
                movement_epoch: MovementEpoch(next_counter(old(self)@.movement_epoch.0)),
                ..old(self)@
            }),
    {
        self.state.movement_epoch = self.state.movement_epoch.next();
    }

    fn advance_generation(&mut self)
        ensures
            final(self)@ == advanced(old(self)@),
    {
        self.state.generation = self.state.generation.next();
        self.fence_movement();
    }

    /// A player attached with bot automation off: the player owns the character.
    pub fn player_attached_manual_off(&mut self)
        ensures
            final(self)@ == (OwnershipSnapshot {
                mode: ControlMode::Manual,
                requested: ControlMode::Manual,
                phase: SessionPhase::Manual,
                attendance: AccountAttendance::PlayerPresent,
                attended_control: AttendedControlState::PlayerAttachedManualOff,
                ..advanced(old(self)@)
            }),
    {
        self.advance_generation();
        self.state.mode = ControlMode::Manual;
        self.state.requested = ControlMode::Manual;
        self.state.phase = SessionPhase::Manual;
        self.state.attendance = AccountAttendance::PlayerPresent;
        self.state.attended_control = AttendedControlState::PlayerAttachedManualOff;
    }

    /// A player is attached and has turned bot automation on.
    pub fn player_attached_bot_on(&mut self)
        ensures
            final(self)@ == (OwnershipSnapshot {
                mode: ControlMode::Bot,
                requested: ControlMode::Bot,
                phase: SessionPhase::Bot,
                attendance: AccountAttendance::PlayerPresent,
                attended_control: AttendedControlState::PlayerAttachedBotOn,
                ..advanced(old(self)@)
            }),
    {
        self.advance_generation();
        self.state.mode = ControlMode::Bot;
        self.state.requested = ControlMode::Bot;
        self.state.phase = SessionPhase::Bot;
        self.state.attendance = AccountAttendance::PlayerPresent;
        self.state.attended_control = AttendedControlState::PlayerAttachedBotOn;
    }

    /// The last player logged out; the bot reclaims only if `request_reclaim`.
    pub fn player_logout_reclaiming(&mut self, request_reclaim: bool)
        ensures
            final(self)@ == (OwnershipSnapshot {
                mode: ControlMode::Manual,
                requested: if request_reclaim { ControlMode::Bot } else { ControlMode::Manual },
                phase: SessionPhase::Manual,
                attendance: AccountAttendance::PlayerPresent,
                attended_control: AttendedControlState::ReclaimingAfterPlayerLogout,
                ..advanced(old(self)@)
            }),
    {
        self.advance_generation();
        self.state.mode = ControlMode::Manual;
        self.state.requested = if request_reclaim {
            ControlMode::Bot
        } else {
            ControlMode::Manual
        };
        self.state.phase = SessionPhase::Manual;
        self.state.attendance = AccountAttendance::PlayerPresent;
        self.state.attended_control = AttendedControlState::ReclaimingAfterPlayerLogout;
    }

    /// The last player logged out and no bot worker is running.
    pub fn player_logout_no_bot(&mut self)
        ensures
            final(self)@ == (OwnershipSnapshot {
                mode: ControlMode::Manual,
                requested: ControlMode::Manual,
                phase: SessionPhase::Manual,
                attendance: AccountAttendance::Unattended,
                attended_control: AttendedControlState::Unattended,
                ..advanced(old(self)@)
            }),
    {
        self.advance_generation();
        self.state.mode = ControlMode::Manual;
        self.state.requested = ControlMode::Manual;
        self.state.phase = SessionPhase::Manual;
        self.state.attendance = AccountAttendance::Unattended;
        self.state.attended_control = AttendedControlState::Unattended;
    }

    /// The attended player moved: the player takes locomotion, the bot stays requested.
    pub fn player_movement_takeover(&mut self)
        ensures
            final(self)@ == (OwnershipSnapshot {
                mode: ControlMode::Manual,
                requested: ControlMode::Bot,
                phase: SessionPhase::Manual,
                attendance: AccountAttendance::PlayerPresent,
                attended_control: AttendedControlState::PlayerAttachedBotOnUserMoving,
                ..advanced(old(self)@)
            }),
    {
        self.advance_generation();
        self.state.mode = ControlMode::Manual;
        self.state.requested = ControlMode::Bot;
        self.state.phase = SessionPhase::Manual;
        self.state.attendance = AccountAttendance::PlayerPresent;
        self.state.attended_control = AttendedControlState::PlayerAttachedBotOnUserMoving;
    }

    /// Begins a transition towards `target` and returns its ticket.
    pub fn begin(&mut self, target: ControlMode) -> (t: TransitionTicket)
        ensures
            final(self)@ == begun(old(self)@, target),
            t == snapshot_ticket(final(self)@),
    {
        self.advance_generation();
        self.state.requested = target;
        self.state.phase = if target == ControlMode::Manual {
            SessionPhase::TakingManual
        } else {
            SessionPhase::TakingBot
        };
        if self.state.attendance == AccountAttendance::PlayerPresent
            && self.state.attended_control != AttendedControlState::ReclaimingAfterPlayerLogout {
            self.state.attended_control = if target == ControlMode::Bot {
                AttendedControlState::PlayerAttachedBotOn
            } else {
                AttendedControlState::PlayerAttachedManualOff
            };
        }
        self.state.ticket()
    }

    /// Begins a bot reconnection transition and returns its ticket.
    pub fn reconnect(&mut self) -> (t: TransitionTicket)
        ensures
            final(self)@ == (OwnershipSnapshot {
                phase: SessionPhase::ReconnectingBot,
                ..begun(old(self)@, ControlMode::Bot)
            }),
            t == snapshot_ticket(final(self)@),
    {
        let t = self.begin(ControlMode::Bot);
        self.state.phase = SessionPhase::ReconnectingBot;
        t
    }

    /// Whether `ticket` belongs to the transition in progress.
    pub fn is_current(&self, ticket: TransitionTicket) -> (r: bool)
        ensures
            r == ticket_current(self@, ticket),
    {
        self.state.transitioning() && self.state.ticket() == ticket
    }

    /// Completes the transition of `ticket`; a stale ticket changes nothing.
    pub fn commit(&mut self, ticket: TransitionTicket) -> (r: bool)
        ensures
            r == ticket_current(old(self)@, ticket),
            r ==> final(self)@ == committed(old(self)@),
            !r ==> final(self)@ == old(self)@,
    {
        if !self.is_current(ticket) {
            return false;
        }
        self.state.mode = ticket.target;
        self.state.phase = if ticket.target == ControlMode::Bot {
            SessionPhase::Bot
        } else {
            SessionPhase::Manual
        };
        if self.state.attended_control == AttendedControlState::ReclaimingAfterPlayerLogout {
            self.state.attendance = AccountAttendance::Unattended;
            self.state.attended_control = AttendedControlState::Unattended;
        } else if self.state.attendance == AccountAttendance::PlayerPresent {
            self.state.attended_control = if ticket.target == ControlMode::Bot {
                AttendedControlState::PlayerAttachedBotOn
            } else {
                AttendedControlState::PlayerAttachedManualOff
            };
        }
        true
    }

    /// Abandons the transition of `ticket` by forcing manual control; a stale ticket changes nothing.
    pub fn fail(&mut self, ticket: TransitionTicket) -> (r: bool)
        ensures
            r == ticket_current(old(self)@, ticket),
            r ==> final(self)@ == forced_manual(old(self)@),
            !r ==> final(self)@ == old(self)@,
    {
        if !self.is_current(ticket) {
            return false;
        }
        self.force_manual();
        true
    }

    /// Forces manual control through a begun-and-committed transition.
    pub fn force_manual(&mut self)
        ensures
            final(self)@ == forced_manual(old(self)@),
    {
        let t = self.begin(ControlMode::Manual);
        let _ = self.commit(t);
    }
}

/// While a transition is in progress, neither the bot nor the player may send gameplay.
pub proof fn law_transition_fences_both_sources(s: OwnershipSnapshot, target: ControlMode)
    ensures
        !snapshot_permits(begun(s, target), ClientKind::Bot),
        !snapshot_permits(begun(s, target), ClientKind::Player),
{
}

/// A ticket issued before a later `begin` can no longer commit or fail.
pub proof fn law_stale_ticket_cannot_commit(s: OwnershipSnapshot, first: ControlMode, second: ControlMode)
    ensures
        !ticket_current(begun(begun(s, first), second), snapshot_ticket(begun(s, first))),
{
    lemma_next_counter_differs(begun(s, first).generation.0);
}

/// The ticket returned by `begin` is current until something else changes ownership.
pub proof fn law_fresh_ticket_is_current(s: OwnershipSnapshot, target: ControlMode)
    ensures
        ticket_current(begun(s, target), snapshot_ticket(begun(s, target))),
{
}

/// Committing a transition settles in its target mode and ends the transition.
pub proof fn law_commit_settles_target(s: OwnershipSnapshot, target: ControlMode)
    ensures
        committed(begun(s, target)).mode == target,
        !phase_transitioning(committed(begun(s, target)).phase),
        committed(begun(s, target)).generation == begun(s, target).generation,
{
}

/// Every ownership change (other than committing) fences in-flight bot movement.
pub proof fn law_begin_fences_movement(s: OwnershipSnapshot, target: ControlMode)
    ensures
        begun(s, target).movement_epoch != s.movement_epoch,
        begun(s, target).generation != s.generation,
{
    lemma_next_counter_differs(s.movement_epoch.0);
    lemma_next_counter_differs(s.generation.0);
}

/// Attendance and attended control agree on whether a player is present.
pub open spec fn attendance_consistent(s: OwnershipSnapshot) -> bool {
    (s.attendance == AccountAttendance::Unattended)
        == (s.attended_control == AttendedControlState::Unattended)
}

/// Every state the ownership operations produce keeps attendance consistent.
pub proof fn law_ownership_keeps_attendance_consistent(
    s: OwnershipSnapshot,
    mode: ControlMode,
    target: ControlMode,
)
    requires
        attendance_consistent(s),
    ensures
        attendance_consistent(initial_ownership(mode)),
        attendance_consistent(begun(s, target)),
        attendance_consistent(committed(s)),
        attendance_consistent(forced_manual(s)),
{
}

/// Forcing manual control leaves the player in charge and the bot without permission.
pub proof fn law_forced_manual_excludes_bot(s: OwnershipSnapshot)
    requires
        attendance_consistent(s),
    ensures
        forced_manual(s).mode == ControlMode::Manual,
        !snapshot_permits(forced_manual(s), ClientKind::Bot),
        !snapshot_bot_allowed(forced_manual(s)),
{
}

/// While the attended player is moving the character (outside a transition), the player
/// holds control: the player's packets are permitted and the bot's are refused. With the bot
/// on and the player still, it is the other way round, and with the bot off the player
/// alone may send.
pub proof fn law_moving_player_holds_control(s: OwnershipSnapshot)
    requires
        !phase_transitioning(s.phase),
    ensures
        s.attended_control == AttendedControlState::PlayerAttachedBotOnUserMoving ==> snapshot_permits(s, ClientKind::Player)
            && !snapshot_permits(s, ClientKind::Bot),
        s.attended_control == AttendedControlState::PlayerAttachedBotOn ==> snapshot_permits(s, ClientKind::Bot)
            && !snapshot_permits(s, ClientKind::Player),
        s.attended_control == AttendedControlState::PlayerAttachedManualOff ==> snapshot_permits(s, ClientKind::Player)
            && !snapshot_permits(s, ClientKind::Bot),
{
}

/// After the attended player's movement takes over, the player's packets are permitted and
/// the bot's are refused, whatever the ownership was before.
pub proof fn law_takeover_gives_the_player_control(o: OwnershipSnapshot)
    ensures
        ({
            let t = OwnershipSnapshot {
                mode: ControlMode::Manual,
                requested: ControlMode::Bot,
                phase: SessionPhase::Manual,
                attendance: AccountAttendance::PlayerPresent,
                attended_control: AttendedControlState::PlayerAttachedBotOnUserMoving,
                ..advanced(o)
            };
            snapshot_permits(t, ClientKind::Player) && !snapshot_permits(t, ClientKind::Bot)
        }),
{
}

} // verus!
