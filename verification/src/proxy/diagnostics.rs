//! Diagnostics: lifecycle events, action-log capture and payload redaction.
use vstd::prelude::*;
use crate::ids::ActionId;
use crate::proxy::ownership::{
    AccountAttendance, AttendedControlState, ControlMode, OwnershipSnapshot, SessionPhase,
};
use crate::text::{decimal, push_decimal, str_eq};

verus! {

/// A lifecycle event of a lane.
#[derive(Clone, Debug)]
pub struct LifecycleEvent {
    pub lane: u64,
    pub message: String,
}

/// The name of a control mode, as `Debug` writes it.
pub open spec fn mode_text(m: ControlMode) -> Seq<char> {
    match m {
        ControlMode::Bot => "Bot"@,
        ControlMode::Manual => "Manual"@,
    }
}

/// The name of a session phase, as `Debug` writes it.
pub open spec fn phase_text(p: SessionPhase) -> Seq<char> {
    match p {
        SessionPhase::Bot => "Bot"@,
        SessionPhase::TakingManual => "TakingManual"@,
        SessionPhase::Manual => "Manual"@,
        SessionPhase::TakingBot => "TakingBot"@,
        SessionPhase::ReconnectingBot => "ReconnectingBot"@,
    }
}

/// The name of an attendance, as `Debug` writes it.
pub open spec fn attendance_text(a: AccountAttendance) -> Seq<char> {
    match a {
        AccountAttendance::Unattended => "Unattended"@,
        AccountAttendance::PlayerPresent => "PlayerPresent"@,
    }
}

/// The name of an attended-control state, as `Debug` writes it.
pub open spec fn attended_text(a: AttendedControlState) -> Seq<char> {
    match a {
        AttendedControlState::Unattended => "Unattended"@,
        AttendedControlState::PlayerAttachedManualOff => "PlayerAttachedManualOff"@,
        AttendedControlState::PlayerAttachedBotOn => "PlayerAttachedBotOn"@,
        AttendedControlState::PlayerAttachedBotOnUserMoving => "PlayerAttachedBotOnUserMoving"@,
        AttendedControlState::ReclaimingAfterPlayerLogout => "ReclaimingAfterPlayerLogout"@,
    }
}

/// The message of the lifecycle event for an ownership snapshot.
pub open spec fn ownership_message(s: OwnershipSnapshot) -> Seq<char> {
    "mode="@ + mode_text(s.mode) + " phase="@ + phase_text(s.phase) + " attendance="@
        + attendance_text(s.attendance) + " attended="@ + attended_text(s.attended_control)
        + " generation="@ + decimal(s.generation.0 as nat) + " movement_epoch="@ + decimal(
        s.movement_epoch.0 as nat,
    )
}

fn mode_label(m: ControlMode) -> (r: &'static str)
    ensures
        r@ == mode_text(m),
{
    match m {
        ControlMode::Bot => "Bot",
        ControlMode::Manual => "Manual",
    }
}

fn phase_label(p: SessionPhase) -> (r: &'static str)
    ensures
        r@ == phase_text(p),
{
    match p {
        SessionPhase::Bot => "Bot",
        SessionPhase::TakingManual => "TakingManual",
        SessionPhase::Manual => "Manual",
        SessionPhase::TakingBot => "TakingBot",
        SessionPhase::ReconnectingBot => "ReconnectingBot",
    }
}

fn attendance_label(a: AccountAttendance) -> (r: &'static str)
    ensures
        r@ == attendance_text(a),
{
    match a {
        AccountAttendance::Unattended => "Unattended",
        AccountAttendance::PlayerPresent => "PlayerPresent",
    }
}

fn attended_label(a: AttendedControlState) -> (r: &'static str)
    ensures
        r@ == attended_text(a),
{
    match a {
        AttendedControlState::Unattended => "Unattended",
        AttendedControlState::PlayerAttachedManualOff => "PlayerAttachedManualOff",
        AttendedControlState::PlayerAttachedBotOn => "PlayerAttachedBotOn",
        AttendedControlState::PlayerAttachedBotOnUserMoving => "PlayerAttachedBotOnUserMoving",
        AttendedControlState::ReclaimingAfterPlayerLogout => "ReclaimingAfterPlayerLogout",
    }
}

/// The lifecycle event of a lane that records an ownership snapshot: its mode, phase,
/// attendance, attended control, generation and movement epoch.
pub fn ownership_event(lane: u64, s: OwnershipSnapshot) -> (r: LifecycleEvent)
    ensures
        r.lane == lane,
        r.message@ == ownership_message(s),
{
    let mut m = String::new();
    m.append("mode=");
    m.append(mode_label(s.mode));
    m.append(" phase=");
    m.append(phase_label(s.phase));
    m.append(" attendance=");
    m.append(attendance_label(s.attendance));
    m.append(" attended=");
    m.append(attended_label(s.attended_control));
    m.append(" generation=");
    push_decimal(&mut m, s.generation.0);
    m.append(" movement_epoch=");
    push_decimal(&mut m, s.movement_epoch.0);
    assert(m@ =~= ownership_message(s));
    LifecycleEvent { lane, message: m }
}

/// The result of one action, as logged.
#[derive(Clone, Debug)]
pub struct ActionLogEntry {
    pub action: ActionId,
    pub result: String,
}

/// An in-memory action log that records markers and entries only while active.
#[derive(Clone, Debug)]
pub struct ActionLogCapture {
    pub active: bool,
    pub markers: Vec<String>,
    pub entries: Vec<ActionLogEntry>,
}

impl ActionLogCapture {
    /// An inactive, empty capture.
    pub fn new() -> (r: Self)
        ensures
            !r.active,
            r.markers@.len() == 0,
            r.entries@.len() == 0,
    {
        ActionLogCapture { active: false, markers: Vec::new(), entries: Vec::new() }
    }

    /// Start recording.
    pub fn start(&mut self)
        ensures
            final(self).active,
            final(self).markers@ == old(self).markers@,
            final(self).entries@ == old(self).entries@,
    {
        self.active = true;
    }

    /// Stop recording.
    pub fn stop(&mut self)
        ensures
            !final(self).active,
            final(self).markers@ == old(self).markers@,
            final(self).entries@ == old(self).entries@,
    {
        self.active = false;
    }

    /// Record a marker where active.
    pub fn mark(&mut self, label: String)
        ensures
            final(self).active == old(self).active,
            final(self).markers@ == (if old(self).active { old(self).markers@.push(label) } else { old(self).markers@ }),
            final(self).entries@ == old(self).entries@,
    {
        if self.active {
            self.markers.push(label);
        }
    }

    /// Record an entry where active.
    pub fn push(&mut self, entry: ActionLogEntry)
        ensures
            final(self).active == old(self).active,
            final(self).markers@ == old(self).markers@,
            final(self).entries@ == (if old(self).active { old(self).entries@.push(entry) } else { old(self).entries@ }),
    {
        if self.active {
            self.entries.push(entry);
        }
    }
}

/// The placeholder that replaces a redacted payload.
pub open spec fn redacted_bytes() -> Seq<u8> {
    seq![0x5Bu8, 0x72, 0x65, 0x64, 0x61, 0x63, 0x74, 0x65, 0x64, 0x5D]
}

/// The payload kinds whose bytes never reach a log.
pub open spec fn sensitive_kind(kind: Seq<char>) -> bool {
    kind == "chat"@ || kind == "warden"@ || kind == "auth"@ || kind == "session_key"@
}

/// A payload as it may be logged: `[redacted]` for chat, Warden, auth and session-key
/// payloads; the bytes themselves otherwise.
pub fn redact_payload(kind: &str, body: &[u8]) -> (r: Vec<u8>)
    ensures
        r@ == (if sensitive_kind(kind@) { redacted_bytes() } else { body@ }),
{
    if str_eq(kind, "chat") || str_eq(kind, "warden") || str_eq(kind, "auth") || str_eq(kind, "session_key") {
        let v: Vec<u8> = vec![0x5Bu8, 0x72, 0x65, 0x64, 0x61, 0x63, 0x74, 0x65, 0x64, 0x5D];
        assert(v@ =~= redacted_bytes());
        v
    } else {
        let mut v: Vec<u8> = Vec::new();
        crate::bytes::extend_bytes(&mut v, body);
        assert(v@ =~= body@);
        v
    }
}

} // verus!
