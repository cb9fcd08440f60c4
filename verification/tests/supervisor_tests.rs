use wow_bot::ids::{LaneId, WorkerGeneration};
use wow_bot::proxy::auth::{format_endpoint, select_realm, AdmissionLimits, RealmEntry};
use wow_bot::ids::{MovementEpoch, OwnershipGeneration};
use wow_bot::proxy::diagnostics::{ownership_event, redact_payload, ActionLogCapture};
use wow_bot::proxy::ownership::{
    AccountAttendance, AttendedControlState, ControlMode, OwnershipSnapshot, SessionPhase,
};
use wow_bot::proxy::handoff::HandoffBarrier;
use wow_bot::proxy::supervisor::{AccessError, SupervisorAccess, SupervisorToken};
use wow_bot::supervisor::{
    schedule_capacity_valid, startup_order, Heartbeat, LaneRecord, LaneRegistry, LaneStatus, RestartPolicy, StartupError, StartupGate,
    WorkerFailure, WorkerLease,
};

#[test]
fn startup_gate_reports_the_first_failed_check() {
    let mut gate = StartupGate {
        config_valid: true,
        runtime_data_valid: false,
        private_paths_valid: false,
        supervisor_control_ready: true,
    };
    assert_eq!(gate.ready(), Err(StartupError::InvalidRuntimeData));
    assert_eq!(gate.ready().unwrap_err().message(), "runtime data validation failed");
    gate.runtime_data_valid = true;
    gate.private_paths_valid = true;
    assert_eq!(gate.ready(), Ok(()));
}

#[test]
fn lanes_start_in_ascending_order() {
    assert_eq!(
        startup_order(vec![LaneId(3), LaneId(1), LaneId(2), LaneId(1)]),
        vec![LaneId(1), LaneId(1), LaneId(2), LaneId(3)]
    );
    assert!(startup_order(vec![]).is_empty());
}

#[test]
fn heartbeat_health_and_failure() {
    let beat = Heartbeat { last_ms: 10_000, timeout_ms: 5_000 };
    assert!(beat.healthy(15_000));
    assert!(!beat.healthy(15_001));
    assert!(beat.healthy(9_000));
    assert_eq!(beat.classify(15_001), Some(WorkerFailure::LoginTimeout));
    assert_eq!(beat.classify(12_000), None);
    let policy = RestartPolicy::default();
    assert_eq!((policy.max_restarts, policy.base_backoff_ms), (10, 500));
}

#[test]
fn lane_registry_fences_stale_generations() {
    let mut registry = LaneRegistry::new();
    assert_eq!(registry.next_generation(LaneId(1)), WorkerGeneration(1));
    let record = LaneRecord { generation: WorkerGeneration(1), status: LaneStatus::Starting, restarts: 0, pause: 0 };
    registry.set(LaneId(1), record);
    assert_eq!(registry.next_generation(LaneId(1)), WorkerGeneration(2));
    assert!(!registry.update_if_current(LaneId(1), WorkerGeneration(2), |r| LaneRecord { status: LaneStatus::Ready, ..r }));
    assert_eq!(registry.get(LaneId(1)).unwrap().status, LaneStatus::Starting);
    assert!(registry.update_if_current(LaneId(1), WorkerGeneration(1), |r| LaneRecord { status: LaneStatus::Ready, ..r }));
    assert_eq!(registry.get(LaneId(1)).unwrap().status, LaneStatus::Ready);
    assert!(!registry.update_if_current(LaneId(9), WorkerGeneration(1), |r| r));
    let lease = WorkerLease { lane: LaneId(1), generation: WorkerGeneration(1) };
    assert!(lease.is_current(LaneId(1), WorkerGeneration(1)));
    assert!(!lease.is_current(LaneId(1), WorkerGeneration(2)));
}

#[test]
fn realm_selection_and_endpoints() {
    let realms = vec![
        RealmEntry { id: 1, name: "AzerothCore".into(), advertised_host: "10.0.0.1".into(), port: 8085 },
        RealmEntry { id: 2, name: "Other".into(), advertised_host: "10.0.0.2".into(), port: 8086 },
    ];
    let route = select_realm("azerothcore", "127.0.0.1", &realms).unwrap();
    assert_eq!((route.id, route.name.as_str(), route.host.as_str(), route.port), (1, "AzerothCore", "127.0.0.1", 8085));
    assert_eq!(
        select_realm("Missing", "h", &realms),
        Err("configured realm \"Missing\" was not returned upstream".to_string())
    );
    assert_eq!(
        select_realm("Bad\"Name", "h", &realms),
        Err("configured realm \"Bad\\\"Name\" was not returned upstream".to_string())
    );
    assert_eq!(format_endpoint("127.0.0.1", 3724), "127.0.0.1:3724");
    assert_eq!(format_endpoint("::1", 8085), "[::1]:8085");
    let limits = AdmissionLimits::default();
    assert_eq!((limits.max_total, limits.max_per_ip), (128, 16));
}

#[test]
fn supervisor_access_is_validated() {
    let ok = SupervisorAccess { endpoint: "unix:/run/sup".into(), token: SupervisorToken::new("0123456789abcdef".into()) };
    assert_eq!(ok.validate(), Ok(()));
    assert_eq!(ok.token.expose(), "0123456789abcdef");
    let blank = SupervisorAccess { endpoint: "  ".into(), token: SupervisorToken::new("0123456789abcdef".into()) };
    assert_eq!(blank.validate(), Err(AccessError::EmptyEndpoint));
    let short = SupervisorAccess { endpoint: "x".into(), token: SupervisorToken::new("short".into()) };
    assert_eq!(short.validate(), Err(AccessError::ShortToken));
}

#[test]
fn diagnostics_redact_and_capture_only_while_active() {
    assert_eq!(redact_payload("chat", b"hello"), b"[redacted]".to_vec());
    assert_eq!(redact_payload("session_key", b"k"), b"[redacted]".to_vec());
    assert_eq!(redact_payload("movement", b"abc"), b"abc".to_vec());
    let mut capture = ActionLogCapture::new();
    capture.mark("ignored".into());
    capture.start();
    capture.mark("pull".into());
    capture.stop();
    capture.mark("ignored".into());
    assert_eq!(capture.markers, vec!["pull".to_string()]);
    let barrier = HandoffBarrier { worker_quiesced: true, ownership_committed: true, movement_stopped: false, upstream_ready: true };
    assert!(barrier.takeover_ready());
    assert!(!barrier.resume_ready());
}

#[test]
fn ownership_event_names_every_part_of_the_snapshot() {
    let snapshot = OwnershipSnapshot {
        mode: ControlMode::Manual,
        requested: ControlMode::Bot,
        phase: SessionPhase::TakingBot,
        attendance: AccountAttendance::PlayerPresent,
        attended_control: AttendedControlState::PlayerAttachedBotOnUserMoving,
        generation: OwnershipGeneration(1207),
        movement_epoch: MovementEpoch(40),
    };
    let event = ownership_event(9, snapshot);
    assert_eq!(event.lane, 9);
    assert_eq!(
        event.message,
        "mode=Manual phase=TakingBot attendance=PlayerPresent attended=PlayerAttachedBotOnUserMoving generation=1207 movement_epoch=40"
    );
    let first = OwnershipSnapshot {
        mode: ControlMode::Bot,
        requested: ControlMode::Bot,
        phase: SessionPhase::Bot,
        attendance: AccountAttendance::Unattended,
        attended_control: AttendedControlState::Unattended,
        generation: OwnershipGeneration(0),
        movement_epoch: MovementEpoch(u64::MAX),
    };
    assert_eq!(
        ownership_event(0, first).message,
        "mode=Bot phase=Bot attendance=Unattended attended=Unattended generation=0 movement_epoch=18446744073709551615"
    );
}

#[test]
fn endpoints_write_ports_in_decimal() {
    assert_eq!(format_endpoint("h", 0), "h:0");
    assert_eq!(format_endpoint("h", 65535), "h:65535");
    assert_eq!(format_endpoint("fe80::2", 10), "[fe80::2]:10");
}

#[test]
fn scheduler_capacity_is_between_one_and_eight() {
    assert!(!schedule_capacity_valid(0));
    assert!(schedule_capacity_valid(1));
    assert!(schedule_capacity_valid(8));
    assert!(!schedule_capacity_valid(9));
}
