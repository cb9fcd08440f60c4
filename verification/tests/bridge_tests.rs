use wow_bot::domain::{GameplayCommand, Vec3, WorldPosition};
use wow_bot::ids::EntityId;
use wow_bot::proxy::bridge::{
    WorldBridge, CMSG_AUTOSTORE_LOOT_ITEM, CMSG_LOOT_MONEY, CMSG_LOOT_RELEASE, CMSG_PLAYER_LOGIN, CMSG_TIME_SYNC_RESP,
    SMSG_CAST_FAILED, SMSG_LOGIN_VERIFY_WORLD, SMSG_LOOT_RELEASE_RESPONSE, SMSG_LOOT_RESPONSE,
};
use wow_bot::proxy::gameplay::encode_simple_movement;
use wow_bot::state::inventory::LootOwnership;
use wow_bot::state::observation::ProtocolObservation;

fn point(x: f32, y: f32, z: f32) -> Vec3 {
    Vec3 { x: x.to_bits(), y: y.to_bits(), z: z.to_bits() }
}

fn at(x: f32) -> WorldPosition {
    WorldPosition { map: 571, point: point(x, 2.0, 3.0), orientation: 0 }
}

fn bridge_in_world() -> WorldBridge {
    let mut bridge = WorldBridge::new();
    bridge.player_guid = Some(EntityId(7));
    bridge.canonical_position = Some(at(1.0));
    bridge
}

#[test]
fn bot_echo_and_passive_feedback_are_held_back() {
    let mut bridge = bridge_in_world();
    bridge.last_bot_visual = Some((at(1.0), 0x0DA, 1_000));
    let body = encode_simple_movement(EntityId(7), 0, 5, point(1.0, 2.0, 3.0), 0);
    let echo = bridge.client_frame(0x0DA, &body, 1_500, true);
    assert!(!echo.forward);
    assert!(!echo.player_movement);
    let heartbeat = bridge.client_frame(0x0EE, &body, 1_600, false);
    assert!(!heartbeat.forward);
    assert!(!heartbeat.player_movement);
    assert!(bridge.last_bot_visual.is_some());
}

#[test]
fn explicit_movement_takes_locomotion_and_moves_the_character() {
    let mut bridge = bridge_in_world();
    bridge.last_bot_visual = Some((at(1.0), 0x0DA, 1_000));
    let body = encode_simple_movement(EntityId(7), 1, 77, point(4.0, 2.0, 3.0), 0);
    let outcome = bridge.client_frame(0x0B5, &body, 1_200, false);
    assert!(outcome.forward);
    assert!(outcome.player_movement);
    assert!(bridge.last_bot_visual.is_none());
    let moved = WorldPosition { map: 571, point: point(4.0, 2.0, 3.0), orientation: 0 };
    assert_eq!(bridge.canonical_position, Some(moved));
    assert_eq!(bridge.movement_time, 77);
    assert_eq!(
        format!("{:?}", outcome.observation),
        format!("{:?}", Some(ProtocolObservation::PlayerPosition { position: moved, moving: true, flags: 1, client_time: 77 }))
    );
    let late = bridge.client_frame(0x0EE, &body, 9_000, false);
    assert!(late.forward);
    assert!(!late.player_movement);
}

#[test]
fn login_and_time_sync_frames_are_learned() {
    let mut bridge = WorldBridge::new();
    let login = bridge.client_frame(CMSG_PLAYER_LOGIN, &42u64.to_le_bytes(), 0, false);
    assert_eq!(login.player_login, Some(EntityId(42)));
    assert_eq!(bridge.player_guid, Some(EntityId(42)));
    let mut sync = 3u32.to_le_bytes().to_vec();
    sync.extend_from_slice(&9_999u32.to_le_bytes());
    assert!(bridge.client_frame(CMSG_TIME_SYNC_RESP, &sync, 0, false).forward);
    assert_eq!(bridge.movement_time, 9_999);
}

fn loot_response(guid: u64, gold: u32, slots: &[u8]) -> Vec<u8> {
    let mut body = guid.to_le_bytes().to_vec();
    body.push(1);
    body.extend_from_slice(&gold.to_le_bytes());
    body.push(slots.len() as u8);
    for slot in slots {
        let mut record = vec![0u8; 22];
        record[0] = *slot;
        body.extend_from_slice(&record);
    }
    body
}

#[test]
fn bot_loot_is_collected_without_showing_the_window() {
    let mut bridge = bridge_in_world();
    let command = bridge.bot_command(GameplayCommand::Loot(EntityId(9)), 100, 0);
    assert_eq!(command.upstream.len(), 1);
    assert_eq!(bridge.bot_loot_target, Some(EntityId(9)));
    let outcome = bridge.server_frame(SMSG_LOOT_RESPONSE, &loot_response(9, 5, &[0, 2]), 200);
    assert!(!outcome.forward);
    let frames: Vec<(u32, Vec<u8>)> = outcome.upstream.iter().map(|f| (f.opcode, f.body.clone())).collect();
    assert_eq!(
        frames,
        vec![
            (CMSG_LOOT_MONEY, vec![]),
            (CMSG_AUTOSTORE_LOOT_ITEM, vec![0]),
            (CMSG_AUTOSTORE_LOOT_ITEM, vec![2]),
            (CMSG_LOOT_RELEASE, 9u64.to_le_bytes().to_vec()),
        ]
    );
    assert_eq!(
        format!("{:?}", outcome.observation),
        format!("{:?}", Some(ProtocolObservation::LootOpened { target: EntityId(9), ownership: LootOwnership::Bot }))
    );
    let other = bridge.server_frame(SMSG_LOOT_RESPONSE, &loot_response(10, 0, &[1]), 210);
    assert!(other.forward);
    assert!(other.upstream.is_empty());
    let released = bridge.server_frame(SMSG_LOOT_RELEASE_RESPONSE, &[], 300);
    assert!(!released.forward);
    assert_eq!(bridge.bot_loot_target, None);
    assert_eq!(
        format!("{:?}", released.observation),
        format!("{:?}", Some(ProtocolObservation::LootClosed { ownership: LootOwnership::Bot }))
    );
}

#[test]
fn player_loot_request_supersedes_bot_loot() {
    let mut bridge = bridge_in_world();
    bridge.bot_command(GameplayCommand::Loot(EntityId(9)), 100, 0);
    let outcome = bridge.client_frame(0x015D, &9u64.to_le_bytes(), 150, false);
    assert!(outcome.forward);
    assert_eq!(bridge.bot_loot_target, None);
    assert_eq!(
        format!("{:?}", outcome.observation),
        format!("{:?}", Some(ProtocolObservation::LootOpened { target: EntityId(9), ownership: LootOwnership::Player }))
    );
}

#[test]
fn cast_failure_names_the_pending_bot_target() {
    let mut bridge = bridge_in_world();
    bridge.bot_command(GameplayCommand::Cast { spell: 133, target: Some(EntityId(55)) }, 1_000, 0);
    let mut body = vec![1u8];
    body.extend_from_slice(&133u32.to_le_bytes());
    body.push(12);
    let outcome = bridge.server_frame(SMSG_CAST_FAILED, &body, 2_000);
    assert!(outcome.forward);
    assert_eq!(
        format!("{:?}", outcome.observation),
        format!("{:?}", Some(ProtocolObservation::CastFailed { spell: 133, reason: 12, target: Some(EntityId(55)) }))
    );
    assert!(bridge.last_bot_cast.is_none());
}

#[test]
fn world_entry_sets_position_and_authority() {
    let mut bridge = WorldBridge::new();
    bridge.player_guid = Some(EntityId(7));
    let mut body = 571u32.to_le_bytes().to_vec();
    for value in [1.0f32, 2.0, 3.0, 0.5] {
        body.extend_from_slice(&value.to_le_bytes());
    }
    let outcome = bridge.server_frame(SMSG_LOGIN_VERIFY_WORLD, &body, 0);
    assert!(outcome.forward);
    assert!(outcome.world_authoritative);
    assert_eq!(outcome.entered_world, Some((571, EntityId(7))));
    let position = WorldPosition { map: 571, point: point(1.0, 2.0, 3.0), orientation: 0.5f32.to_bits() };
    assert_eq!(bridge.canonical_position, Some(position));
}

#[test]
fn bot_movement_is_sent_shown_and_remembered() {
    let mut bridge = bridge_in_world();
    let outcome = bridge.bot_command(GameplayCommand::MoveTo(point(5.0, 2.0, 3.0)), 4_000, 0);
    assert!(outcome.error.is_none());
    assert_eq!(outcome.upstream.len(), 1);
    let shown = outcome.downstream.expect("visual movement");
    assert_eq!(u32::from(shown.opcode), outcome.upstream[0].opcode);
    assert_eq!(shown.body, outcome.upstream[0].body);
    let moved = WorldPosition { map: 571, point: point(5.0, 2.0, 3.0), orientation: 0 };
    assert_eq!(bridge.canonical_position, Some(moved));
    assert_eq!(bridge.last_bot_visual, Some((moved, outcome.upstream[0].opcode, 4_000)));
    let refused = WorldBridge::new().bot_command(GameplayCommand::StopMovement, 0, 0);
    assert!(refused.error.is_some());
    assert!(refused.upstream.is_empty());
}
