use wow_bot::domain::{GameplayCommand, Vec3, WorldPosition};
use wow_bot::ids::EntityId;
use wow_bot::proxy::headless::{
    HeadlessSession, CMSG_CHAR_ENUM, CMSG_PLAYER_LOGIN, MSG_MOVE_WORLDPORT_ACK, SMSG_AUTH_RESPONSE, SMSG_CHAR_ENUM,
    SMSG_NEW_WORLD, SMSG_TIME_SYNC_REQ, SMSG_TRANSFER_PENDING,
};
use wow_bot::proxy::bridge::CMSG_TIME_SYNC_RESP;
use wow_bot::proxy::headless::HeadlessReconnect;
use wow_bot::proxy::bridge::SMSG_LOGIN_VERIFY_WORLD;
use wow_bot::proxy::runtime::CHARACTER_TAIL;
use wow_bot::state::observation::ProtocolObservation;

fn point(x: f32, y: f32, z: f32) -> Vec3 {
    Vec3 { x: x.to_bits(), y: y.to_bits(), z: z.to_bits() }
}

fn character_list(entries: &[(u64, &str)]) -> Vec<u8> {
    let mut body = vec![entries.len() as u8];
    for (guid, name) in entries {
        body.extend_from_slice(&guid.to_le_bytes());
        body.extend_from_slice(name.as_bytes());
        body.push(0);
        body.extend_from_slice(&[0u8; CHARACTER_TAIL]);
    }
    body
}

fn world_entry(map: u32, x: f32) -> Vec<u8> {
    let mut body = map.to_le_bytes().to_vec();
    for value in [x, 2.0f32, 3.0, 0.0] {
        body.extend_from_slice(&value.to_le_bytes());
    }
    body
}

#[test]
fn headless_login_asks_for_characters_and_logs_in_once() {
    let mut session = HeadlessSession::new();
    let auth = session.server_frame(SMSG_AUTH_RESPONSE, &[12], 0, Some("Bravo"));
    assert!(auth.consumed);
    assert_eq!(auth.upstream.len(), 1);
    assert_eq!(auth.upstream[0].opcode, CMSG_CHAR_ENUM);
    assert!(session.server_frame(SMSG_AUTH_RESPONSE, &[12], 0, Some("Bravo")).upstream.is_empty());

    let list = character_list(&[(1, "Alpha"), (2, "Bravo")]);
    let login = session.server_frame(SMSG_CHAR_ENUM, &list, 0, Some("Bravo"));
    assert!(login.consumed);
    assert_eq!(login.set_player, Some(EntityId(2)));
    assert_eq!(login.upstream[0].opcode, CMSG_PLAYER_LOGIN);
    assert_eq!(login.upstream[0].body, 2u64.to_le_bytes().to_vec());
    assert_eq!(session.bridge.player_guid, Some(EntityId(2)));
    assert!(session.server_frame(SMSG_CHAR_ENUM, &list, 0, Some("Bravo")).upstream.is_empty());
}

#[test]
fn headless_missing_character_ends_the_session() {
    let mut session = HeadlessSession::new();
    let list = character_list(&[(1, "Alpha")]);
    let outcome = session.server_frame(SMSG_CHAR_ENUM, &list, 0, Some("Zed"));
    assert!(outcome.missing_character);
    assert!(outcome.upstream.is_empty());
    assert!(!session.player_login_requested);
}

#[test]
fn headless_world_entry_starts_questing() {
    let mut session = HeadlessSession::new();
    session.bridge.player_guid = Some(EntityId(2));
    let outcome = session.server_frame(SMSG_LOGIN_VERIFY_WORLD, &world_entry(0, 1.0), 0, None);
    assert!(outcome.world_authoritative);
    assert!(outcome.start_questing);
    assert_eq!(outcome.entered_world, Some((0, EntityId(2))));
    assert_eq!(
        session.bridge.canonical_position,
        Some(WorldPosition { map: 0, point: point(1.0, 2.0, 3.0), orientation: 0 })
    );
}

#[test]
fn headless_world_transfer_drops_locomotion_until_the_new_world() {
    let mut session = HeadlessSession::new();
    session.bridge.player_guid = Some(EntityId(2));
    session.bridge.canonical_position = Some(WorldPosition { map: 0, point: point(1.0, 2.0, 3.0), orientation: 0 });
    session.bridge.controlled_mover = Some(EntityId(99));
    session.server_frame(SMSG_TRANSFER_PENDING, &[], 0, None);
    assert!(session.world_transfer_pending);
    let dropped = session.bot_command(GameplayCommand::StopMovement, 10, 0);
    assert!(dropped.upstream.is_none() && dropped.error.is_none());
    let other = session.bot_command(GameplayCommand::QueryQuestGivers, 10, 0);
    assert!(other.upstream.is_some());

    let arrived = session.server_frame(SMSG_NEW_WORLD, &world_entry(530, 7.0), 20, None);
    assert_eq!(arrived.upstream.len(), 1);
    assert_eq!(arrived.upstream[0].opcode, MSG_MOVE_WORLDPORT_ACK);
    assert_eq!(arrived.entered_world, Some((530, EntityId(2))));
    assert!(!session.world_transfer_pending);
    assert_eq!(session.bridge.controlled_mover, None);
    let position = WorldPosition { map: 530, point: point(7.0, 2.0, 3.0), orientation: 0 };
    assert_eq!(
        format!("{:?}", arrived.observation),
        format!("{:?}", Some(ProtocolObservation::EnteredWorld { character_guid: 2, position: Some(position) }))
    );
    let stop = session.bot_command(GameplayCommand::StopMovement, 30, 0);
    assert!(stop.upstream.is_some());
    assert!(matches!(stop.observation, Some(ProtocolObservation::PlayerPosition { .. })));
}

#[test]
fn time_sync_is_answered_with_the_counter_and_the_movement_clock() {
    let mut session = HeadlessSession::new();
    session.bridge.movement_time = 0x0102_0304;
    assert_eq!(SMSG_TIME_SYNC_REQ, 0x0390);
    let reply = session.time_sync_reply(&[7, 0, 0, 0]).expect("counter present");
    assert_eq!(reply.opcode, CMSG_TIME_SYNC_RESP);
    assert_eq!(reply.body, vec![7, 0, 0, 0, 4, 3, 2, 1]);
    assert!(session.time_sync_reply(&[7, 0, 0]).is_none());
}

#[test]
fn reconnect_delay_doubles_up_to_fifteen_seconds_and_restarts_after_a_player() {
    let mut policy = HeadlessReconnect::new();
    let waits: Vec<Option<u64>> = (0..6).map(|_| policy.session_ended(true)).collect();
    assert_eq!(waits, vec![Some(1000), Some(2000), Some(4000), Some(8000), Some(15000), Some(15000)]);
    assert_eq!(policy.session_ended(false), None);
    assert_eq!(policy.retry_ms, 1000);
    assert_eq!(policy.session_ended(true), Some(1000));
}
