use wow_bot::proxy::session::{ConfiguredSessionState, SessionEffect};
use wow_bot::ids::{AccountId, LaneId};
use wow_bot::proxy::auth::{AdmissionController, AdmissionLimits, AdmissionRefusal};
use wow_bot::proxy::runtime::select_wrath_character;
use sha1::{Digest, Sha1};
use wow_bot::domain::{GameplayCommand, SendableAction, ValidityStamp, Vec3, WorldPosition};
use wow_bot::ids::{ActionId, EntityId, MissionId, MovementEpoch, OwnershipGeneration, StateRevision, WorkerGeneration};
use wow_bot::proxy::commands::chat::{is_local_namespace, ChatFamily};
use wow_bot::proxy::commands::bot::{command_arg, BotCommand, BotCommandError};
use wow_bot::proxy::commands::log::LogCommand;
use wow_bot::proxy::commands::{parse_local, LocalCommand};
use wow_bot::proxy::gameplay::{
    decode_simple_movement, encode_gameplay_command, encode_simple_movement, is_explicit_player_movement_intent,
    is_player_movement_opcode, parse_cast_failed, parse_loot_response, take_bot_cast_failure, CommandError,
    LocomotionRequest,
};
use wow_bot::proxy::ownership::{AccountOwnership, ClientKind, ControlMode};
use wow_bot::proxy::player::PlayerPresence;
use wow_bot::proxy::rc4::Rc4;
use wow_bot::proxy::runtime::{
    bot_targeted_cast, gameplay_movement_context, make_headless_ping, parse_headless_pong, proxy_chat, PlayerWorlds,
};
use wow_bot::proxy::transport_gate::{authorize, GateRejection};
use wow_bot::proxy::warden::{keys, WardenBridge};
use wow_bot::proxy::warden_client::{checks_response, PeImage};

// ----- player presence -----

#[test]
fn failed_idle_resume_uses_virtual_time_and_caps_retry_backoff() {
    let started: u64 = 1_000_000;
    let mut player = PlayerPresence::new(2_000);
    player.bot_on();
    player.moved(started);
    let mut failure_at = started + player.idle_window;

    for delay in [1_000u64, 2_000, 4_000, 8_000, 16_000, 30_000, 30_000] {
        assert!(player.should_resume(failure_at));
        player.resume_failed(failure_at);
        let retry_at = failure_at + delay;
        assert!(!player.should_resume(retry_at - 1));
        assert!(player.should_resume(retry_at));
        failure_at = retry_at;
    }
}

#[test]
fn new_player_movement_resets_resume_retry_delay() {
    let started: u64 = 1_000_000;
    let mut player = PlayerPresence::new(2_000);
    player.bot_on();
    player.moved(started);
    let idle_deadline = started + player.idle_window;
    player.resume_failed(idle_deadline);
    player.moved(idle_deadline + 3_000);

    let next_deadline = idle_deadline + 3_000 + player.idle_window;
    assert!(player.should_resume(next_deadline));
    player.resume_failed(next_deadline);
    assert!(!player.should_resume(next_deadline + 999));
    assert!(player.should_resume(next_deadline + 1_000));
}

// ----- ownership and the transport gate -----

#[test]
fn transition_fences_both_sources_and_stale_ticket_cannot_commit() {
    let mut o = AccountOwnership::default();
    let a = o.begin(ControlMode::Manual);
    assert!(!o.snapshot().permits(ClientKind::Bot));
    assert!(!o.snapshot().permits(ClientKind::Player));
    let b = o.begin(ControlMode::Manual);
    assert_ne!(a.generation, b.generation);
    assert!(!o.commit(a));
    assert!(o.commit(b));
    assert!(o.snapshot().permits(ClientKind::Player));
}

fn action(stamp: ValidityStamp, command: GameplayCommand) -> SendableAction {
    SendableAction { id: ActionId(1), stamp, command }
}

#[test]
fn stale_ownership_is_rejected_at_transport_edge() {
    let owner = AccountOwnership::new(ControlMode::Bot).snapshot();
    let stamp = ValidityStamp {
        state: StateRevision(0),
        mission: 0,
        permission: 0,
        worker: WorkerGeneration(1),
        ownership: OwnershipGeneration(owner.generation.0.wrapping_add(1)),
        movement: owner.movement_epoch,
    };
    assert_eq!(
        authorize(&action(stamp, GameplayCommand::StopMovement), WorkerGeneration(1), owner),
        Err(GateRejection::StaleOwnership)
    );
}

#[test]
fn stale_movement_epoch_is_rejected_even_when_ownership_matches() {
    let owner = AccountOwnership::new(ControlMode::Bot).snapshot();
    let stamp = ValidityStamp {
        state: StateRevision(0),
        mission: 0,
        permission: 0,
        worker: WorkerGeneration(1),
        ownership: owner.generation,
        movement: MovementEpoch(owner.movement_epoch.0.wrapping_add(1)),
    };
    let to = Vec3 { x: 1.0f32.to_bits(), y: 2.0f32.to_bits(), z: 3.0f32.to_bits() };
    assert_eq!(
        authorize(&action(stamp, GameplayCommand::MoveTo(to)), WorkerGeneration(1), owner),
        Err(GateRejection::StaleMovement)
    );
}

#[test]
fn current_stamp_passes_the_gate_for_the_bot() {
    let owner = AccountOwnership::new(ControlMode::Bot).snapshot();
    let stamp = ValidityStamp {
        state: StateRevision(0),
        mission: 0,
        permission: 0,
        worker: WorkerGeneration(1),
        ownership: owner.generation,
        movement: owner.movement_epoch,
    };
    assert_eq!(authorize(&action(stamp, GameplayCommand::StopMovement), WorkerGeneration(1), owner), Ok(()));
    assert_eq!(
        authorize(&action(stamp, GameplayCommand::StopMovement), WorkerGeneration(2), owner),
        Err(GateRejection::StaleWorker)
    );
}

// ----- commands and chat -----

#[test]
fn recognized_is_local_and_unknown_dot_passes() {
    let c = parse_local(".bot gather \"Copper Vein\"", ChatFamily::Party, true, MissionId(9)).unwrap().unwrap();
    match c {
        LocalCommand::Bot(BotCommand::Mission(m)) => assert_eq!(
            m.intent,
            wow_bot::domain::MissionIntent::Gather { resource: "Copper Vein".into() }
        ),
        _ => panic!("wrong command"),
    };
    assert!(parse_local(".tele stormwind", ChatFamily::Say, true, MissionId(10)).unwrap().is_none());
    assert!(parse_local(".bot on", ChatFamily::Say, false, MissionId(10)).unwrap().is_none());
}

#[test]
fn local_command_namespace_and_log_commands() {
    assert!(is_local_namespace("  .BOT on"));
    assert!(is_local_namespace(".log"));
    assert!(!is_local_namespace(".bottle"));
    assert_eq!(
        parse_local(".log mark  boss pull ", ChatFamily::Raid, true, MissionId(1)).unwrap(),
        Some(LocalCommand::Log(LogCommand::Mark(Some("boss pull".into()))))
    );
    assert_eq!(
        parse_local(".LOG Status", ChatFamily::Guild, true, MissionId(1)).unwrap(),
        Some(LocalCommand::Log(LogCommand::Status))
    );
    assert!(parse_local(".bot on", ChatFamily::Other, true, MissionId(1)).unwrap().is_none());
}

#[test]
fn party_roles_are_checked() {
    let ok = parse_local(".bot raid heal", ChatFamily::Raid, true, MissionId(3)).unwrap().unwrap();
    match ok {
        LocalCommand::Bot(BotCommand::Mission(m)) => {
            assert_eq!(m.intent, wow_bot::domain::MissionIntent::Raid { role: wow_bot::domain::GroupRole::Healer });
            assert_eq!(m.permissions, Some(31));
        }
        _ => panic!("wrong command"),
    }
    let err = parse_local(".bot party bard", ChatFamily::Party, true, MissionId(3)).unwrap_err();
    assert_eq!(err, BotCommandError::UnsupportedRole("bard".into()));
    assert_eq!(err.message(), "unsupported group role: bard");
    assert_eq!(command_arg("grind  \"Murlocs\" ", "GRIND"), Some("Murlocs"));
    assert_eq!(command_arg("grind", "grind"), None);
}

fn chat_body(chat_type: u32, target: Option<&str>, message: &str) -> Vec<u8> {
    let mut body = Vec::new();
    body.extend_from_slice(&chat_type.to_le_bytes());
    body.extend_from_slice(&0_u32.to_le_bytes());
    if let Some(target) = target {
        body.extend_from_slice(target.as_bytes());
        body.push(0);
    }
    body.extend_from_slice(message.as_bytes());
    body.push(0);
    body
}

#[test]
fn bot_on_and_off_are_extracted_from_say_chat() {
    for text in [".bot on", ".bot off"] {
        let body = chat_body(1, None, text);
        let (family, extracted) = proxy_chat(&body).expect("chat should parse");
        assert_eq!(extracted, text);
        let parsed = parse_local(&extracted, family, true, MissionId(1)).unwrap();
        assert!(matches!(parsed, Some(LocalCommand::Bot(_))));
    }
}

#[test]
fn local_commands_are_extracted_from_whisper_and_channel() {
    for (chat_type, target) in [(7, "Target"), (17, "General")] {
        let body = chat_body(chat_type, Some(target), ".log status");
        let (family, extracted) = proxy_chat(&body).expect("chat should parse");
        assert_eq!(extracted, ".log status");
        assert!(matches!(
            parse_local(&extracted, family, true, MissionId(1)).unwrap(),
            Some(LocalCommand::Log(_))
        ));
    }
}

// ----- movement opcodes and context -----

#[test]
fn passive_movement_feedback_does_not_count_as_player_intent() {
    for opcode in [0x0B7, 0x0BA, 0x0BE, 0x0C1, 0x0C2, 0x0C3, 0x0C9, 0x0CB, 0x0EE, 0x35A] {
        assert!(is_player_movement_opcode(opcode));
        assert!(!is_explicit_player_movement_intent(opcode), "opcode {opcode:#x} must remain passive");
    }
}

#[test]
fn explicit_start_turn_jump_and_facing_packets_take_player_control() {
    for opcode in [0x0B5, 0x0B6, 0x0B8, 0x0B9, 0x0BB, 0x0BC, 0x0BD, 0x0BF, 0x0C0, 0x0CA, 0x0DA, 0x0DB, 0x359, 0x3A7] {
        assert!(is_player_movement_opcode(opcode));
        assert!(is_explicit_player_movement_intent(opcode), "opcode {opcode:#x} must count as explicit intent");
    }
}

fn point(x: f32, y: f32, z: f32) -> Vec3 {
    Vec3 { x: x.to_bits(), y: y.to_bits(), z: z.to_bits() }
}

#[test]
fn controlled_mover_state_takes_precedence_with_player_fallback() {
    let player_position = WorldPosition { map: 1, point: point(1.0, 2.0, 3.0), orientation: 0.5f32.to_bits() };
    let context = gameplay_movement_context(Some(EntityId(2)), None, 0x20, Some(EntityId(1)), Some(player_position), 0x10);
    assert_eq!(context.mover, Some(EntityId(2)));
    assert_eq!(context.position, Some(player_position));
    assert_eq!(context.flags, 0x20);
}

#[test]
fn player_state_is_used_without_a_controlled_mover() {
    let player_position = WorldPosition { map: 1, point: point(1.0, 2.0, 3.0), orientation: 0.5f32.to_bits() };
    let context = gameplay_movement_context(None, None, 0x20, Some(EntityId(1)), Some(player_position), 0x10);
    assert_eq!(context.mover, Some(EntityId(1)));
    assert_eq!(context.position, Some(player_position));
    assert_eq!(context.flags, 0x10);
}

#[test]
fn headless_waits_for_final_overlapping_player_connection() {
    let mut worlds = PlayerWorlds::new();
    let first = worlds.begin();
    let second = worlds.begin();
    assert_ne!(first, second);
    assert!(!worlds.end(first));
    assert!(worlds.end(second));
}

#[test]
fn failed_player_setup_restores_headless_when_no_player_remains() {
    let mut worlds = PlayerWorlds::new();
    let handoff = worlds.begin();
    assert!(!worlds.active.is_empty());
    assert!(worlds.end(handoff));
}

#[test]
fn headless_keepalive_uses_wrath_ping_fields() {
    let ping = make_headless_ping(0x1234_5678, 42);
    assert_eq!(ping.opcode, 0x01DC);
    assert_eq!(ping.body, [0x78, 0x56, 0x34, 0x12, 42, 0, 0, 0]);
    assert_eq!(parse_headless_pong(&0x1234_5678_u32.to_le_bytes()), Some(0x1234_5678));
    assert_eq!(parse_headless_pong(&[1, 2]), None);
}

// ----- gameplay encoding -----

#[test]
fn encodes_gameobject_spell_with_gameobject_target() {
    let mut movement_clock = 0u32;
    let (frame, movement) = encode_gameplay_command(
        GameplayCommand::CastGameObject { spell: 6247, target: EntityId(191609), report_use: true },
        None,
        None,
        0,
        &mut movement_clock,
        0,
    )
    .unwrap()
    .unwrap();
    assert_eq!(frame.opcode, 0x012E);
    assert!(movement.is_none());
    assert_eq!(frame.body[0], 0);
    assert_eq!(u32::from_le_bytes(frame.body[1..5].try_into().unwrap()), 6247);
    assert_eq!(u32::from_le_bytes(frame.body[6..10].try_into().unwrap()), 0x0000_0800);
}

#[test]
fn face_direction_uses_wrath_set_facing_movement_opcode() {
    let mut movement_clock = 0u32;
    let current = WorldPosition { map: 1, point: point(1.0, 2.0, 3.0), orientation: 0.0f32.to_bits() };
    let orientation = std::f32::consts::PI;
    let heading = orientation.rem_euclid(std::f32::consts::TAU);
    let (frame, movement) = encode_gameplay_command(
        GameplayCommand::FaceDirection { orientation: orientation.to_bits() },
        Some(EntityId(77)),
        Some(current),
        0,
        &mut movement_clock,
        heading.to_bits(),
    )
    .unwrap()
    .unwrap();
    assert_eq!(frame.opcode, 0x00DA);
    let (position, moving, _, _) = movement.expect("facing updates canonical movement state");
    assert!(!moving);
    assert!((f32::from_bits(position.orientation) - std::f32::consts::PI).abs() < 1.0e-5);
    assert_eq!(movement_clock, 1);
}

#[test]
fn locomotion_needs_guid_position_and_finite_values() {
    let mut clock = u32::MAX;
    let current = WorldPosition { map: 0, point: point(0.0, 0.0, 0.0), orientation: 0 };
    assert_eq!(
        encode_gameplay_command(GameplayCommand::StopMovement, None, Some(current), 0, &mut clock, 0).unwrap_err(),
        CommandError::NoPlayerGuid(LocomotionRequest::StopMovement)
    );
    assert_eq!(
        encode_gameplay_command(GameplayCommand::MoveTo(point(1.0, 1.0, 0.0)), Some(EntityId(5)), None, 0, &mut clock, 0)
            .unwrap_err(),
        CommandError::NoPosition(LocomotionRequest::Movement)
    );
    assert_eq!(
        encode_gameplay_command(
            GameplayCommand::FaceDirection { orientation: f32::NAN.to_bits() },
            Some(EntityId(5)),
            Some(current),
            0,
            &mut clock,
            0
        )
        .unwrap_err(),
        CommandError::InvalidOrientation
    );
    assert_eq!(clock, u32::MAX);
    let (frame, update) = encode_gameplay_command(
        GameplayCommand::MoveTo(point(1.0, 1.0, 0.0)),
        Some(EntityId(5)),
        Some(current),
        0x1000,
        &mut clock,
        0.75f32.to_bits(),
    )
    .unwrap()
    .unwrap();
    assert_eq!(frame.opcode, 0x00EE);
    let (position, moving, flags, time) = update.unwrap();
    assert!(moving);
    assert_eq!(flags, 0x1001);
    assert_eq!(time, 249);
    assert_eq!(clock, 249);
    assert_eq!(position.point, point(1.0, 1.0, 0.0));
    let decoded = decode_simple_movement(&frame.body).unwrap();
    assert_eq!(decoded, (EntityId(5), 0x1001, 249, point(1.0, 1.0, 0.0), 0.75f32.to_bits()));
}

#[test]
fn simple_movement_round_trips() {
    let body = encode_simple_movement(EntityId(0x0102_0000_0000_0304), 7, 99, point(-1.5, 2.0, 8.25), 1.0f32.to_bits());
    assert_eq!(body[0], 0b1100_0011);
    assert_eq!(
        decode_simple_movement(&body),
        Some((EntityId(0x0102_0000_0000_0304), 7, 99, point(-1.5, 2.0, 8.25), 1.0f32.to_bits()))
    );
    let bad = encode_simple_movement(EntityId(1), 0, 0, point(f32::INFINITY, 0.0, 0.0), 0);
    assert_eq!(decode_simple_movement(&bad), None);
}

#[test]
fn encodes_controlled_unit_spell_with_unit_target() {
    let mut movement_clock = 0u32;
    let (frame, movement) = encode_gameplay_command(
        GameplayCommand::VehicleCast { spell: 51858, target: Some(EntityId(28525)) },
        Some(EntityId(28511)),
        None,
        0,
        &mut movement_clock,
        0,
    )
    .unwrap()
    .unwrap();
    assert_eq!(frame.opcode, 0x012E);
    assert!(movement.is_none());
    assert_eq!(frame.body[0], 0);
    assert_eq!(u32::from_le_bytes(frame.body[1..5].try_into().unwrap()), 51858);
    assert_eq!(u32::from_le_bytes(frame.body[6..10].try_into().unwrap()), 2);
}

#[test]
fn quest_encoder_matches_azerothcore_handlers() {
    let mut movement_clock = 0u32;
    let (query, _) =
        encode_gameplay_command(GameplayCommand::QueryQuestGivers, None, None, 0, &mut movement_clock, 0).unwrap().unwrap();
    assert_eq!(query.opcode, 0x0417);
    assert!(query.body.is_empty());

    let (hello, _) =
        encode_gameplay_command(GameplayCommand::Interact(EntityId(77)), None, None, 0, &mut movement_clock, 0).unwrap().unwrap();
    assert_eq!(hello.opcode, 0x0184);
    assert_eq!(hello.body, 77_u64.to_le_bytes());

    let (accept, _) = encode_gameplay_command(
        GameplayCommand::AcceptQuest { quest: 42, giver: EntityId(77) },
        None,
        None,
        0,
        &mut movement_clock,
        0,
    )
    .unwrap()
    .unwrap();
    assert_eq!(accept.opcode, 0x0189);
    assert_eq!(accept.body.len(), 16);
    assert_eq!(&accept.body[0..8], &77_u64.to_le_bytes());
    assert_eq!(&accept.body[8..12], &42_u32.to_le_bytes());
    assert_eq!(&accept.body[12..16], &0_u32.to_le_bytes());

    let (request_reward, _) = encode_gameplay_command(
        GameplayCommand::RequestQuestReward { quest: 42, giver: EntityId(77) },
        None,
        None,
        0,
        &mut movement_clock,
        0,
    )
    .unwrap()
    .unwrap();
    assert_eq!(request_reward.opcode, 0x018C);
    assert_eq!(&request_reward.body[0..8], &77_u64.to_le_bytes());
    assert_eq!(&request_reward.body[8..12], &42_u32.to_le_bytes());

    let (choose_reward, _) = encode_gameplay_command(
        GameplayCommand::ChooseQuestReward { quest: 42, giver: EntityId(77), reward: 0 },
        None,
        None,
        0,
        &mut movement_clock,
        0,
    )
    .unwrap()
    .unwrap();
    assert_eq!(choose_reward.opcode, 0x018E);
    assert_eq!(&choose_reward.body[12..16], &0_u32.to_le_bytes());
    assert_eq!(movement_clock, 0);
}

#[test]
fn targeted_spell_correlation_covers_item_and_controlled_casts() {
    assert_eq!(
        bot_targeted_cast(&GameplayCommand::VehicleCast { spell: 51858, target: Some(EntityId(2)) }),
        Some((51858, Some(EntityId(2))))
    );
    assert_eq!(
        bot_targeted_cast(&GameplayCommand::UseItemInstance {
            item: 16114,
            item_guid: EntityId(9),
            backpack_slot: 3,
            spell: 19938,
            target: Some(EntityId(4)),
            cast_count: 0
        }),
        Some((19938, Some(EntityId(4))))
    );
    assert_eq!(
        bot_targeted_cast(&GameplayCommand::CastGameObject { spell: 6247, target: EntityId(5), report_use: true }),
        Some((6247, Some(EntityId(5))))
    );
}

#[test]
fn parses_azerothcore_cast_failed_layout() {
    let mut body = Vec::new();
    body.push(3);
    body.extend_from_slice(&51858_u32.to_le_bytes());
    body.push(47);
    assert_eq!(parse_cast_failed(&body), Some((3, 51858, 47)));
}

#[test]
fn cast_failure_is_attributed_only_to_a_recent_matching_bot_cast() {
    let mut body = vec![1];
    body.extend_from_slice(&133_u32.to_le_bytes());
    body.push(12);
    let mut pending = Some((133, Some(EntityId(8)), 10_000));
    assert_eq!(take_bot_cast_failure(&body, &mut pending, 14_999), Some((1, 133, 12, Some(EntityId(8)))));
    assert_eq!(pending, None);
    let mut stale = Some((133, Some(EntityId(8)), 10_000));
    assert_eq!(take_bot_cast_failure(&body, &mut stale, 15_000), Some((1, 133, 12, None)));
    let mut other = Some((7, Some(EntityId(8)), 10_000));
    assert_eq!(take_bot_cast_failure(&body, &mut other, 10_001), Some((1, 133, 12, None)));
    let mut kept = Some((7, None, 0));
    assert_eq!(take_bot_cast_failure(&body[..5], &mut kept, 0), None);
    assert_eq!(kept, Some((7, None, 0)));
}

fn loot_body(guid: u64, gold: u32, slots: &[u8]) -> Vec<u8> {
    let mut body = Vec::new();
    body.extend_from_slice(&guid.to_le_bytes());
    body.push(1);
    body.extend_from_slice(&gold.to_le_bytes());
    body.push(slots.len() as u8);
    for slot in slots {
        body.push(*slot);
        body.extend_from_slice(&100_u32.to_le_bytes());
        body.extend_from_slice(&1_u32.to_le_bytes());
        body.extend_from_slice(&200_u32.to_le_bytes());
        body.extend_from_slice(&0_u32.to_le_bytes());
        body.extend_from_slice(&0_u32.to_le_bytes());
        body.push(0);
    }
    body
}

#[test]
fn parses_wrath_loot_response_slots() {
    let guid = 0x1122_3344_5566_7788_u64;
    let body = loot_body(guid, 7, &[1, 2, 3]);
    assert_eq!(body.len(), 80);
    let (parsed_guid, gold, slots) = parse_loot_response(&body).expect("loot response should parse");
    assert_eq!(parsed_guid, guid);
    assert_eq!(gold, 7);
    assert_eq!(slots, vec![1, 2, 3]);
    assert_eq!(parse_loot_response(&body[..79]), None);
}

#[test]
fn parses_sanitized_azerothcore_loot_capture_fixtures() {
    let fixtures = [
        (loot_body(0xF130_000C_3400_834E, 0, &[0, 1]), 0xF130_000C_3400_834E, vec![0, 1]),
        (loot_body(0xF130_000C_3400_AA70, 0, &[0, 1, 2]), 0xF130_000C_3400_AA70, vec![0, 1, 2]),
    ];
    for (body, expected_guid, expected_slots) in fixtures {
        assert_eq!(body.len(), 14 + expected_slots.len() * 22);
        let (guid, gold, slots) = parse_loot_response(&body).expect("captured Wrath loot response should parse");
        assert_eq!(guid, expected_guid);
        assert_eq!(gold, 0);
        assert_eq!(slots, expected_slots);
    }
}

// ----- Warden -----

#[test]
fn check_reply_has_valid_length_checksum_and_memory_bytes() {
    let mut bytes = vec![0; 32];
    bytes[4..7].copy_from_slice(&[0x12, 0x34, 0x56]);
    let image = PeImage { base: 0x400000, bytes };
    let xor = 0xA7;
    let mut request = vec![0, 0x57 ^ xor, 0xF3 ^ xor, 0];
    request.extend_from_slice(&0x400004_u32.to_le_bytes());
    request.push(3);
    request.push(xor);
    let response = checks_response(&request, &image, 0).unwrap();
    assert_eq!(response[0], 2);
    assert_eq!(u16::from_le_bytes([response[1], response[2]]) as usize, response.len() - 7);
    assert_eq!(&response[response.len() - 4..], &[0, 0x12, 0x34, 0x56]);
    let digest: [u8; 20] = Sha1::digest(&response[7..]).into();
    let expected = digest.chunks_exact(4).fold(0_u32, |sum, chunk| sum ^ u32::from_le_bytes(chunk.try_into().unwrap()));
    assert_eq!(u32::from_le_bytes(response[3..7].try_into().unwrap()), expected);
}

#[test]
fn unknown_check_fails_closed() {
    let image = PeImage { base: 0, bytes: vec![] };
    assert!(checks_response(&[0, 0xAA, 0], &image, 0).is_err());
}

#[test]
fn translates_initial_packets_and_leaves_module_packets_unchanged() {
    let upstream = [0x11; 40];
    let downstream = [0xA7; 40];
    let (up_input, up_output) = keys(&upstream);
    let (down_input, down_output) = keys(&downstream);
    let mut bridge = WardenBridge::new(&upstream, &downstream);

    let mut server = b"server request".to_vec();
    Rc4::new(&up_output).apply(&mut server);
    bridge.server_to_client(&mut server);
    Rc4::new(&down_output).apply(&mut server);
    assert_eq!(server, b"server request");

    let mut client = vec![4, 1, 2, 3];
    Rc4::new(&down_input).apply(&mut client);
    bridge.client_to_server(&mut client);
    Rc4::new(&up_input).apply(&mut client);
    assert_eq!(client, [4, 1, 2, 3]);

    let mut module_packet = vec![9, 8, 7];
    bridge.server_to_client(&mut module_packet);
    assert_eq!(module_packet, [9, 8, 7]);
}

#[test]
fn rc4_applied_twice_with_one_key_restores_the_data() {
    let key = [3u8, 1, 4, 1, 5];
    let mut data = b"some warden payload".to_vec();
    Rc4::new(&key).apply(&mut data);
    assert_ne!(data, b"some warden payload");
    Rc4::new(&key).apply(&mut data);
    assert_eq!(data, b"some warden payload");
}

fn character_entry(guid: u64, name: &str) -> Vec<u8> {
    let mut entry = guid.to_le_bytes().to_vec();
    entry.extend_from_slice(name.as_bytes());
    entry.push(0);
    entry.extend_from_slice(&[0u8; wow_bot::proxy::runtime::CHARACTER_TAIL]);
    entry
}

fn character_list(entries: &[(u64, &str)]) -> Vec<u8> {
    let mut body = vec![entries.len() as u8];
    for (guid, name) in entries {
        body.extend_from_slice(&character_entry(*guid, name));
    }
    body
}

#[test]
fn character_selection_prefers_the_configured_name_ignoring_case() {
    let body = character_list(&[(1, "Alpha"), (2, "Bravo")]);
    assert_eq!(select_wrath_character(&body, Some("bRAVO")), Some((2, "Bravo".to_string())));
    assert_eq!(select_wrath_character(&body, None), Some((1, "Alpha".to_string())));
    assert_eq!(select_wrath_character(&body, Some("  ")), Some((1, "Alpha".to_string())));
    assert_eq!(select_wrath_character(&body, Some("Zed")), None);
    assert_eq!(select_wrath_character(&[], None), None);
    let truncated = &body[..body.len() - 1];
    assert_eq!(select_wrath_character(truncated, None), None);
    assert_eq!(select_wrath_character(truncated, Some("Bravo")), Some((2, "Bravo".to_string())));
}

#[test]
fn admission_limits_total_and_per_address_and_release_restores() {
    let mut admission = AdmissionController::new(AdmissionLimits { max_total: 2, max_per_ip: 1 });
    let first = admission.try_acquire(1).unwrap();
    assert_eq!(first.ip(), 1);
    assert_eq!(admission.try_acquire(1).unwrap_err(), AdmissionRefusal::PerIpLimit);
    assert_eq!(admission.try_acquire(1).unwrap_err().message(), "per-IP pre-authentication limit reached");
    let second = admission.try_acquire(2).unwrap();
    assert_eq!(admission.try_acquire(3).unwrap_err(), AdmissionRefusal::GlobalLimit);
    assert_eq!(admission.total(), 2);
    admission.release(first);
    assert_eq!(admission.total(), 1);
    assert_eq!(admission.count(1), 0);
    assert_eq!(admission.count(2), 1);
    let again = admission.try_acquire(1).unwrap();
    assert_eq!(again.ip(), 1);
    admission.release(second);
    admission.release(again);
    assert_eq!(admission.total(), 0);
}

fn bot_allowed_published(effects: &[SessionEffect]) -> Option<bool> {
    effects.iter().rev().find_map(|effect| match effect {
        SessionEffect::PublishOwnership { bot_allowed, .. } => Some(*bot_allowed),
        _ => None,
    })
}

#[test]
fn older_player_disconnect_preserves_newer_world_session() {
    let mut state = ConfiguredSessionState::new(AccountId(1), LaneId(1), WorkerGeneration(0));
    state.attach_player(1);
    state.attach_paused(1, true);
    state.attach_player(2);
    state.attach_paused(2, true);
    state.upstream_connected_changed(true);
    state.world_authoritative_changed(true);

    state.player_detached(1);
    assert_eq!(state.player.count(), 1);
    assert!(state.upstream_connected);
    assert!(state.world_authoritative);

    state.bot_on();
    assert!(state.ownership.snapshot().bot_allowed());

    state.player_detached(2);
    assert_eq!(state.player.count(), 0);
    assert!(!state.upstream_connected);
    assert!(!state.world_authoritative);
}

fn moved_session(moved_at: u64) -> ConfiguredSessionState {
    let mut state = ConfiguredSessionState::new(AccountId(1), LaneId(1), WorkerGeneration(0));
    state.upstream_connected = true;
    state.player.bot_on();
    state.player.moved(moved_at);
    state.ownership.player_attached_bot_on();
    state.ownership.player_movement_takeover();
    state
}

#[test]
fn idle_resume_is_published_only_after_supervisor_accepts_resume() {
    let moved_at = 10_000;
    let mut state = moved_session(moved_at);
    let ticket = state.tick(moved_at + state.player.idle_window).expect("resume request");
    let effects = state.resume_outcome(ticket, true, moved_at + state.player.idle_window);
    assert!(!state.player.idle_resume_armed);
    assert!(state.ownership.snapshot().bot_allowed());
    assert_eq!(bot_allowed_published(&effects), Some(true));
}

#[test]
fn failed_idle_resume_keeps_resume_armed_and_does_not_publish_bot_ownership() {
    let moved_at = 10_000;
    let mut state = moved_session(moved_at);
    let idle_deadline = moved_at + state.player.idle_window;
    let ticket = state.tick(idle_deadline).expect("resume request");
    let effects = state.resume_outcome(ticket, false, idle_deadline);
    assert!(state.player.idle_resume_armed);
    assert!(!state.ownership.snapshot().bot_allowed());
    assert_eq!(bot_allowed_published(&effects), Some(false));
    assert!(state.tick(idle_deadline + 250).is_none());
}

#[test]
fn bot_off_keeps_resume_unscheduled_until_bot_on() {
    let mut presence = PlayerPresence::new(5000);
    presence.attach(1);
    presence.moved(100);
    presence.bot_off();
    presence.moved(200);
    presence.block_channel_until(300);
    presence.resume_failed(400);
    presence.resumed();
    presence.detach(1);
    presence.moved(500);
    assert_eq!(presence.resume_deadline(), None);
    assert!(!presence.should_resume(u64::MAX / 2));
    presence.bot_on();
    presence.moved(600);
    assert_eq!(presence.resume_deadline(), Some(5600));
}

#[test]
fn resumed_waits_for_the_next_movement() {
    let mut presence = PlayerPresence::new(5000);
    presence.moved(100);
    presence.resumed();
    assert_eq!(presence.resume_deadline(), None);
    assert!(!presence.should_resume(1_000_000));
    presence.moved(2000);
    assert_eq!(presence.resume_deadline(), Some(7000));
}
