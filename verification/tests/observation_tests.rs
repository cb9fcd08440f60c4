use wow_bot::bytes::push_packed_guid;
use wow_bot::ids::EntityId;
use wow_bot::proxy::observations::{
    controlled_abilities_observation, maintenance_observations_at, parse_aura_update, parse_aura_update_all,
    parse_channel_start, parse_channel_update, parse_combo_points, parse_corpse_query, parse_initial_spells,
    parse_multiple_quest_status, parse_player_runes, parse_quest_list, parse_quest_offer_reward,
    parse_quest_query_response, parse_quest_request_items, parse_reclaim_delay, parse_single_quest_status,
    parse_spell_cooldowns, parse_spell_go, parse_spell_start, quest_observations,
};
use wow_bot::state::auras::AuraInstance;
use wow_bot::state::observation::ProtocolObservation;
use wow_bot::state::quests::{QuestTargetKind, QuestTurnInDialog, QuestTurnInStage};

const NOW: u64 = 1_700_000_000_000;

#[test]
fn rune_observation_requires_six_valid_runes() {
    let mut packet = 6u32.to_le_bytes().to_vec();
    packet.extend_from_slice(&[0, 255, 1, 0, 2, 255, 3, 0, 1, 255, 2, 0]);
    let runes = parse_player_runes(&packet).expect("six rune states");
    assert_eq!(runes.len(), 6);
    assert!(runes[0].ready);
    assert!(!runes[1].ready);

    assert!(parse_player_runes(&packet[..packet.len() - 1]).is_none());
    packet[4] = 4;
    assert!(parse_player_runes(&packet).is_none());
}

#[test]
fn combo_points_decode_packed_target_and_reject_trailing_bytes() {
    let packet = [0b0000_0010, 0x34, 5];
    assert!(matches!(
        parse_combo_points(&packet),
        ProtocolObservation::ComboPoints { target: Some(EntityId(0x3400)), points: Some(5) }
    ));
    assert!(matches!(
        parse_combo_points(&[0b0000_0010, 0x34, 5, 9]),
        ProtocolObservation::ComboPoints { target: Some(EntityId(0x3400)), points: None }
    ));
}

#[test]
fn cooldown_flags_observe_global_cooldown_start() {
    let mut packet = vec![0; 9];
    packet[8] = 1;
    packet.extend_from_slice(&123u32.to_le_bytes());
    packet.extend_from_slice(&500u32.to_le_bytes());
    let observations = parse_spell_cooldowns(&packet, NOW);
    assert_eq!(observations.len(), 2);
    assert!(matches!(observations[0], ProtocolObservation::SpellCooldown { spell: 123, ready_at_ms } if ready_at_ms == NOW + 500));
    assert!(matches!(observations[1], ProtocolObservation::SpellGlobalCooldown { spell: 123, started_at_ms } if started_at_ms == NOW));
}

#[test]
fn cast_start_and_channel_packets_share_millisecond_deadlines() {
    let spell = 133u32;
    let duration = 1_500u32;

    let mut spell_start = vec![0, 1, 0x34, 1];
    spell_start.extend_from_slice(&spell.to_le_bytes());
    spell_start.extend_from_slice(&0u32.to_le_bytes());
    spell_start.extend_from_slice(&duration.to_le_bytes());
    let ProtocolObservation::CastStarted { caster, spell: observed_spell, started_at_ms, ends_at_ms } =
        parse_spell_start(&spell_start, NOW).expect("valid spell start")
    else {
        panic!("spell start observation expected")
    };
    assert_eq!(caster, EntityId(0x34));
    assert_eq!(observed_spell, spell);
    assert_eq!(ends_at_ms - started_at_ms, u64::from(duration));
    assert!(parse_spell_start(&spell_start[..spell_start.len() - 1], NOW).is_none());

    let mut channel_start = vec![1, 0x34];
    channel_start.extend_from_slice(&spell.to_le_bytes());
    channel_start.extend_from_slice(&duration.to_le_bytes());
    let ProtocolObservation::CastStarted { started_at_ms, ends_at_ms, .. } =
        parse_channel_start(&channel_start, NOW).expect("valid channel start")
    else {
        panic!("channel start observation expected")
    };
    assert_eq!(ends_at_ms - started_at_ms, u64::from(duration));

    let mut channel_update = vec![1, 0x34];
    channel_update.extend_from_slice(&duration.to_le_bytes());
    assert!(matches!(
        parse_channel_update(&channel_update, NOW),
        Some(ProtocolObservation::CastUpdated { caster: EntityId(0x34), ends_at_ms }) if ends_at_ms > 0
    ));
    channel_update[2..].copy_from_slice(&0u32.to_le_bytes());
    assert!(matches!(parse_channel_update(&channel_update, NOW), Some(ProtocolObservation::CastUpdated { ends_at_ms: 0, .. })));
}

#[test]
fn spell_go_needs_caster_and_spell() {
    let mut go = vec![1, 0x34, 1, 0x34, 1];
    go.extend_from_slice(&99u32.to_le_bytes());
    assert!(matches!(parse_spell_go(&go), Some(ProtocolObservation::CastFinished { caster: EntityId(0x34), spell: 99 })));
    let mut no_caster = vec![0, 0, 1];
    no_caster.extend_from_slice(&99u32.to_le_bytes());
    assert!(parse_spell_go(&no_caster).is_none());
}

#[test]
fn corpse_and_reclaim_delay() {
    assert!(matches!(parse_corpse_query(&[0]), Some(ProtocolObservation::CorpseLocation { position: None })));
    let mut body = vec![1];
    body.extend_from_slice(&571u32.to_le_bytes());
    for v in [1.0f32, 2.0, 3.0] {
        body.extend_from_slice(&v.to_le_bytes());
    }
    match parse_corpse_query(&body) {
        Some(ProtocolObservation::CorpseLocation { position: Some(p) }) => {
            assert_eq!(p.map, 571);
            assert_eq!(f32::from_bits(p.point.y), 2.0);
        }
        _ => panic!("corpse location expected"),
    }
    body[5..9].copy_from_slice(&f32::NAN.to_le_bytes());
    assert!(parse_corpse_query(&body).is_none());
    assert!(matches!(
        parse_reclaim_delay(&30_000u32.to_le_bytes(), NOW),
        Some(ProtocolObservation::CorpseReclaimDelay { ready_at_ms }) if ready_at_ms == NOW + 30_000
    ));
    assert!(matches!(
        parse_reclaim_delay(&1u32.to_le_bytes(), u64::MAX),
        Some(ProtocolObservation::CorpseReclaimDelay { ready_at_ms: u64::MAX })
    ));
}

#[test]
fn parses_initial_spellbook_and_aura_updates_for_maintenance() {
    let mut spells = vec![0_u8];
    spells.extend_from_slice(&2_u16.to_le_bytes());
    spells.extend_from_slice(&1459_u32.to_le_bytes());
    spells.extend_from_slice(&0_u16.to_le_bytes());
    spells.extend_from_slice(&1243_u32.to_le_bytes());
    spells.extend_from_slice(&0_u16.to_le_bytes());
    let observed = parse_initial_spells(&spells);
    assert!(observed.iter().any(|o| matches!(o, ProtocolObservation::SpellKnown { spell: 1459 })));
    assert!(observed.iter().any(|o| matches!(o, ProtocolObservation::SpellKnown { spell: 1243 })));

    let mut aura = Vec::new();
    push_packed_guid(&mut aura, 7);
    aura.push(3);
    aura.extend_from_slice(&1459_u32.to_le_bytes());
    assert!(matches!(
        parse_aura_update(&aura),
        Some(ProtocolObservation::AuraSlot { entity: EntityId(7), slot: 3, aura: Some(AuraInstance { spell: 1459, .. }) })
    ));
    let mut removed = Vec::new();
    push_packed_guid(&mut removed, 7);
    removed.push(3);
    removed.extend_from_slice(&0_u32.to_le_bytes());
    assert!(matches!(
        parse_aura_update(&removed),
        Some(ProtocolObservation::AuraSlot { entity: EntityId(7), slot: 3, aura: None })
    ));
}

#[test]
fn full_aura_update_reads_caster_and_durations() {
    let mut body = Vec::new();
    push_packed_guid(&mut body, 7);
    // slot 1: own aura with durations, caster omitted (flag 0x08), positive (0x10)
    body.push(1);
    body.extend_from_slice(&1459_u32.to_le_bytes());
    body.push(0x08 | 0x10 | 0x20);
    body.push(80);
    body.extend_from_slice(&60_000_u32.to_le_bytes());
    body.extend_from_slice(&30_000_u32.to_le_bytes());
    // slot 2: cast by another unit, no durations
    body.push(2);
    body.extend_from_slice(&133_u32.to_le_bytes());
    body.push(0);
    body.push(1);
    push_packed_guid(&mut body, 0x99);
    // slot 3: empty
    body.push(3);
    body.extend_from_slice(&0_u32.to_le_bytes());
    body.push(0x08);
    body.push(0);
    match parse_aura_update_all(&body) {
        Some(ProtocolObservation::AuraSnapshot { entity, auras }) => {
            assert_eq!(entity, EntityId(7));
            assert_eq!(auras.len(), 2);
            assert_eq!(auras[0], AuraInstance {
                slot: 1,
                spell: 1459,
                positive: Some(true),
                caster: None,
                max_duration_ms: Some(60_000),
                remaining_ms: Some(30_000),
            });
            assert_eq!(auras[1].caster, Some(EntityId(0x99)));
            assert_eq!(auras[1].positive, Some(false));
        }
        _ => panic!("aura snapshot expected"),
    }
    assert!(parse_aura_update_all(&body[..body.len() - 1]).is_none());
    let all = maintenance_observations_at(0x0495, &body, NOW);
    assert_eq!(all.len(), 1);
    assert!(maintenance_observations_at(0x0001, &body, NOW).is_empty());
}

#[test]
fn parses_azerothcore_vehicle_action_bar_spells() {
    let mut body = Vec::new();
    body.extend_from_slice(&28511_u64.to_le_bytes());
    body.extend_from_slice(&0_u16.to_le_bytes());
    body.extend_from_slice(&0_u32.to_le_bytes());
    body.extend_from_slice(&0x08000000_u32.to_le_bytes());
    body.extend_from_slice(&(51858_u32 | (8_u32 << 24)).to_le_bytes());
    for _ in 1..10 {
        body.extend_from_slice(&0_u32.to_le_bytes());
    }
    body.push(0);
    body.push(0);
    let obs = controlled_abilities_observation(0x0179, &body).expect("vehicle spell packet");
    assert!(
        matches!(obs, ProtocolObservation::ControlledAbilities { mover: EntityId(28511), ref spells } if spells == &vec![51858])
    );
}

#[test]
fn single_and_multiple_quest_statuses_share_the_record_layout() {
    let mut entry = 77_u64.to_le_bytes().to_vec();
    entry.push(3);
    assert!(matches!(
        parse_single_quest_status(&entry),
        Some(ProtocolObservation::QuestGiverStatus { giver: EntityId(77), status: 3 })
    ));
    let mut multiple = 1_u32.to_le_bytes().to_vec();
    multiple.extend_from_slice(&entry);
    assert!(matches!(
        parse_multiple_quest_status(&multiple).as_slice(),
        [ProtocolObservation::QuestGiverStatus { giver: EntityId(77), status: 3 }]
    ));
    assert!(parse_single_quest_status(&entry[..8]).is_none());
}

#[test]
fn questgiver_complete_packet_does_not_confirm_quest_journal_completion() {
    const SMSG_QUESTGIVER_QUEST_COMPLETE: u32 = 0x018F;
    let observations = quest_observations(SMSG_QUESTGIVER_QUEST_COMPLETE, &170_u32.to_le_bytes());
    assert!(observations.is_empty());
}

#[test]
fn parses_azerothcore_multiple_quest_status_layout() {
    let mut body = Vec::new();
    body.extend_from_slice(&2_u32.to_le_bytes());
    body.extend_from_slice(&11_u64.to_le_bytes());
    body.push(8);
    body.extend_from_slice(&22_u64.to_le_bytes());
    body.push(5);
    let observations = parse_multiple_quest_status(&body);
    assert!(matches!(
        observations.as_slice(),
        [
            ProtocolObservation::QuestGiverStatus { giver: EntityId(11), status: 8 },
            ProtocolObservation::QuestGiverStatus { giver: EntityId(22), status: 5 },
        ]
    ));
    assert!(parse_multiple_quest_status(&body[..body.len() - 1]).is_empty());
}

#[test]
fn parses_azerothcore_quest_list_layout() {
    let mut body = Vec::new();
    body.extend_from_slice(&99_u64.to_le_bytes());
    body.extend_from_slice(b"Greetings\0");
    body.extend_from_slice(&0_u32.to_le_bytes());
    body.extend_from_slice(&0_u32.to_le_bytes());
    body.push(1);
    body.extend_from_slice(&1234_u32.to_le_bytes());
    body.extend_from_slice(&2_u32.to_le_bytes());
    body.extend_from_slice(&10_i32.to_le_bytes());
    body.extend_from_slice(&0_u32.to_le_bytes());
    body.push(0);
    body.extend_from_slice(b"A Test Quest\0");
    let observations = parse_quest_list(&body);
    assert!(matches!(
        observations.as_slice(),
        [
            ProtocolObservation::QuestGiverListReceived { giver: EntityId(99), offer_count: 1 },
            ProtocolObservation::QuestOffer { giver: EntityId(99), quest: 1234, icon: 2 }
        ]
    ));
    assert!(parse_quest_list(&body[..body.len() - 1]).is_empty());
}

#[test]
fn parses_empty_quest_giver_list_as_response_evidence() {
    let mut body = Vec::new();
    body.extend_from_slice(&99_u64.to_le_bytes());
    body.extend_from_slice(b"Greetings\0");
    body.extend_from_slice(&0_u32.to_le_bytes());
    body.extend_from_slice(&0_u32.to_le_bytes());
    body.push(0);
    assert!(matches!(
        parse_quest_list(&body).as_slice(),
        [ProtocolObservation::QuestGiverListReceived { giver: EntityId(99), offer_count: 0 }]
    ));
}

#[test]
fn parses_azerothcore_quest_query_response_objectives() {
    let mut fields = vec![0_u32; 65];
    fields[0] = 1234;
    fields[61] = 0;
    fields[62] = 100.0_f32.to_bits();
    fields[63] = 200.0_f32.to_bits();
    let mut body = Vec::new();
    for value in fields {
        body.extend_from_slice(&value.to_le_bytes());
    }
    for text in ["Quest Title", "Objectives", "Details", "Area", "Complete"] {
        body.extend_from_slice(text.as_bytes());
        body.push(0);
    }
    body.extend_from_slice(&77_u32.to_le_bytes());
    body.extend_from_slice(&3_u32.to_le_bytes());
    body.extend_from_slice(&0_u32.to_le_bytes());
    body.extend_from_slice(&0_u32.to_le_bytes());
    body.extend_from_slice(&(88_u32 | 0x8000_0000).to_le_bytes());
    body.extend_from_slice(&1_u32.to_le_bytes());
    body.extend_from_slice(&0_u32.to_le_bytes());
    body.extend_from_slice(&0_u32.to_le_bytes());
    for _ in 0..2 {
        body.extend_from_slice(&0_u32.to_le_bytes());
        body.extend_from_slice(&0_u32.to_le_bytes());
        body.extend_from_slice(&0_u32.to_le_bytes());
        body.extend_from_slice(&0_u32.to_le_bytes());
    }
    body.extend_from_slice(&99_u32.to_le_bytes());
    body.extend_from_slice(&4_u32.to_le_bytes());
    for _ in 0..5 {
        body.extend_from_slice(&0_u32.to_le_bytes());
        body.extend_from_slice(&0_u32.to_le_bytes());
    }
    for text in ["Kill wolves", "Use object", "", ""] {
        body.extend_from_slice(text.as_bytes());
        body.push(0);
    }

    let observation = parse_quest_query_response(&body).expect("quest definition should parse");
    let ProtocolObservation::QuestDefinition { definition } = observation else {
        panic!("wrong observation");
    };
    assert_eq!(definition.quest, 1234);
    assert_eq!(definition.title, "Quest Title");
    assert_eq!(definition.poi_map, Some(0));
    assert_eq!(definition.poi_x, Some(100.0_f32.to_bits()));
    assert_eq!(definition.targets.len(), 2);
    assert_eq!(definition.targets[0].slot, 0);
    assert_eq!(definition.targets[0].entry, 77);
    assert_eq!(definition.targets[0].text, "Kill wolves");
    assert_eq!(definition.targets[1].slot, 1);
    assert_eq!(definition.targets[1].entry, 88);
    assert!(matches!(definition.targets[1].kind, QuestTargetKind::GameObject));
    assert_eq!(definition.items.len(), 1);
    assert_eq!(definition.items[0].item, 99);
    assert_eq!(definition.items[0].required, 4);
}

#[test]
fn parses_azerothcore_turn_in_dialogs() {
    let giver = 77_u64;
    let quest = 42_u32;

    let mut request = Vec::new();
    request.extend_from_slice(&giver.to_le_bytes());
    request.extend_from_slice(&quest.to_le_bytes());
    request.extend_from_slice(b"Title\0Items\0");
    request.extend_from_slice(&[0_u8; 28]);
    let n = request.len();
    request[n - 16..n - 12].copy_from_slice(&3_u32.to_le_bytes());
    let parsed = parse_quest_request_items(&request).expect("request-items should parse");
    assert!(matches!(
        parsed,
        ProtocolObservation::QuestTurnInDialog {
            quest: 42,
            dialog: QuestTurnInDialog { giver: EntityId(77), stage: QuestTurnInStage::RequestItems { can_complete: true } }
        }
    ));

    let mut offer = Vec::new();
    offer.extend_from_slice(&giver.to_le_bytes());
    offer.extend_from_slice(&quest.to_le_bytes());
    offer.extend_from_slice(b"Title\0Reward\0");
    offer.push(1);
    offer.extend_from_slice(&0_u32.to_le_bytes());
    offer.extend_from_slice(&0_u32.to_le_bytes());
    offer.extend_from_slice(&0_u32.to_le_bytes());
    offer.extend_from_slice(&2_u32.to_le_bytes());
    let parsed = parse_quest_offer_reward(&offer).expect("offer-reward should parse");
    assert!(matches!(
        parsed,
        ProtocolObservation::QuestTurnInDialog {
            quest: 42,
            dialog: QuestTurnInDialog { giver: EntityId(77), stage: QuestTurnInStage::OfferReward { reward_choices: 2 } }
        }
    ));
}
