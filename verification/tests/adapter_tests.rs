use wow_bot::text::is_whitespace;
use std::collections::BTreeMap;
use wow_bot::adapter::fields::{
    backpack_slots_of, controlled_mover_of, equipped_items_of, equipped_ranged_guid_of, field_u32, item_owned_by,
    item_stack_count, player_money, profession_skills_from_field, quest_journal,
};
use wow_bot::adapter::names::normalized_name;
use wow_bot::adapter::objects::{
    complete_array, complete_unsigned_array, object_to_entity, upsert_object, FieldValue, ObjectRecord, ObjectTypeId,
    ShortPair, UnitValues,
};
use wow_bot::adapter::packets::{login_verify_world, parse_player_talents_info};
use wow_bot::domain::Vec3;
use wow_bot::ids::EntityId;
use wow_bot::state::capabilities::TalentRank;
use wow_bot::state::entities::EntityKind;
use wow_bot::state::observation::ProtocolObservation;

fn no_unit() -> UnitValues {
    UnitValues { health: None, max_health: None, power: None, max_power: None, power_type: None, level: None, npc_flags: None }
}

fn object(object_type_id: ObjectTypeId, bytes2: Option<u8>) -> ObjectRecord {
    ObjectRecord {
        guid: 1,
        type_id: object_type_id,
        entry: None,
        position: None,
        facing: None,
        name: None,
        unit: no_unit(),
        base_health: None,
        base_mana: None,
        power_cost_modifier: None,
        power_cost_multiplier: None,
        base_attack_time: None,
        bytes2: bytes2.map(|form| FieldValue::Bytes(u32::from(form) << 24)),
        aura_state: None,
        target: None,
    }
}

#[test]
fn complete_array_checks_presence_length_and_conversion() {
    assert_eq!(complete_array(&[Some(1), Some(2), Some(3)], 3), Some(vec![1, 2, 3]));
    assert!(complete_array(&[Some(1), None, Some(3)], 3).is_none());
    assert!(complete_array(&[Some(1), Some(2), Some(3)], 2).is_none());
    assert_eq!(complete_unsigned_array(&[Some(1_i32), Some(-1)], 2), None);
    assert_eq!(complete_unsigned_array(&[Some(1_i32), Some(2)], 2), Some(vec![1, 2]));
}

#[test]
fn player_with_omitted_bytes2_uses_unshifted_default_form() {
    let entity = object_to_entity(&object(ObjectTypeId::Player, None), 0);
    assert_eq!(entity.shapeshift_form, Some(0));
}

#[test]
fn player_with_observed_travel_form_keeps_that_form() {
    let entity = object_to_entity(&object(ObjectTypeId::Player, Some(3)), 0);
    assert_eq!(entity.shapeshift_form, Some(3));
}

#[test]
fn unit_with_omitted_bytes2_remains_unknown() {
    let entity = object_to_entity(&object(ObjectTypeId::Unit, None), 0);
    assert_eq!(entity.shapeshift_form, None);
}

#[test]
fn unit_projection_reads_unit_values_and_fields() {
    let mut o = object(ObjectTypeId::Unit, Some(1));
    o.entry = Some(448);
    o.position = Some(Vec3 { x: 1.0f32.to_bits(), y: 2.0f32.to_bits(), z: 3.0f32.to_bits() });
    o.facing = Some(0.5f32.to_bits());
    o.name = Some("Hogger".into());
    o.unit = UnitValues {
        health: Some(50),
        max_health: Some(60),
        power: Some(10),
        max_power: None,
        power_type: Some(1),
        level: Some(11),
        npc_flags: Some(2),
    };
    o.base_health = Some(FieldValue::Integer(-4));
    o.target = Some(FieldValue::Long(77));
    o.base_attack_time = Some(FieldValue::IntegerArray(vec![Some(2000), Some(2000)]));
    o.power_cost_modifier = Some(FieldValue::IntegerArray(vec![Some(1); 7]));
    let e = object_to_entity(&o, 12);
    assert_eq!(e.id, EntityId(1));
    assert_eq!(e.entry, 448);
    assert_eq!(e.kind, EntityKind::Unit);
    assert_eq!(e.name.as_deref(), Some("Hogger"));
    assert_eq!(e.position.unwrap().map, 12);
    assert_eq!(e.position.unwrap().orientation, 0.5f32.to_bits());
    assert_eq!(e.health, Some((50, 60)));
    assert_eq!(e.power, None);
    assert_eq!(e.level, Some(11));
    assert_eq!(e.base_health, None);
    assert_eq!(e.target, Some(EntityId(77)));
    assert_eq!(e.base_attack_time_ms, Some(vec![2000, 2000]));
    assert_eq!(e.power_cost_modifiers, Some(vec![1; 7]));
    assert_eq!(e.power_cost_multipliers, None);
    assert_eq!(e.shapeshift_form, Some(1));
    assert!(e.interactable);
    let game_object = object_to_entity(&object(ObjectTypeId::GameObject, None), 0);
    assert!(game_object.interactable);
    assert_eq!(game_object.kind, EntityKind::GameObject);
    assert!(matches!(upsert_object(&object(ObjectTypeId::Item, None), 0), ProtocolObservation::EntityUpsert { .. }));
}

#[test]
fn skill_info_projects_rank_and_maximum_by_skill_line() {
    let mut entries = vec![None; 384];
    entries[0] = Some(ShortPair { low: 164, high: 0 });
    entries[1] = Some(ShortPair { low: 75, high: 150 });
    entries[3] = Some(ShortPair { low: 185, high: 0 });
    entries[4] = Some(ShortPair { low: 40, high: 75 });
    let (skills, slots) =
        profession_skills_from_field(&FieldValue::TwoShortsArray(entries)).expect("canonical skill info");
    assert_eq!(skills.get(&164), Some(&(75, 150)));
    assert_eq!(skills.get(&185), Some(&(40, 75)));
    assert_eq!(slots.get(&0), Some(&164));
    assert_eq!(slots.get(&1), Some(&185));
    assert!(profession_skills_from_field(&FieldValue::Integer(1)).is_none());
}

#[test]
fn field_u32_shares_checked_integer_conversion() {
    assert_eq!(field_u32(&FieldValue::Integer(12)), Some(12));
    assert_eq!(field_u32(&FieldValue::Integer(-1)), None);
    assert_eq!(field_u32(&FieldValue::Bytes(12)), None);
}

#[test]
fn player_and_item_fields() {
    assert_eq!(player_money(Some(&FieldValue::Integer(250))), Some(250));
    assert_eq!(player_money(Some(&FieldValue::Integer(-1))), None);
    assert_eq!(controlled_mover_of(Some(&FieldValue::Long(9))), Some(EntityId(9)));
    assert_eq!(controlled_mover_of(Some(&FieldValue::Long(0))), None);
    assert!(item_owned_by(Some(&FieldValue::Long(4)), EntityId(4)));
    assert!(!item_owned_by(None, EntityId(4)));
    assert_eq!(item_stack_count(Some(&FieldValue::Integer(0))), None);
    assert_eq!(item_stack_count(Some(&FieldValue::Integer(20))), Some(20));

    let mut inv = vec![None; 23];
    inv[0] = Some(500);
    inv[17] = Some(600);
    let inv = FieldValue::LongArray(inv);
    assert_eq!(equipped_ranged_guid_of(Some(&inv)), Some(600));
    let mut entries = BTreeMap::new();
    entries.insert(500, 1001);
    entries.insert(600, 2002);
    let equipped = equipped_items_of(Some(&inv), &entries).unwrap();
    assert_eq!(equipped.get(&0), Some(&1001));
    assert_eq!(equipped.get(&17), Some(&2002));
    entries.remove(&600);
    assert!(equipped_items_of(Some(&inv), &entries).is_none());

    let pack = FieldValue::LongArray(vec![Some(0), Some(70), None, Some(71)]);
    let slots = backpack_slots_of(Some(&pack));
    assert_eq!(slots.get(&70), Some(&24));
    assert_eq!(slots.get(&71), Some(&26));
    assert_eq!(slots.len(), 2);
}

#[test]
fn quest_log_rows_become_the_journal() {
    let rows = vec![
        vec![
            Some(FieldValue::Integer(33)),
            Some(FieldValue::Integer(1)),
            Some(FieldValue::TwoShorts(ShortPair { low: 2, high: -1 })),
            Some(FieldValue::TwoShorts(ShortPair { low: 0, high: 3 })),
        ],
        vec![Some(FieldValue::Integer(0)), Some(FieldValue::Integer(1))],
        vec![Some(FieldValue::Integer(34))],
    ];
    let journal = quest_journal(Some(&FieldValue::CustomArray(rows)));
    assert_eq!(journal.len(), 2);
    assert_eq!(journal.get(&33), Some(&(true, vec![2, 65535, 0, 3])));
    assert_eq!(journal.get(&34), Some(&(false, vec![0, 0, 0, 0])));
    assert!(quest_journal(None).is_empty());
}

#[test]
fn names_are_trimmed_and_lowercased() {
    assert_eq!(normalized_name("  Stormwind Guard \t"), "stormwind guard");
}

#[test]
fn parses_azerothcore_login_verify_world_layout() {
    let mut body = Vec::new();
    body.extend_from_slice(&1_u32.to_le_bytes());
    body.extend_from_slice(&1.0_f32.to_le_bytes());
    body.extend_from_slice(&2.0_f32.to_le_bytes());
    body.extend_from_slice(&3.0_f32.to_le_bytes());
    body.extend_from_slice(&4.0_f32.to_le_bytes());
    let observation = login_verify_world(&body, 77).expect("valid verify-world packet");
    assert!(matches!(observation, ProtocolObservation::EnteredWorld { character_guid: 77, .. }));
    assert!(login_verify_world(&body[..19], 77).is_none());
}

fn talent_group(talents: &[(u32, u8)], glyphs: &[u16]) -> Vec<u8> {
    let mut body = vec![talents.len() as u8];
    for (talent_id, rank) in talents {
        body.extend_from_slice(&talent_id.to_le_bytes());
        body.push(*rank);
    }
    body.push(glyphs.len() as u8);
    for glyph in glyphs {
        body.extend_from_slice(&glyph.to_le_bytes());
    }
    body
}

fn player_talents_packet(active: u8, groups: &[Vec<u8>]) -> Vec<u8> {
    let mut body = vec![0];
    body.extend_from_slice(&0u32.to_le_bytes());
    body.push(groups.len() as u8);
    body.push(active);
    for group in groups {
        body.extend_from_slice(group);
    }
    body
}

#[test]
fn parses_active_talent_group_from_single_and_dual_spec_packets() {
    let single = player_talents_packet(0, &[talent_group(&[(74, 2)], &[123, 456])]);
    assert_eq!(
        parse_player_talents_info(&single),
        Some((Some(1), Some(0), vec![TalentRank { talent_id: 74, rank: 2 }]))
    );

    let dual = player_talents_packet(1, &[talent_group(&[(74, 1)], &[]), talent_group(&[(27, 3), (26, 0)], &[7])]);
    let active_first =
        player_talents_packet(0, &[talent_group(&[(74, 1)], &[]), talent_group(&[(27, 3), (26, 0)], &[7])]);
    assert_eq!(
        parse_player_talents_info(&active_first),
        Some((Some(2), Some(0), vec![TalentRank { talent_id: 74, rank: 1 }]))
    );
    assert_eq!(
        parse_player_talents_info(&dual),
        Some((
            Some(2),
            Some(1),
            vec![TalentRank { talent_id: 27, rank: 3 }, TalentRank { talent_id: 26, rank: 0 }]
        ))
    );
}

#[test]
fn truncated_or_invalid_player_talents_are_reported_as_unknown() {
    assert_eq!(parse_player_talents_info(&[0]), Some((None, None, Vec::new())));
    assert_eq!(parse_player_talents_info(&player_talents_packet(0, &[vec![1, 74, 0]])), Some((None, None, Vec::new())));
    let mut invalid_active = player_talents_packet(2, &[talent_group(&[], &[])]);
    assert_eq!(parse_player_talents_info(&invalid_active), Some((None, None, Vec::new())));
    invalid_active = player_talents_packet(0, &[talent_group(&[(0, 0)], &[])]);
    assert_eq!(parse_player_talents_info(&invalid_active), Some((None, None, Vec::new())));
    assert_eq!(parse_player_talents_info(&[1, 0, 0, 0, 0]), None);
    let duplicate = player_talents_packet(0, &[talent_group(&[(74, 1), (74, 2)], &[])]);
    assert_eq!(parse_player_talents_info(&duplicate), Some((None, None, Vec::new())));
}

#[test]
fn whitespace_is_the_white_space_property_of_std() {
    for code in 0u32..=0x10FFFF {
        if let Some(c) = char::from_u32(code) {
            assert_eq!(is_whitespace(c), c.is_whitespace(), "U+{code:04X}");
        }
    }
}
