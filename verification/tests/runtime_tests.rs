use std::collections::BTreeMap;
use wow_bot::adapter::objects::{FieldValue, ObjectRecord, ObjectTypeId, ShortPair, UnitValues};
use wow_bot::adapter::runtime::{ObjectObservationRuntime, TrackedObject, SMSG_PET_SPELLS, SMSG_TALENTS_INFO};
use wow_bot::domain::{Vec3, WorldPosition};
use wow_bot::ids::EntityId;
use wow_bot::state::inventory::InventoryItemInstance;
use wow_bot::state::observation::ProtocolObservation;

const PLAYER: u64 = 10;
const ARROWS: u64 = 100;

fn no_unit() -> UnitValues {
    UnitValues { health: None, max_health: None, power: None, max_power: None, power_type: None, level: None, npc_flags: None }
}

fn record(guid: u64, type_id: ObjectTypeId, entry: Option<u32>) -> ObjectRecord {
    ObjectRecord {
        guid,
        type_id,
        entry,
        position: None,
        facing: None,
        name: None,
        unit: no_unit(),
        base_health: None,
        base_mana: None,
        power_cost_modifier: None,
        power_cost_multiplier: None,
        base_attack_time: None,
        bytes2: None,
        aura_state: None,
        target: None,
    }
}

fn object_of(record: ObjectRecord) -> TrackedObject {
    TrackedObject {
        record,
        class_id: None,
        movement_flags: None,
        charm: None,
        coinage: None,
        owner: None,
        stack_count: None,
        inventory_slots: None,
        pack_slots: None,
        skill_info: None,
        quest_log: None,
    }
}

fn player_object() -> TrackedObject {
    let mut r = record(PLAYER, ObjectTypeId::Player, None);
    r.position = Some(Vec3 { x: 1.0f32.to_bits(), y: 2.0f32.to_bits(), z: 3.0f32.to_bits() });
    let mut o = object_of(r);
    o.class_id = Some(3);
    o.coinage = Some(FieldValue::Integer(500));
    let mut slots = vec![None; 23];
    slots[17] = Some(ARROWS);
    o.inventory_slots = Some(FieldValue::LongArray(slots));
    o.pack_slots = Some(FieldValue::LongArray(vec![Some(ARROWS)]));
    o.quest_log = Some(FieldValue::CustomArray(vec![vec![
        Some(FieldValue::Integer(33)),
        Some(FieldValue::Integer(1)),
        Some(FieldValue::TwoShorts(ShortPair { low: 4, high: 0 })),
    ]]));
    o
}

fn arrows_object() -> TrackedObject {
    let mut o = object_of(record(ARROWS, ObjectTypeId::Item, Some(2512)));
    o.owner = Some(FieldValue::Long(PLAYER));
    o.stack_count = Some(FieldValue::Integer(200));
    o
}

fn world() -> Vec<TrackedObject> {
    vec![player_object(), arrows_object()]
}

fn kinds(observations: &[ProtocolObservation]) -> Vec<&'static str> {
    observations
        .iter()
        .map(|o| match o {
            ProtocolObservation::ControlledMover { .. } => "mover",
            ProtocolObservation::EquippedRangedItem { .. } => "ranged",
            ProtocolObservation::EquippedItems { .. } => "equipped",
            ProtocolObservation::PlayerClass { .. } => "class",
            ProtocolObservation::PlayerPosition { .. } => "position",
            ProtocolObservation::QuestProgress { .. } => "quest",
            ProtocolObservation::QuestRemoved { .. } => "quest_removed",
            ProtocolObservation::Money { .. } => "money",
            ProtocolObservation::EntityUpsert { .. } => "upsert",
            ProtocolObservation::EntityRemoved { .. } => "removed",
            ProtocolObservation::InventoryCount { .. } => "count",
            ProtocolObservation::InventoryInstances { .. } => "instances",
            ProtocolObservation::PetControl { .. } => "pet",
            ProtocolObservation::PlayerTalents { .. } => "talents",
            _ => "other",
        })
        .collect()
}

#[test]
fn first_snapshot_reports_the_player_and_its_items() {
    let mut runtime = ObjectObservationRuntime::new();
    runtime.set_world(571, Some(EntityId(PLAYER)));
    let observations = runtime.observe(0x00A9, &[], Some(world()));
    assert_eq!(
        kinds(&observations),
        vec!["ranged", "equipped", "class", "position", "quest", "money", "upsert", "upsert", "count", "instances"]
    );
    assert_eq!(format!("{:?}", observations[0]), format!("{:?}", ProtocolObservation::EquippedRangedItem { item: Some(2512) }));
    let mut equipped = BTreeMap::new();
    equipped.insert(17u8, 2512u32);
    assert_eq!(format!("{:?}", observations[1]), format!("{:?}", ProtocolObservation::EquippedItems { items: Some(equipped) }));
    assert_eq!(format!("{:?}", observations[2]), format!("{:?}", ProtocolObservation::PlayerClass { class_id: 3 }));
    assert_eq!(format!("{:?}", observations[3]), format!("{:?}", ProtocolObservation::PlayerPosition {
            position: WorldPosition {
                map: 571,
                point: Vec3 { x: 1.0f32.to_bits(), y: 2.0f32.to_bits(), z: 3.0f32.to_bits() },
                orientation: 0,
            },
            moving: false,
            flags: 0,
            client_time: 0,
        }));
    assert_eq!(format!("{:?}", observations[4]), format!("{:?}", ProtocolObservation::QuestProgress { quest: 33, objectives: vec![4, 0, 0, 0], complete: true }));
    assert_eq!(format!("{:?}", observations[5]), format!("{:?}", ProtocolObservation::Money { copper: 500 }));
    assert_eq!(format!("{:?}", observations[8]), format!("{:?}", ProtocolObservation::InventoryCount { item: 2512, count: 200 }));
    assert_eq!(format!("{:?}", observations[9]), format!("{:?}", ProtocolObservation::InventoryInstances {
            items: vec![InventoryItemInstance { item: 2512, guid: EntityId(ARROWS), backpack_slot: 23, count: 200 }]
        }));
}

#[test]
fn unchanged_snapshot_reports_nothing() {
    let mut runtime = ObjectObservationRuntime::new();
    runtime.set_world(571, Some(EntityId(PLAYER)));
    runtime.observe(0x00A9, &[], Some(world()));
    assert!(runtime.observe(0x00A9, &[], Some(world())).is_empty());
}

#[test]
fn vanished_objects_are_reported_removed_in_guid_order() {
    let mut runtime = ObjectObservationRuntime::new();
    runtime.set_world(571, Some(EntityId(PLAYER)));
    runtime.observe(0x00A9, &[], Some(world()));
    let observations = runtime.observe(0x00A9, &[], Some(Vec::new()));
    assert_eq!(format!("{:?}", observations), format!("{:?}", vec![
            ProtocolObservation::EquippedRangedItem { item: None },
            ProtocolObservation::InventoryCount { item: 2512, count: 0 },
            ProtocolObservation::InventoryInstances { items: Vec::new() },
            ProtocolObservation::EntityRemoved { entity: EntityId(PLAYER) },
            ProtocolObservation::EntityRemoved { entity: EntityId(ARROWS) },
        ]));
}

#[test]
fn changed_quest_and_dropped_quest_are_reported() {
    let mut runtime = ObjectObservationRuntime::new();
    runtime.set_world(571, Some(EntityId(PLAYER)));
    runtime.observe(0x00A9, &[], Some(world()));
    let mut player = player_object();
    player.quest_log = Some(FieldValue::CustomArray(vec![vec![
        Some(FieldValue::Integer(40)),
        Some(FieldValue::Integer(0)),
    ]]));
    let observations = runtime.observe(0x00A9, &[], Some(vec![player, arrows_object()]));
    assert_eq!(format!("{:?}", observations), format!("{:?}", vec![
            ProtocolObservation::QuestProgress { quest: 40, objectives: vec![0, 0, 0, 0], complete: false },
            ProtocolObservation::QuestRemoved { quest: 33 },
        ]));
}

#[test]
fn pet_spells_packet_names_the_pet() {
    let mut runtime = ObjectObservationRuntime::new();
    let body = 0x1234u64.to_le_bytes();
    assert_eq!(format!("{:?}", runtime.observe_pet_control(SMSG_PET_SPELLS, &body)), format!("{:?}", vec![ProtocolObservation::PetControl { pet: Some(EntityId(0x1234)) }]));
    assert_eq!(format!("{:?}", runtime.observe_pet_control(SMSG_PET_SPELLS, &[0; 8])), format!("{:?}", vec![ProtocolObservation::PetControl { pet: None }]));
}

#[test]
fn player_talents_without_pet_spells_confirm_no_pet_once() {
    let mut runtime = ObjectObservationRuntime::new();
    assert_eq!(format!("{:?}", runtime.observe_pet_control(SMSG_TALENTS_INFO, &[0])), format!("{:?}", vec![ProtocolObservation::PetControl { pet: None }]));
    assert!(runtime.observe_pet_control(SMSG_TALENTS_INFO, &[0]).is_empty());
}

#[test]
fn missing_object_map_forgets_everything() {
    let mut runtime = ObjectObservationRuntime::new();
    runtime.set_world(571, Some(EntityId(PLAYER)));
    runtime.observe(0x00A9, &[], Some(world()));
    let observations = runtime.observe(0x00A9, &[], None);
    assert_eq!(
        kinds(&observations),
        vec!["count", "instances", "removed", "removed"]
    );
}

fn talent_group(talents: &[(u32, u8)], glyphs: &[u16]) -> Vec<u8> {
    let mut body = vec![talents.len() as u8];
    for (talent_id, rank) in talents {
        body.extend_from_slice(&talent_id.to_le_bytes());
        body.push(*rank);
    }
    body.push(glyphs.len() as u8);
    for glyph in glyphs {
        body.extend_from_slice(&glyph.to_le_bytes());
    }
    body
}

fn player_talents_packet(active: u8, groups: &[Vec<u8>]) -> Vec<u8> {
    let mut body = vec![0];
    body.extend_from_slice(&0u32.to_le_bytes());
    body.push(groups.len() as u8);
    body.push(active);
    for group in groups {
        body.extend_from_slice(group);
    }
    body
}

#[test]
fn pet_control_uses_pet_bar_and_initial_talents_as_authority() {
    let mut runtime = ObjectObservationRuntime::new();
    let mut pet_packet = vec![0; 58];
    pet_packet[..8].copy_from_slice(&55_u64.to_le_bytes());
    let observations = runtime.observe(SMSG_PET_SPELLS, &pet_packet, Some(Vec::new()));
    assert!(matches!(observations.first(), Some(ProtocolObservation::PetControl { pet: Some(EntityId(55)) })));

    let talents = player_talents_packet(0, &[talent_group(&[], &[])]);
    let observations = runtime.observe(SMSG_TALENTS_INFO, &talents, Some(Vec::new()));
    assert!(!observations.iter().any(|observation| matches!(observation, ProtocolObservation::PetControl { .. })));

    let mut no_pet_runtime = ObjectObservationRuntime::new();
    let observations = no_pet_runtime.observe(SMSG_TALENTS_INFO, &talents, Some(Vec::new()));
    assert!(matches!(observations.first(), Some(ProtocolObservation::PetControl { pet: None })));
    assert!(observations.iter().any(|observation| matches!(observation, ProtocolObservation::PlayerTalents { .. })));
}

fn unit_at(guid: u64, x: f32) -> TrackedObject {
    let mut r = record(guid, ObjectTypeId::Unit, Some(3));
    r.position = Some(Vec3 { x: x.to_bits(), y: 2.0f32.to_bits(), z: 3.0f32.to_bits() });
    object_of(r)
}

#[test]
fn positions_compare_as_numbers() {
    let mut runtime = ObjectObservationRuntime::new();
    runtime.set_world(571, None);
    assert_eq!(kinds(&runtime.observe(0x00A9, &[], Some(vec![unit_at(7, 0.0)]))), vec!["ranged", "upsert"]);
    // The two zeros are equal, so the unit has not moved.
    assert!(runtime.observe(0x00A9, &[], Some(vec![unit_at(7, -0.0)])).is_empty());
    assert_eq!(kinds(&runtime.observe(0x00A9, &[], Some(vec![unit_at(7, 1.5)]))), vec!["upsert"]);
}

#[test]
fn a_nan_coordinate_is_reported_every_time() {
    let mut runtime = ObjectObservationRuntime::new();
    runtime.set_world(571, None);
    assert_eq!(kinds(&runtime.observe(0x00A9, &[], Some(vec![unit_at(7, f32::NAN)]))), vec!["ranged", "upsert"]);
    assert_eq!(kinds(&runtime.observe(0x00A9, &[], Some(vec![unit_at(7, f32::NAN)]))), vec!["upsert"]);
}
