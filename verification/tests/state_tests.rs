use std::collections::BTreeMap;
use wow_bot::ids::{EntityId, StateRevision};
use wow_bot::state::authoritative::{AuthoritativeState, StateSection};
use wow_bot::state::capabilities::{active_tree, TalentCatalog, TalentLocation, TalentRank};
use wow_bot::state::entities::{EntityState, PetState};
use wow_bot::state::inventory::{InventoryItemInstance, LootOwnership};
use wow_bot::state::observation::ProtocolObservation;
use wow_bot::state::reducer::reduce;

fn catalog() -> TalentCatalog {
    let mut talents = BTreeMap::new();
    talents.insert(74, TalentLocation { class_id: 8, tree: 0 });
    talents.insert(27, TalentLocation { class_id: 8, tree: 1 });
    TalentCatalog { talents }
}

#[test]
fn resolves_a_unique_tree_and_rejects_unknown_or_ambiguous_data() {
    let catalog = catalog();
    assert_eq!(
        active_tree(&catalog, Some(8), &[TalentRank { talent_id: 74, rank: 2 }, TalentRank { talent_id: 27, rank: 0 }]),
        Some(0)
    );
    assert_eq!(
        active_tree(&catalog, Some(8), &[TalentRank { talent_id: 74, rank: 0 }, TalentRank { talent_id: 27, rank: 0 }]),
        None
    );
    assert_eq!(active_tree(&catalog, Some(8), &[TalentRank { talent_id: u32::MAX, rank: 0 }]), None);
    assert_eq!(active_tree(&catalog, Some(5), &[TalentRank { talent_id: 74, rank: 4 }]), None);
    assert_eq!(active_tree(&catalog, None, &[TalentRank { talent_id: 74, rank: 4 }]), None);
    assert_eq!(active_tree(&catalog, Some(8), &[]), None);
    assert_eq!(active_tree(&catalog, Some(8), &[TalentRank { talent_id: 27, rank: 5 }]), None);
}

#[test]
fn item_count_is_shared_by_presence_checks() {
    let mut inventory = AuthoritativeState::new().inventory;
    assert_eq!(inventory.count(7), 0);
    inventory.items.insert(7, 3);
    assert_eq!(inventory.count(7), 3);
    assert!(inventory.has(7, 3));
    assert!(!inventory.has(7, 4));
}

#[test]
fn usable_instance_prefers_lowest_slot_then_guid() {
    let mut inventory = AuthoritativeState::new().inventory;
    for (guid, slot, count) in [(30u64, 25u8, 1u32), (10, 26, 2), (20, 25, 1), (40, 23, 0)] {
        inventory.instances.insert(guid, InventoryItemInstance { item: 5, guid: EntityId(guid), backpack_slot: slot, count });
    }
    let chosen = inventory.usable_instance(5).unwrap();
    assert_eq!(chosen.guid, EntityId(20));
    assert!(inventory.usable_instance(6).is_none());
}

fn entity(id: u64) -> EntityState {
    EntityState::placeholder(EntityId(id))
}

#[test]
fn removing_entity_clears_dependent_service_state() {
    let mut s = AuthoritativeState::new();
    let id = EntityId(7);
    s.entities.0.insert(id.0, entity(7));
    s.inventory.vendor = Some(id);
    s.inventory.current_loot = Some(id);
    s.inventory.trade.partner = Some(id);
    s.inventory.trade.open = true;
    let delta = reduce(&mut s, ProtocolObservation::EntityRemoved { entity: id });
    assert!(!s.entities.0.contains_key(&id.0));
    assert_eq!(s.inventory.vendor, None);
    assert_eq!(s.inventory.current_loot, None);
    assert!(!s.inventory.trade.open);
    assert_eq!(delta.changed, vec![StateSection::Entities, StateSection::Inventory]);
    assert_eq!(delta.touched_entities, vec![id]);
    assert_eq!(delta.revision, StateRevision(1));
}

#[test]
fn player_loot_does_not_advance_bot_loot_generation() {
    let mut s = AuthoritativeState::new();
    let id = EntityId(9);
    reduce(&mut s, ProtocolObservation::LootOpened { target: id, ownership: LootOwnership::Player });
    assert_eq!(s.inventory.loot_generation, 1);
    assert_eq!(s.inventory.bot_loot_generation, 0);
    reduce(&mut s, ProtocolObservation::LootClosed { ownership: LootOwnership::Player });
    assert_eq!(s.inventory.loot_generation, 2);
    assert_eq!(s.inventory.bot_loot_generation, 0);
    reduce(&mut s, ProtocolObservation::LootOpened { target: id, ownership: LootOwnership::Bot });
    reduce(&mut s, ProtocolObservation::LootClosed { ownership: LootOwnership::Bot });
    assert_eq!(s.inventory.bot_loot_generation, 2);
    assert_eq!(s.revision, StateRevision(4));
}

#[test]
fn quest_giver_status_drops_stale_offers_and_adds_a_placeholder() {
    let mut s = AuthoritativeState::new();
    reduce(&mut s, ProtocolObservation::QuestOffer { giver: EntityId(5), quest: 10, icon: 2 });
    reduce(&mut s, ProtocolObservation::QuestOffer { giver: EntityId(6), quest: 11, icon: 2 });
    assert!(s.entities.0.get(&5).unwrap().interactable);
    reduce(&mut s, ProtocolObservation::QuestGiverStatus { giver: EntityId(5), status: 2 });
    assert_eq!(s.quests.offers.len(), 2);
    reduce(&mut s, ProtocolObservation::QuestGiverStatus { giver: EntityId(5), status: 0 });
    assert_eq!(s.quests.offers.len(), 1);
    assert!(s.quests.offers.contains_key(&11));
    assert_eq!(s.quests.giver_status.get(&5), Some(&0));
}

#[test]
fn a_removed_quest_counts_as_completed_only_after_a_turn_in() {
    let mut s = AuthoritativeState::new();
    reduce(&mut s, ProtocolObservation::QuestAccepted { quest: 3 });
    reduce(&mut s, ProtocolObservation::QuestProgress { quest: 3, objectives: vec![1, 0, 0, 0], complete: true });
    reduce(&mut s, ProtocolObservation::QuestRemoved { quest: 3 });
    assert!(s.quests.completed.is_empty());
    reduce(&mut s, ProtocolObservation::QuestProgress { quest: 4, objectives: vec![], complete: true });
    reduce(
        &mut s,
        ProtocolObservation::QuestTurnInDialog {
            quest: 4,
            dialog: wow_bot::state::quests::QuestTurnInDialog {
                giver: EntityId(1),
                stage: wow_bot::state::quests::QuestTurnInStage::OfferReward { reward_choices: 0 },
            },
        },
    );
    reduce(&mut s, ProtocolObservation::QuestRemoved { quest: 4 });
    assert_eq!(s.quests.completed, vec![4]);
    reduce(&mut s, ProtocolObservation::QuestCompleted { quest: 4 });
    assert_eq!(s.quests.completed, vec![4]);
}

#[test]
fn auras_controlled_abilities_and_leaving_the_world() {
    let mut s = AuthoritativeState::new();
    reduce(
        &mut s,
        ProtocolObservation::AuraSlot {
            entity: EntityId(1),
            slot: 2,
            aura: Some(wow_bot::state::auras::AuraInstance {
                slot: 2,
                spell: 99,
                positive: None,
                caster: None,
                max_duration_ms: None,
                remaining_ms: None,
            }),
        },
    );
    assert!(s.auras.spells(EntityId(1)).contains(&99));
    assert!(s.auras.has_any(EntityId(1), &[5, 99]));
    assert!(!s.auras.has_any(EntityId(2), &[99]));
    let d = reduce(&mut s, ProtocolObservation::ControlledAbilities { mover: EntityId(8), spells: vec![1] });
    assert!(d.changed.is_empty());
    reduce(&mut s, ProtocolObservation::ControlledMover { mover: Some(EntityId(8)), position: None, flags: 0 });
    reduce(&mut s, ProtocolObservation::ControlledAbilities { mover: EntityId(8), spells: vec![1, 2, 1] });
    assert_eq!(s.control.abilities.len(), 2);
    reduce(&mut s, ProtocolObservation::LeftWorld);
    assert!(s.control.mover.is_none());
    assert!(s.control.abilities.is_empty());
    assert!(s.auras.by_entity.is_empty());
}

#[test]
fn pet_is_unknown_until_confirmed_and_dead_pets_are_inactive() {
    let mut s = AuthoritativeState::new();
    assert_eq!(s.pet.has_active_pet(&s.entities), None);
    s.pet = PetState { control_known: true, guid: None };
    assert_eq!(s.pet.has_active_pet(&s.entities), Some(false));
    s.pet = PetState { control_known: true, guid: Some(EntityId(3)) };
    assert_eq!(s.pet.has_active_pet(&s.entities), Some(true));
    let mut dead = entity(3);
    dead.health = Some((0, 100));
    s.entities.0.insert(3, dead);
    assert_eq!(s.pet.has_active_pet(&s.entities), Some(false));
}
