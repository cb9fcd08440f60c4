//! The reducer: how one observation changes the authoritative state.
use vstd::prelude::*;
use std::collections::{BTreeMap, BTreeSet};
use crate::ids::{EntityId, StateRevision, next_counter, next_counter_exec};
use crate::state::auras::AuraInstance;
use crate::state::authoritative::{AuthoritativeState, StateDelta, StateSection};
use crate::state::entities::{EntityState, placeholder_entity};
use crate::state::inventory::{InventoryItemInstance, InventoryState, LootOwnership};
use crate::state::observation::ProtocolObservation;
use crate::state::quests::{QuestOffer, QuestProgress, QuestState};
use crate::state::world::{ControlState, DesyncState};
use vstd::std_specs::btree::spec_btree_map_iter;
use vstd::std_specs::iter::IteratorSpec;

verus! {

broadcast use vstd::std_specs::btree::group_btree_axioms;

// ----- collection helpers -----

/// Backpack instances keyed by GUID; a later instance with the same GUID replaces an
/// earlier one.
pub open spec fn instances_by_guid(items: Seq<InventoryItemInstance>) -> Map<u64, InventoryItemInstance>
    decreases items.len(),
{
    if items.len() == 0 {
        Map::empty()
    } else {
        instances_by_guid(items.drop_last()).insert(items.last().guid.0, items.last())
    }
}

/// Auras keyed by slot; a later aura in the same slot replaces an earlier one.
pub open spec fn auras_by_slot(auras: Seq<AuraInstance>) -> Map<u8, AuraInstance>
    decreases auras.len(),
{
    if auras.len() == 0 {
        Map::empty()
    } else {
        auras_by_slot(auras.drop_last()).insert(auras.last().slot, auras.last())
    }
}

/// The offers that do not come from `giver`.
pub open spec fn offers_not_from(offers: Map<u32, QuestOffer>, giver: EntityId) -> Map<u32, QuestOffer> {
    Map::new(|k: u32| offers.contains_key(k) && offers[k].giver != giver, |k: u32| offers[k])
}

fn build_instances(items: Vec<InventoryItemInstance>) -> (r: BTreeMap<u64, InventoryItemInstance>)
    ensures
        r@ == instances_by_guid(items@),
{
    let mut m: BTreeMap<u64, InventoryItemInstance> = BTreeMap::new();
    let mut i: usize = 0;
    while i < items.len()
        invariant
            i <= items@.len(),
            m@ == instances_by_guid(items@.subrange(0, i as int)),
        decreases items@.len() - i,
    {
        let inst = items[i];
        m.insert(inst.guid.0, inst);
        assert(items@.subrange(0, i + 1).drop_last() =~= items@.subrange(0, i as int));
        i = i + 1;
    }
    assert(items@.subrange(0, items@.len() as int) =~= items@);
    m
}

fn build_aura_slots(auras: Vec<AuraInstance>) -> (r: BTreeMap<u8, AuraInstance>)
    ensures
        r@ == auras_by_slot(auras@),
{
    let mut m: BTreeMap<u8, AuraInstance> = BTreeMap::new();
    let mut i: usize = 0;
    while i < auras.len()
        invariant
            i <= auras@.len(),
            m@ == auras_by_slot(auras@.subrange(0, i as int)),
        decreases auras@.len() - i,
    {
        let a = auras[i];
        m.insert(a.slot, a);
        assert(auras@.subrange(0, i + 1).drop_last() =~= auras@.subrange(0, i as int));
        i = i + 1;
    }
    assert(auras@.subrange(0, auras@.len() as int) =~= auras@);
    m
}

fn build_spell_set(spells: Vec<u32>) -> (r: BTreeSet<u32>)
    ensures
        r@ == spells@.to_set(),
{
    let mut s: BTreeSet<u32> = BTreeSet::new();
    let mut i: usize = 0;
    while i < spells.len()
        invariant
            i <= spells@.len(),
            s@ == spells@.subrange(0, i as int).to_set(),
        decreases spells@.len() - i,
    {
        s.insert(spells[i]);
        proof {
            let a = spells@.subrange(0, i as int);
            let b = spells@.subrange(0, i + 1);
            assert(b =~= a.push(spells@[i as int]));
            a.lemma_push_to_set_commute(spells@[i as int]);
        }
        i = i + 1;
    }
    assert(spells@.subrange(0, spells@.len() as int) =~= spells@);
    s
}

/// Whether `v` holds `x`.
fn vec_contains(v: &Vec<u32>, x: u32) -> (r: bool)
    ensures
        r == v@.contains(x),
{
    let mut i: usize = 0;
    while i < v.len()
        invariant
            i <= v@.len(),
            forall|j: int| 0 <= j < i ==> v@[j] != x,
        decreases v@.len() - i,
    {
        if v[i] == x {
            assert(v@[i as int] == x);
            return true;
        }
        i = i + 1;
    }
    false
}

/// Drop the offers that come from `giver`.
fn retain_offers_not_from(offers: &mut BTreeMap<u32, QuestOffer>, giver: EntityId)
    ensures
        final(offers)@ == offers_not_from(old(offers)@, giver),
{
    let ghost m = offers@;
    let ghost s = spec_btree_map_iter(&*offers).remaining();
    let ghost mut n: int = 0;
    let mut doomed: Vec<u32> = Vec::new();
    for pair in it: offers.iter()
        invariant
            m == offers@,
            s == spec_btree_map_iter(&*offers).remaining(),
            it.seq() == s,
            n == it.index(),
            forall|i: int| 0 <= i < s.len() ==> m.contains_key(*(#[trigger] s[i]).0) && m[*s[i].0] == *s[i].1,
            forall|k: u32| m.contains_key(k) ==> s.contains((&k, &m[k])),
            forall|i: int| 0 <= i < n && (*(#[trigger] s[i]).1).giver == giver ==> doomed@.contains(*s[i].0),
            forall|k: u32| #[trigger] doomed@.contains(k) ==> m.contains_key(k) && m[k].giver == giver,
    {
        let (key, offer) = pair;
        let ghost old_doomed = doomed@;
        proof {
            assert(s[n] == pair);
            assert(m.contains_key(*key) && m[*key] == *offer);
        }
        if offer.giver == giver {
            doomed.push(*key);
        }
        proof {
            assert forall|x: u32| old_doomed.contains(x) implies doomed@.contains(x) by {
                let i = choose|i: int| 0 <= i < old_doomed.len() && old_doomed[i] == x;
                assert(doomed@[i] == x);
            }
            if offer.giver == giver {
                assert(doomed@[doomed@.len() - 1] == *key);
            }
            assert forall|x: u32| #[trigger] doomed@.contains(x) implies m.contains_key(x) && m[x].giver == giver by {
                if !old_doomed.contains(x) {
                    let i = choose|i: int| 0 <= i < doomed@.len() && doomed@[i] == x;
                    if i < old_doomed.len() {
                        assert(old_doomed[i] == x);
                    }
                }
            }
            n = n + 1;
        }
    }
    proof {
        assert(n == s.len());
        assert forall|k: u32| m.contains_key(k) && m[k].giver == giver implies #[trigger] doomed@.contains(k) by {
            assert(s.contains((&k, &m[k])));
            let i = choose|i: int| 0 <= i < s.len() && s[i] == (&k, &m[k]);
            assert(*s[i].1 == m[k]);
        }
    }
    let mut j: usize = 0;
    while j < doomed.len()
        invariant
            j <= doomed@.len(),
            forall|k: u32| doomed@.contains(k) ==> m.contains_key(k) && m[k].giver == giver,
            forall|k: u32| m.contains_key(k) && m[k].giver == giver ==> doomed@.contains(k),
            offers@ == Map::new(
                |k: u32| m.contains_key(k) && !doomed@.subrange(0, j as int).contains(k),
                |k: u32| m[k],
            ),
        decreases doomed@.len() - j,
    {
        let k = doomed[j];
        offers.remove(&k);
        proof {
            let a = doomed@.subrange(0, j as int);
            let b = doomed@.subrange(0, j + 1);
            assert(b =~= a.push(k));
            assert forall|x: u32| b.contains(x) <==> a.contains(x) || x == k by {
                if b.contains(x) && x != k {
                    let i = choose|i: int| 0 <= i < b.len() && b[i] == x;
                    assert(i < a.len());
                    assert(a[i] == x);
                }
                if a.contains(x) {
                    let i = choose|i: int| 0 <= i < a.len() && a[i] == x;
                    assert(b[i] == x);
                }
                if x == k {
                    assert(b[j as int] == k);
                }
            }
            assert(offers@ =~= Map::new(
                |x: u32| m.contains_key(x) && !doomed@.subrange(0, j + 1).contains(x),
                |x: u32| m[x],
            ));
        }
        j = j + 1;
    }
    proof {
        assert(doomed@.subrange(0, doomed@.len() as int) =~= doomed@);
        assert(offers@ =~= offers_not_from(m, giver));
    }
}

// ----- per-observation effects -----

/// The parts of the state an observation may write.
pub open spec fn written_sections(obs: ProtocolObservation) -> Set<StateSection> {
    match obs {
        ProtocolObservation::Authenticated { .. } => set![StateSection::Session],
        ProtocolObservation::EnteredWorld { .. } => set![StateSection::Session, StateSection::Position],
        ProtocolObservation::LeftWorld => set![StateSection::Session, StateSection::Position, StateSection::Control, StateSection::Auras],
        ProtocolObservation::PlayerPosition { .. } => set![StateSection::Position],
        ProtocolObservation::ControlledMover { .. } => set![StateSection::Control],
        ProtocolObservation::ControlledAbilities { .. } => set![StateSection::Control],
        ProtocolObservation::CorpseLocation { .. } => set![StateSection::Life],
        ProtocolObservation::CorpseReclaimDelay { .. } => set![StateSection::Life],
        ProtocolObservation::EntityUpsert { .. } => set![StateSection::Entities],
        ProtocolObservation::EntityRemoved { .. } => set![StateSection::Entities, StateSection::Inventory],
        ProtocolObservation::InventoryCount { .. } => set![StateSection::Inventory],
        ProtocolObservation::InventoryInstances { .. } => set![StateSection::Inventory],
        ProtocolObservation::InventoryFreeSlots { .. } => set![StateSection::Inventory],
        ProtocolObservation::EquippedRangedItem { .. } => set![StateSection::Inventory],
        ProtocolObservation::Money { .. } => set![StateSection::Inventory],
        ProtocolObservation::LootOpened { .. } => set![StateSection::Inventory],
        ProtocolObservation::LootClosed { .. } => set![StateSection::Inventory],
        ProtocolObservation::VendorOpened { .. } => set![StateSection::Inventory],
        ProtocolObservation::VendorClosed => set![StateSection::Inventory],
        ProtocolObservation::Trade(_) => set![StateSection::Inventory],
        ProtocolObservation::Auction(_) => set![StateSection::Inventory],
        ProtocolObservation::Mailbox(_) => set![StateSection::Inventory],
        ProtocolObservation::QuestGiverStatus { .. } => set![StateSection::Quests, StateSection::Entities],
        ProtocolObservation::QuestOffer { .. } => set![StateSection::Quests, StateSection::Entities],
        ProtocolObservation::QuestAccepted { .. } => set![StateSection::Quests],
        ProtocolObservation::QuestDefinition { .. } => set![StateSection::Quests],
        ProtocolObservation::QuestTurnInDialog { .. } => set![StateSection::Quests],
        ProtocolObservation::QuestProgress { .. } => set![StateSection::Quests],
        ProtocolObservation::QuestRemoved { .. } => set![StateSection::Quests],
        ProtocolObservation::QuestCompleted { .. } => set![StateSection::Quests],
        ProtocolObservation::SpellKnown { .. } => set![StateSection::Capabilities],
        ProtocolObservation::SpellCooldown { .. } => set![StateSection::Capabilities],
        ProtocolObservation::PlayerClass { .. } => set![StateSection::Capabilities],
        ProtocolObservation::AuraSnapshot { .. } => set![StateSection::Auras],
        ProtocolObservation::AuraSlot { .. } => set![StateSection::Auras],
        ProtocolObservation::Skill { .. } => set![StateSection::Professions],
        ProtocolObservation::RecipeKnown { .. } => set![StateSection::Professions],
        ProtocolObservation::ProfessionFlags { .. } => set![StateSection::Professions, StateSection::Capabilities],
        ProtocolObservation::Group(_) => set![StateSection::Group],
        ProtocolObservation::Desync { .. } => set![StateSection::Desync],
        ProtocolObservation::Resynchronized => set![StateSection::Desync],
        _ => Set::empty(),
    }
}

/// The sections a reduction step reports as changed, in order.
pub open spec fn reported_sections(old: AuthoritativeState, obs: ProtocolObservation) -> Seq<StateSection> {
    match obs {
        ProtocolObservation::Authenticated { .. } => seq![StateSection::Session],
        ProtocolObservation::EnteredWorld { .. } => seq![StateSection::Session, StateSection::Position],
        ProtocolObservation::LeftWorld => seq![StateSection::Session, StateSection::Control, StateSection::Auras],
        ProtocolObservation::PlayerPosition { .. } => seq![StateSection::Position],
        ProtocolObservation::ControlledMover { .. } => seq![StateSection::Control],
        ProtocolObservation::ControlledAbilities { mover, .. } =>
            if old.control.mover == Some(mover) { seq![StateSection::Control] } else { Seq::empty() },
        ProtocolObservation::CorpseLocation { .. } => seq![StateSection::Life],
        ProtocolObservation::CorpseReclaimDelay { .. } => seq![StateSection::Life],
        ProtocolObservation::EntityUpsert { .. } => seq![StateSection::Entities],
        ProtocolObservation::EntityRemoved { .. } => seq![StateSection::Entities, StateSection::Inventory],
        ProtocolObservation::InventoryCount { .. } => seq![StateSection::Inventory],
        ProtocolObservation::InventoryInstances { .. } => seq![StateSection::Inventory],
        ProtocolObservation::InventoryFreeSlots { .. } => seq![StateSection::Inventory],
        ProtocolObservation::EquippedRangedItem { .. } => seq![StateSection::Inventory],
        ProtocolObservation::Money { .. } => seq![StateSection::Inventory],
        ProtocolObservation::LootOpened { .. } => seq![StateSection::Inventory],
        ProtocolObservation::LootClosed { .. } => seq![StateSection::Inventory],
        ProtocolObservation::VendorOpened { .. } => seq![StateSection::Inventory],
        ProtocolObservation::VendorClosed => seq![StateSection::Inventory],
        ProtocolObservation::Trade(_) => seq![StateSection::Inventory],
        ProtocolObservation::Auction(_) => seq![StateSection::Inventory],
        ProtocolObservation::Mailbox(_) => seq![StateSection::Inventory],
        ProtocolObservation::QuestGiverStatus { .. } => seq![StateSection::Quests, StateSection::Entities],
        ProtocolObservation::QuestOffer { .. } => seq![StateSection::Quests, StateSection::Entities],
        ProtocolObservation::QuestAccepted { .. } => seq![StateSection::Quests],
        ProtocolObservation::QuestDefinition { .. } => seq![StateSection::Quests],
        ProtocolObservation::QuestTurnInDialog { .. } => seq![StateSection::Quests],
        ProtocolObservation::QuestProgress { .. } => seq![StateSection::Quests],
        ProtocolObservation::QuestRemoved { .. } => seq![StateSection::Quests],
        ProtocolObservation::QuestCompleted { .. } => seq![StateSection::Quests],
        ProtocolObservation::SpellKnown { .. } => seq![StateSection::Capabilities],
        ProtocolObservation::SpellCooldown { .. } => seq![StateSection::Capabilities],
        ProtocolObservation::PlayerClass { .. } => seq![StateSection::Capabilities],
        ProtocolObservation::AuraSnapshot { .. } => seq![StateSection::Auras],
        ProtocolObservation::AuraSlot { .. } => seq![StateSection::Auras],
        ProtocolObservation::Skill { .. } => seq![StateSection::Professions],
        ProtocolObservation::RecipeKnown { .. } => seq![StateSection::Professions],
        ProtocolObservation::ProfessionFlags { .. } => seq![StateSection::Professions, StateSection::Capabilities],
        ProtocolObservation::Group(_) => seq![StateSection::Group],
        ProtocolObservation::Desync { .. } => seq![StateSection::Desync],
        ProtocolObservation::Resynchronized => seq![StateSection::Desync],
        _ => Seq::empty(),
    }
}

/// The entities a reduction step reports as touched.
pub open spec fn touched_entities(obs: ProtocolObservation) -> Seq<EntityId> {
    match obs {
        ProtocolObservation::EntityUpsert { entity } => seq![entity.id],
        ProtocolObservation::EntityRemoved { entity } => seq![entity],
        ProtocolObservation::QuestGiverStatus { giver, .. } => seq![giver],
        ProtocolObservation::QuestOffer { giver, .. } => seq![giver],
        _ => Seq::empty(),
    }
}

/// Every part of the state outside `written` is unchanged.
pub open spec fn keeps_unwritten(old: AuthoritativeState, new: AuthoritativeState, written: Set<StateSection>) -> bool {
    &&& !written.contains(StateSection::Session) ==> new.session == old.session
    &&& !written.contains(StateSection::Position) ==> new.position == old.position
    &&& !written.contains(StateSection::Control) ==> new.control == old.control
    &&& !written.contains(StateSection::Auras) ==> new.auras == old.auras
    &&& !written.contains(StateSection::Life) ==> new.life == old.life
    &&& !written.contains(StateSection::Entities) ==> new.entities == old.entities
    &&& !written.contains(StateSection::Inventory) ==> new.inventory == old.inventory
    &&& !written.contains(StateSection::Quests) ==> new.quests == old.quests
    &&& !written.contains(StateSection::Capabilities) ==> new.capabilities == old.capabilities
    &&& !written.contains(StateSection::Professions) ==> new.professions == old.professions
    &&& !written.contains(StateSection::Group) ==> new.group == old.group
    &&& !written.contains(StateSection::Desync) ==> new.desync == old.desync
    &&& new.transport == old.transport
    &&& new.pet == old.pet
    &&& new.active_casts == old.active_casts
}

/// An entity map with a placeholder for `id` where it has no entry yet.
pub open spec fn with_placeholder(entities: Map<u64, EntityState>, id: EntityId) -> Map<u64, EntityState> {
    if entities.contains_key(id.0) { entities } else { entities.insert(id.0, placeholder_entity(id)) }
}

/// How the inventory changes when an entity leaves view: an open vendor, loot window or
/// trade with it closes.
pub open spec fn inventory_after_removal(old: InventoryState, new: InventoryState, id: EntityId) -> bool {
    &&& new.items == old.items && new.instances == old.instances && new.free_slots == old.free_slots
    &&& new.equipped_ranged_item == old.equipped_ranged_item && new.equipped_items == old.equipped_items
    &&& new.equipment_slots_authoritative == old.equipment_slots_authoritative
    &&& new.equipment_authoritative == old.equipment_authoritative && new.money == old.money
    &&& new.bot_loot_generation == old.bot_loot_generation
    &&& new.auction == old.auction && new.mailbox == old.mailbox
    &&& new.vendor == (if old.vendor == Some(id) { None } else { old.vendor })
    &&& if old.current_loot == Some(id) {
        new.current_loot is None && new.current_loot_owner is None
            && new.loot_generation == next_counter(old.loot_generation)
    } else {
        new.current_loot == old.current_loot && new.current_loot_owner == old.current_loot_owner
            && new.loot_generation == old.loot_generation
    }
    &&& new.trade.partner == old.trade.partner && new.trade.our_items == old.trade.our_items
    &&& new.trade.their_items == old.trade.their_items && new.trade.our_money == old.trade.our_money
    &&& new.trade.their_money == old.trade.their_money
    &&& if old.trade.partner == Some(id) {
        !new.trade.open && new.trade.generation == next_counter(old.trade.generation)
    } else {
        new.trade.open == old.trade.open && new.trade.generation == old.trade.generation
    }
}

/// How the inventory's loot window changes when one opens (`target` is `Some`) or closes.
pub open spec fn inventory_after_loot(old: InventoryState, new: InventoryState, target: Option<EntityId>, ownership: LootOwnership) -> bool {
    &&& new.items == old.items && new.instances == old.instances && new.free_slots == old.free_slots
    &&& new.equipped_ranged_item == old.equipped_ranged_item && new.equipped_items == old.equipped_items
    &&& new.equipment_slots_authoritative == old.equipment_slots_authoritative
    &&& new.equipment_authoritative == old.equipment_authoritative && new.money == old.money
    &&& new.vendor == old.vendor && new.trade == old.trade && new.auction == old.auction && new.mailbox == old.mailbox
    &&& new.current_loot == target
    &&& new.current_loot_owner == (if target is Some { Some(ownership) } else { None::<LootOwnership> })
    &&& new.loot_generation == next_counter(old.loot_generation)
    &&& new.bot_loot_generation == (if ownership == LootOwnership::Bot {
        next_counter(old.bot_loot_generation)
    } else {
        old.bot_loot_generation
    })
}

/// What a removed quest leaves: it leaves the journal and the turn-in dialogs, and counts as
/// completed where a turn-in was open and the journal had it complete.
pub open spec fn quests_after_removal(old: QuestState, new: QuestState, quest: u32) -> bool {
    let was_turning_in = old.turn_in@.contains_key(quest);
    let was_complete = old.active@.contains_key(quest) && old.active@[quest].complete;
    &&& new.active@ == old.active@.remove(quest)
    &&& new.turn_in@ == old.turn_in@.remove(quest)
    &&& new.completed@ == (if was_turning_in && was_complete && !old.completed@.contains(quest) {
        old.completed@.push(quest)
    } else {
        old.completed@
    })
    &&& new.giver_status == old.giver_status && new.offers == old.offers && new.definitions == old.definitions
}

/// What an observation does to the state, for the parts it writes.
pub open spec fn reduction_effect(old: AuthoritativeState, new: AuthoritativeState, obs: ProtocolObservation) -> bool {
    match obs {
        ProtocolObservation::Authenticated { realm } =>
            new.session.authenticated && new.session.realm == realm
                && new.session.in_world == old.session.in_world
                && new.session.character_guid == old.session.character_guid,
        ProtocolObservation::EnteredWorld { character_guid, position } =>
            new.session.in_world && new.session.character_guid == Some(character_guid)
                && new.session.authenticated == old.session.authenticated && new.session.realm == old.session.realm
                && new.position.player == position && new.position.moving == old.position.moving
                && new.position.flags == old.position.flags && new.position.client_time == old.position.client_time,
        ProtocolObservation::LeftWorld =>
            !new.session.in_world && new.session.authenticated == old.session.authenticated
                && new.session.realm == old.session.realm && new.session.character_guid == old.session.character_guid
                && !new.position.moving && new.position.player == old.position.player
                && new.position.flags == old.position.flags && new.position.client_time == old.position.client_time
                && new.control.mover is None && new.control.mover_position is None
                && new.control.movement_flags == 0 && new.control.abilities@ == Set::<u32>::empty()
                && new.auras.by_entity@ == Map::<u64, BTreeMap<u8, AuraInstance>>::empty(),
        ProtocolObservation::PlayerPosition { position, moving, flags, client_time } =>
            new.position.player == Some(position) && new.position.moving == moving
                && new.position.flags == flags && new.position.client_time == client_time,
        ProtocolObservation::ControlledMover { mover, position, flags } =>
            new.control.mover == mover && new.control.mover_position == position && new.control.movement_flags == flags
                && new.control.abilities@ == (if mover is None { Set::empty() } else { old.control.abilities@ }),
        ProtocolObservation::ControlledAbilities { mover, spells } =>
            if old.control.mover == Some(mover) {
                new.control.mover == old.control.mover && new.control.mover_position == old.control.mover_position
                    && new.control.movement_flags == old.control.movement_flags
                    && new.control.abilities@ == spells@.to_set()
            } else {
                new.control == old.control
            },
        ProtocolObservation::CorpseLocation { position } =>
            new.life.corpse == position && new.life.reclaim_ready_at_ms == old.life.reclaim_ready_at_ms
                && new.life.recovery_generation == next_counter(old.life.recovery_generation),
        ProtocolObservation::CorpseReclaimDelay { ready_at_ms } =>
            new.life.reclaim_ready_at_ms == ready_at_ms && new.life.corpse == old.life.corpse
                && new.life.recovery_generation == old.life.recovery_generation,
        ProtocolObservation::EntityUpsert { entity } =>
            new.entities.0@ == old.entities.0@.insert(entity.id.0, entity),
        ProtocolObservation::EntityRemoved { entity } =>
            new.entities.0@ == old.entities.0@.remove(entity.0)
                && inventory_after_removal(old.inventory, new.inventory, entity),
        ProtocolObservation::InventoryCount { item, count } =>
            new.inventory.items@ == (if count == 0 { old.inventory.items@.remove(item) } else { old.inventory.items@.insert(item, count) })
                && new.inventory == (InventoryState { items: new.inventory.items, ..old.inventory }),
        ProtocolObservation::InventoryInstances { items } =>
            new.inventory.instances@ == instances_by_guid(items@)
                && new.inventory == (InventoryState { instances: new.inventory.instances, ..old.inventory }),
        ProtocolObservation::InventoryFreeSlots { count } =>
            new.inventory == (InventoryState { free_slots: count, ..old.inventory }),
        ProtocolObservation::EquippedRangedItem { item } =>
            new.inventory == (InventoryState { equipped_ranged_item: item, equipment_authoritative: true, ..old.inventory }),
        ProtocolObservation::Money { copper } =>
            new.inventory == (InventoryState { money: copper, ..old.inventory }),
        ProtocolObservation::LootOpened { target, ownership } =>
            inventory_after_loot(old.inventory, new.inventory, Some(target), ownership),
        ProtocolObservation::LootClosed { ownership } =>
            inventory_after_loot(old.inventory, new.inventory, None, ownership),
        ProtocolObservation::VendorOpened { vendor } =>
            new.inventory == (InventoryState { vendor: Some(vendor), ..old.inventory }),
        ProtocolObservation::VendorClosed =>
            new.inventory == (InventoryState { vendor: None, ..old.inventory }),
        ProtocolObservation::Trade(trade) => new.inventory == (InventoryState { trade, ..old.inventory }),
        ProtocolObservation::Auction(auction) => new.inventory == (InventoryState { auction, ..old.inventory }),
        ProtocolObservation::Mailbox(mailbox) => new.inventory == (InventoryState { mailbox, ..old.inventory }),
        ProtocolObservation::QuestGiverStatus { giver, status } =>
            new.quests.giver_status@ == old.quests.giver_status@.insert(giver.0, status)
                && new.quests.offers@ == (if status == 2 || status == 4 || status == 7 || status == 8 {
                    old.quests.offers@
                } else {
                    offers_not_from(old.quests.offers@, giver)
                })
                && new.quests.active == old.quests.active && new.quests.completed == old.quests.completed
                && new.quests.definitions == old.quests.definitions && new.quests.turn_in == old.quests.turn_in
                && new.entities.0@ == with_placeholder(old.entities.0@, giver),
        ProtocolObservation::QuestOffer { giver, quest, icon } =>
            new.quests == (QuestState { offers: new.quests.offers, ..old.quests })
                && new.quests.offers@ == old.quests.offers@.insert(quest, QuestOffer { giver, icon })
                && new.entities.0@ == with_placeholder(old.entities.0@, giver),
        ProtocolObservation::QuestAccepted { quest } =>
            new.quests == (QuestState { active: new.quests.active, offers: new.quests.offers, ..old.quests })
                && new.quests.offers@ == old.quests.offers@.remove(quest)
                && (old.quests.active@.contains_key(quest) ==> new.quests.active@ == old.quests.active@)
                && (!old.quests.active@.contains_key(quest) ==> new.quests.active@.remove(quest) == old.quests.active@
                    && new.quests.active@.contains_key(quest) && !new.quests.active@[quest].complete
                    && new.quests.active@[quest].objectives@.len() == 0),
        ProtocolObservation::QuestDefinition { definition } =>
            new.quests == (QuestState { definitions: new.quests.definitions, ..old.quests })
                && new.quests.definitions@ == old.quests.definitions@.insert(definition.quest, definition),
        ProtocolObservation::QuestTurnInDialog { quest, dialog } =>
            new.quests == (QuestState { turn_in: new.quests.turn_in, ..old.quests })
                && new.quests.turn_in@ == old.quests.turn_in@.insert(quest, dialog),
        ProtocolObservation::QuestProgress { quest, objectives, complete } =>
            new.quests == (QuestState { active: new.quests.active, ..old.quests })
                && new.quests.active@.remove(quest) == old.quests.active@.remove(quest)
                && new.quests.active@.contains_key(quest) && new.quests.active@[quest].complete == complete
                && new.quests.active@[quest].objectives@ == objectives@,
        ProtocolObservation::QuestRemoved { quest } => quests_after_removal(old.quests, new.quests, quest),
        ProtocolObservation::QuestCompleted { quest } =>
            new.quests == (QuestState { active: new.quests.active, completed: new.quests.completed, ..old.quests })
                && new.quests.active@ == old.quests.active@.remove(quest)
                && new.quests.completed@ == (if old.quests.completed@.contains(quest) {
                    old.quests.completed@
                } else {
                    old.quests.completed@.push(quest)
                }),
        ProtocolObservation::SpellKnown { spell } =>
            new.capabilities.spells@ == old.capabilities.spells@.insert(spell)
                && new.capabilities.spell_cooldowns == old.capabilities.spell_cooldowns
                && new.capabilities.class_id == old.capabilities.class_id
                && new.capabilities.can_fish == old.capabilities.can_fish,
        ProtocolObservation::SpellCooldown { spell, ready_at_ms } =>
            new.capabilities.spell_cooldowns@ == old.capabilities.spell_cooldowns@.insert(spell, ready_at_ms)
                && new.capabilities.spells == old.capabilities.spells
                && new.capabilities.class_id == old.capabilities.class_id
                && new.capabilities.can_fish == old.capabilities.can_fish,
        ProtocolObservation::PlayerClass { class_id } =>
            new.capabilities.class_id == Some(class_id) && new.capabilities.spells == old.capabilities.spells
                && new.capabilities.spell_cooldowns == old.capabilities.spell_cooldowns
                && new.capabilities.can_fish == old.capabilities.can_fish,
        ProtocolObservation::AuraSnapshot { entity, auras } =>
            new.auras.by_entity@.remove(entity.0) == old.auras.by_entity@.remove(entity.0)
                && new.auras.by_entity@.contains_key(entity.0)
                && new.auras.by_entity@[entity.0]@ == auras_by_slot(auras@),
        ProtocolObservation::AuraSlot { entity, slot, aura } => {
            let before: Map<u8, AuraInstance> = if old.auras.by_entity@.contains_key(entity.0) {
                old.auras.by_entity@[entity.0]@
            } else {
                Map::empty()
            };
            &&& new.auras.by_entity@.remove(entity.0) == old.auras.by_entity@.remove(entity.0)
            &&& new.auras.by_entity@.contains_key(entity.0)
            &&& new.auras.by_entity@[entity.0]@ == match aura {
                Some(a) => before.insert(slot, a),
                None => before.remove(slot),
            }
        },
        ProtocolObservation::Skill { skill, current, max } =>
            new.professions.skills@ == old.professions.skills@.insert(skill, (current, max))
                && new.professions.known_recipes == old.professions.known_recipes
                && new.professions.cooking == old.professions.cooking && new.professions.fishing == old.professions.fishing,
        ProtocolObservation::RecipeKnown { recipe } =>
            new.professions.known_recipes@ == old.professions.known_recipes@.insert(recipe)
                && new.professions.skills == old.professions.skills,
        ProtocolObservation::ProfessionFlags { cooking, first_aid, fishing } =>
            new.professions.cooking == cooking && new.professions.first_aid == first_aid
                && new.professions.fishing == fishing && new.capabilities.can_fish == fishing
                && new.professions.skills == old.professions.skills
                && new.capabilities.spells == old.capabilities.spells,
        ProtocolObservation::Group(group) => new.group == group,
        ProtocolObservation::Desync { reason } =>
            new.desync.suspect && new.desync.reasons@ == old.desync.reasons@.push(reason),
        ProtocolObservation::Resynchronized =>
            !new.desync.suspect && new.desync.reasons@.len() == 0,
        _ => true,
    }
}

// ----- the reducer -----

fn remove_entity(state: &mut AuthoritativeState, entity: EntityId)
    ensures
        final(state).entities.0@ == old(state).entities.0@.remove(entity.0),
        inventory_after_removal(old(state).inventory, final(state).inventory, entity),
        keeps_unwritten(*old(state), *final(state), set![StateSection::Entities, StateSection::Inventory]),
        final(state).revision == old(state).revision,
{
    state.entities.0.remove(&entity.0);
    let is_vendor = match state.inventory.vendor {
        Some(v) => v.0 == entity.0,
        None => false,
    };
    if is_vendor {
        state.inventory.vendor = None;
    }
    let is_loot = match state.inventory.current_loot {
        Some(v) => v.0 == entity.0,
        None => false,
    };
    if is_loot {
        state.inventory.current_loot = None;
        state.inventory.current_loot_owner = None;
        state.inventory.loot_generation = next_counter_exec(state.inventory.loot_generation);
    }
    let is_partner = match state.inventory.trade.partner {
        Some(v) => v.0 == entity.0,
        None => false,
    };
    if is_partner {
        state.inventory.trade.open = false;
        state.inventory.trade.generation = next_counter_exec(state.inventory.trade.generation);
    }
}

fn add_placeholder(entities: &mut BTreeMap<u64, EntityState>, id: EntityId)
    ensures
        final(entities)@ == with_placeholder(old(entities)@, id),
{
    if !entities.contains_key(&id.0) {
        entities.insert(id.0, EntityState::placeholder(id));
    }
}

fn loot_window(inventory: &mut InventoryState, target: Option<EntityId>, ownership: LootOwnership)
    ensures
        inventory_after_loot(*old(inventory), *final(inventory), target, ownership),
{
    inventory.current_loot = target;
    inventory.current_loot_owner = match target {
        Some(_) => Some(ownership),
        None => None,
    };
    inventory.loot_generation = next_counter_exec(inventory.loot_generation);
    match ownership {
        LootOwnership::Bot => {
            inventory.bot_loot_generation = next_counter_exec(inventory.bot_loot_generation);
        },
        LootOwnership::Player => {},
    }
}

fn remove_quest(quests: &mut QuestState, quest: u32)
    ensures
        quests_after_removal(*old(quests), *final(quests), quest),
{
    let was_turning_in = quests.turn_in.contains_key(&quest);
    let was_complete = match quests.active.get(&quest) {
        Some(p) => p.complete,
        None => false,
    };
    quests.active.remove(&quest);
    quests.turn_in.remove(&quest);
    if was_turning_in && was_complete && !vec_contains(&quests.completed, quest) {
        quests.completed.push(quest);
    }
}

fn set_aura_slot(state: &mut AuthoritativeState, entity: EntityId, slot: u8, aura: Option<AuraInstance>)
    ensures
        reduction_effect(*old(state), *final(state), ProtocolObservation::AuraSlot { entity, slot, aura }),
        keeps_unwritten(*old(state), *final(state), set![StateSection::Auras]),
        final(state).revision == old(state).revision,
{
    let mut slots = match state.auras.by_entity.remove(&entity.0) {
        Some(s) => s,
        None => BTreeMap::new(),
    };
    match aura {
        Some(a) => {
            slots.insert(slot, a);
        },
        None => {
            slots.remove(&slot);
        },
    }
    state.auras.by_entity.insert(entity.0, slots);
    assert(state.auras.by_entity@.remove(entity.0) =~= old(state).auras.by_entity@.remove(entity.0));
}

/// Apply one observation to the state: write what it reports, leave the rest, advance the
/// revision, and report the sections written and the entities touched.
pub fn reduce(state: &mut AuthoritativeState, observation: ProtocolObservation) -> (delta: StateDelta)
    ensures
        reduction_effect(*old(state), *final(state), observation),
        keeps_unwritten(*old(state), *final(state), written_sections(observation)),
        final(state).revision == StateRevision(next_counter(old(state).revision.0)),
        delta.revision == final(state).revision,
        delta.changed@ == reported_sections(*old(state), observation),
        delta.touched_entities@ == touched_entities(observation),
{
    let ghost obs = observation;
    let ghost before = *state;
    let mut changed: Vec<StateSection> = Vec::new();
    let mut touched: Vec<EntityId> = Vec::new();
    match observation {
        ProtocolObservation::Authenticated { realm } => {
            state.session.authenticated = true;
            state.session.realm = realm;
            changed.push(StateSection::Session);
        },
        ProtocolObservation::EnteredWorld { character_guid, position } => {
            state.session.in_world = true;
            state.session.character_guid = Some(character_guid);
            state.position.player = position;
            changed.push(StateSection::Session);
            changed.push(StateSection::Position);
        },
        ProtocolObservation::LeftWorld => {
            state.session.in_world = false;
            state.position.moving = false;
            state.control = ControlState::released();
            state.auras = crate::state::auras::AuraState::empty();
            changed.push(StateSection::Session);
            changed.push(StateSection::Control);
            changed.push(StateSection::Auras);
        },
        ProtocolObservation::PlayerPosition { position, moving, flags, client_time } => {
            state.position.player = Some(position);
            state.position.moving = moving;
            state.position.flags = flags;
            state.position.client_time = client_time;
            changed.push(StateSection::Position);
        },
        ProtocolObservation::ControlledMover { mover, position, flags } => {
            state.control.mover = mover;
            state.control.mover_position = position;
            state.control.movement_flags = flags;
            if mover.is_none() {
                state.control.abilities = BTreeSet::new();
            }
            changed.push(StateSection::Control);
        },
        ProtocolObservation::ControlledAbilities { mover, spells } => {
            let same = match state.control.mover {
                Some(m) => m.0 == mover.0,
                None => false,
            };
            if same {
                state.control.abilities = build_spell_set(spells);
                changed.push(StateSection::Control);
            }
        },
        ProtocolObservation::CorpseLocation { position } => {
            state.life.corpse = position;
            state.life.recovery_generation = next_counter_exec(state.life.recovery_generation);
            changed.push(StateSection::Life);
        },
        ProtocolObservation::CorpseReclaimDelay { ready_at_ms } => {
            state.life.reclaim_ready_at_ms = ready_at_ms;
            changed.push(StateSection::Life);
        },
        ProtocolObservation::EntityUpsert { entity } => {
            touched.push(entity.id);
            state.entities.0.insert(entity.id.0, entity);
            changed.push(StateSection::Entities);
        },
        ProtocolObservation::EntityRemoved { entity } => {
            remove_entity(state, entity);
            touched.push(entity);
            changed.push(StateSection::Entities);
            changed.push(StateSection::Inventory);
        },
        ProtocolObservation::InventoryCount { item, count } => {
            if count == 0 {
                state.inventory.items.remove(&item);
            } else {
                state.inventory.items.insert(item, count);
            }
            changed.push(StateSection::Inventory);
        },
        ProtocolObservation::InventoryInstances { items } => {
            state.inventory.instances = build_instances(items);
            changed.push(StateSection::Inventory);
        },
        ProtocolObservation::InventoryFreeSlots { count } => {
            state.inventory.free_slots = count;
            changed.push(StateSection::Inventory);
        },
        ProtocolObservation::EquippedRangedItem { item } => {
            state.inventory.equipped_ranged_item = item;
            state.inventory.equipment_authoritative = true;
            changed.push(StateSection::Inventory);
        },
        ProtocolObservation::Money { copper } => {
            state.inventory.money = copper;
            changed.push(StateSection::Inventory);
        },
        ProtocolObservation::LootOpened { target, ownership } => {
            loot_window(&mut state.inventory, Some(target), ownership);
            changed.push(StateSection::Inventory);
        },
        ProtocolObservation::LootClosed { ownership } => {
            loot_window(&mut state.inventory, None, ownership);
            changed.push(StateSection::Inventory);
        },
        ProtocolObservation::VendorOpened { vendor } => {
            state.inventory.vendor = Some(vendor);
            changed.push(StateSection::Inventory);
        },
        ProtocolObservation::VendorClosed => {
            state.inventory.vendor = None;
            changed.push(StateSection::Inventory);
        },
        ProtocolObservation::Trade(trade) => {
            state.inventory.trade = trade;
            changed.push(StateSection::Inventory);
        },
        ProtocolObservation::Auction(auction) => {
            state.inventory.auction = auction;
            changed.push(StateSection::Inventory);
        },
        ProtocolObservation::Mailbox(mailbox) => {
            state.inventory.mailbox = mailbox;
            changed.push(StateSection::Inventory);
        },
        ProtocolObservation::QuestGiverStatus { giver, status } => {
            state.quests.giver_status.insert(giver.0, status);
            if !(status == 2 || status == 4 || status == 7 || status == 8) {
                retain_offers_not_from(&mut state.quests.offers, giver);
            }
            add_placeholder(&mut state.entities.0, giver);
            touched.push(giver);
            changed.push(StateSection::Quests);
            changed.push(StateSection::Entities);
        },
        ProtocolObservation::QuestOffer { giver, quest, icon } => {
            state.quests.offers.insert(quest, QuestOffer { giver, icon });
            add_placeholder(&mut state.entities.0, giver);
            touched.push(giver);
            changed.push(StateSection::Quests);
            changed.push(StateSection::Entities);
        },
        ProtocolObservation::QuestAccepted { quest } => {
            if !state.quests.active.contains_key(&quest) {
                state.quests.active.insert(quest, QuestProgress { complete: false, objectives: Vec::new() });
                assert(state.quests.active@.remove(quest) =~= before.quests.active@);
            }
            state.quests.offers.remove(&quest);
            changed.push(StateSection::Quests);
        },
        ProtocolObservation::QuestDefinition { definition } => {
            let quest = definition.quest;
            state.quests.definitions.insert(quest, definition);
            changed.push(StateSection::Quests);
        },
        ProtocolObservation::QuestTurnInDialog { quest, dialog } => {
            state.quests.turn_in.insert(quest, dialog);
            changed.push(StateSection::Quests);
        },
        ProtocolObservation::QuestProgress { quest, objectives, complete } => {
            state.quests.active.insert(quest, QuestProgress { complete, objectives });
            assert(state.quests.active@.remove(quest) =~= before.quests.active@.remove(quest));
            changed.push(StateSection::Quests);
        },
        ProtocolObservation::QuestRemoved { quest } => {
            remove_quest(&mut state.quests, quest);
            changed.push(StateSection::Quests);
        },
        ProtocolObservation::QuestCompleted { quest } => {
            state.quests.active.remove(&quest);
            if !vec_contains(&state.quests.completed, quest) {
                state.quests.completed.push(quest);
            }
            changed.push(StateSection::Quests);
        },
        ProtocolObservation::SpellKnown { spell } => {
            state.capabilities.spells.insert(spell);
            changed.push(StateSection::Capabilities);
        },
        ProtocolObservation::SpellCooldown { spell, ready_at_ms } => {
            state.capabilities.spell_cooldowns.insert(spell, ready_at_ms);
            changed.push(StateSection::Capabilities);
        },
        ProtocolObservation::PlayerClass { class_id } => {
            state.capabilities.class_id = Some(class_id);
            changed.push(StateSection::Capabilities);
        },
        ProtocolObservation::AuraSnapshot { entity, auras } => {
            let slots = build_aura_slots(auras);
            state.auras.by_entity.insert(entity.0, slots);
            assert(state.auras.by_entity@.remove(entity.0) =~= before.auras.by_entity@.remove(entity.0));
            changed.push(StateSection::Auras);
        },
        ProtocolObservation::AuraSlot { entity, slot, aura } => {
            set_aura_slot(state, entity, slot, aura);
            changed.push(StateSection::Auras);
        },
        ProtocolObservation::Skill { skill, current, max } => {
            state.professions.skills.insert(skill, (current, max));
            changed.push(StateSection::Professions);
        },
        ProtocolObservation::RecipeKnown { recipe } => {
            state.professions.known_recipes.insert(recipe);
            changed.push(StateSection::Professions);
        },
        ProtocolObservation::ProfessionFlags { cooking, first_aid, fishing } => {
            state.professions.cooking = cooking;
            state.professions.first_aid = first_aid;
            state.professions.fishing = fishing;
            state.capabilities.can_fish = fishing;
            changed.push(StateSection::Professions);
            changed.push(StateSection::Capabilities);
        },
        ProtocolObservation::Group(group) => {
            state.group = group;
            changed.push(StateSection::Group);
        },
        ProtocolObservation::Desync { reason } => {
            state.desync.suspect = true;
            state.desync.reasons.push(reason);
            changed.push(StateSection::Desync);
        },
        ProtocolObservation::Resynchronized => {
            state.desync = DesyncState { suspect: false, reasons: Vec::new() };
            changed.push(StateSection::Desync);
        },
        _ => {},
    }
    state.revision = StateRevision(next_counter_exec(state.revision.0));
    proof {
        assert(changed@ =~= reported_sections(before, obs));
        assert(touched@ =~= touched_entities(obs));
    }
    StateDelta { changed, touched_entities: touched, revision: state.revision }
}

} // verus!
