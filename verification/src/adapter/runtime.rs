//! The object observation runtime: after each world packet has gone through the
//! object-update processor, it compares the processor's objects with what it saw last and
//! reports what changed, as protocol observations. The processor itself is driven by the
//! caller, which hands the runtime the objects that the processor then holds.
use vstd::prelude::*;
use std::collections::BTreeMap;
use vstd::std_specs::btree::spec_btree_map_iter;
use vstd::std_specs::iter::IteratorSpec;
use crate::adapter::fields::{
    backpack_prefix, backpack_slots_of, controlled_mover_of, equipped_items_of, equipped_prefix,
    equipped_ranged_guid_of, field_u32_of, item_owned_by, item_stack_count, journal_matches,
    journal_prefix, player_money, profession_skills_from_field, quest_journal, skill_prefix,
    slot_count,
};
use crate::adapter::keys::{add_keys32, add_keys64, in_order32, in_order64, lemma_in_order32, lemma_in_order64, rising32, rising64};
use crate::adapter::objects::{object_to_entity, position_of, projected, FieldValue, ObjectRecord};
use crate::adapter::packets::{parse_player_talents_info, talents_info_of};
use crate::bytes::{read_u64_at, u64_at};
use crate::domain::{opt_position_eq, same_opt_position, WorldPosition};
use crate::ids::EntityId;
use crate::state::capabilities::TalentRank;
use crate::state::entities::{copy_entity, copy_u32s, entity_eq, same_entity, same_u32s, EntityState, EntityView};
use crate::state::inventory::InventoryItemInstance;
use crate::state::observation::ProtocolObservation;

verus! {

broadcast use vstd::std_specs::btree::group_btree_axioms;

/// The player talents packet.
pub const SMSG_TALENTS_INFO: u16 = 0x04c0;
/// The pet spells packet.
pub const SMSG_PET_SPELLS: u16 = 0x0179;

/// One world object as the object-update processor holds it: what the entity projection
/// reads, and the player, unit and item fields that the runtime reads.
pub struct TrackedObject {
    pub record: ObjectRecord,
    /// The class of a player object.
    pub class_id: Option<u8>,
    /// The flags of the object's movement block, where it has one.
    pub movement_flags: Option<u32>,
    /// The unit field of the unit the object controls.
    pub charm: Option<FieldValue>,
    /// The player field with the player's money.
    pub coinage: Option<FieldValue>,
    /// The item field with the item's owner.
    pub owner: Option<FieldValue>,
    /// The item field with the item's stack count.
    pub stack_count: Option<FieldValue>,
    /// The player field with the GUIDs in the inventory slots.
    pub inventory_slots: Option<FieldValue>,
    /// The player field with the GUIDs in the backpack slots.
    pub pack_slots: Option<FieldValue>,
    /// The player field with the skill lines.
    pub skill_info: Option<FieldValue>,
    /// The player field with the quest log.
    pub quest_log: Option<FieldValue>,
}

/// The runtime's memory of what it reported last.
pub struct ObjectObservationRuntime {
    known: BTreeMap<u64, EntityState>,
    known_quests: BTreeMap<u32, (bool, Vec<u32>)>,
    known_inventory: BTreeMap<u32, u32>,
    known_inventory_instances: Vec<InventoryItemInstance>,
    known_controlled_mover: Option<EntityId>,
    last_controlled_position: Option<WorldPosition>,
    last_controlled_flags: u32,
    last_money: Option<u64>,
    known_equipped_ranged_item: Option<u32>,
    equipment_observed: bool,
    known_equipped_items: Option<BTreeMap<u8, u32>>,
    equipment_slots_observed: bool,
    profession_skill_info_observed: bool,
    known_profession_skills: Option<(BTreeMap<u32, (u16, u16)>, BTreeMap<usize, u32>)>,
    pet_control_observed: bool,
    last_class_id: Option<u8>,
    last_player_position: Option<WorldPosition>,
    map_id: u32,
    player_guid: Option<EntityId>,
}

/// What the runtime remembers, as values.
pub struct RuntimeView {
    /// The entities last reported, by GUID.
    pub known: Map<u64, EntityView>,
    /// The quest journal last reported: quest to (complete, objective counters).
    pub quests: Map<u32, (bool, Seq<u32>)>,
    /// The item counts last reported.
    pub inventory: Map<u32, u32>,
    /// The backpack stacks last reported.
    pub instances: Seq<InventoryItemInstance>,
    pub mover: Option<EntityId>,
    pub mover_position: Option<WorldPosition>,
    pub mover_flags: u32,
    pub money: Option<u64>,
    pub ranged: Option<u32>,
    pub ranged_seen: bool,
    pub equipment: Option<Map<u8, u32>>,
    pub equipment_seen: bool,
    pub skills: Option<(Map<u32, (u16, u16)>, Map<usize, u32>)>,
    pub skills_seen: bool,
    pub pet_seen: bool,
    pub class_id: Option<u8>,
    pub player_position: Option<WorldPosition>,
    pub map_id: u32,
    pub player: Option<EntityId>,
}

/// The entities of a map of entities, as values.
pub open spec fn entity_views(m: Map<u64, EntityState>) -> Map<u64, EntityView> {
    m.map_values(|e: EntityState| e@)
}

/// A quest journal as values.
pub open spec fn quest_views(m: Map<u32, (bool, Vec<u32>)>) -> Map<u32, (bool, Seq<u32>)> {
    m.map_values(|q: (bool, Vec<u32>)| (q.0, q.1@))
}

/// Skill lines and their slots, as values.
pub open spec fn skill_views(s: Option<(BTreeMap<u32, (u16, u16)>, BTreeMap<usize, u32>)>) -> Option<(Map<u32, (u16, u16)>, Map<usize, u32>)> {
    match s {
        Some((a, b)) => Some((a@, b@)),
        None => None,
    }
}

/// Equipped items, as values.
pub open spec fn equipment_view(e: Option<BTreeMap<u8, u32>>) -> Option<Map<u8, u32>> {
    match e {
        Some(m) => Some(m@),
        None => None,
    }
}

impl View for ObjectObservationRuntime {
    type V = RuntimeView;

    closed spec fn view(&self) -> RuntimeView {
        RuntimeView {
            known: entity_views(self.known@),
            quests: quest_views(self.known_quests@),
            inventory: self.known_inventory@,
            instances: self.known_inventory_instances@,
            mover: self.known_controlled_mover,
            mover_position: self.last_controlled_position,
            mover_flags: self.last_controlled_flags,
            money: self.last_money,
            ranged: self.known_equipped_ranged_item,
            ranged_seen: self.equipment_observed,
            equipment: equipment_view(self.known_equipped_items),
            equipment_seen: self.equipment_slots_observed,
            skills: skill_views(self.known_profession_skills),
            skills_seen: self.profession_skill_info_observed,
            pet_seen: self.pet_control_observed,
            class_id: self.last_class_id,
            player_position: self.last_player_position,
            map_id: self.map_id,
            player: self.player_guid,
        }
    }
}

/// One change the runtime reports, as a value.
pub enum Change {
    Pet(Option<EntityId>),
    Talents(Option<u8>, Option<u8>, Seq<TalentRank>),
    Mover(Option<EntityId>, Option<WorldPosition>, u32),
    Ranged(Option<u32>),
    Professions(Map<u32, (u16, u16)>, Map<usize, u32>),
    Equipment(Option<Map<u8, u32>>),
    Class(u8),
    Position(WorldPosition),
    Quest(u32, Seq<u32>, bool),
    QuestGone(u32),
    Money(u64),
    Upsert(EntityView),
    Count(u32, u32),
    Instances(Seq<InventoryItemInstance>),
    Gone(EntityId),
}

/// Whether an observation reports a change.
pub open spec fn reports(o: ProtocolObservation, c: Change) -> bool {
    match c {
        Change::Pet(p) => o == ProtocolObservation::PetControl { pet: p },
        Change::Talents(g, a, t) => o matches ProtocolObservation::PlayerTalents { group_count, active_group, talents }
            && group_count == g && active_group == a && talents@ == t,
        Change::Mover(m, p, f) => o == ProtocolObservation::ControlledMover { mover: m, position: p, flags: f },
        Change::Ranged(i) => o == ProtocolObservation::EquippedRangedItem { item: i },
        Change::Professions(sk, sl) => o matches ProtocolObservation::ProfessionSnapshot { skills, slots }
            && skills@ == sk && slots@ == sl,
        Change::Equipment(e) => o matches ProtocolObservation::EquippedItems { items } && equipment_view(items) == e,
        Change::Class(c) => o == ProtocolObservation::PlayerClass { class_id: c },
        Change::Position(p) => o == ProtocolObservation::PlayerPosition { position: p, moving: false, flags: 0, client_time: 0 },
        Change::Quest(q, obj, done) => o matches ProtocolObservation::QuestProgress { quest, objectives, complete }
            && quest == q && objectives@ == obj && complete == done,
        Change::QuestGone(q) => o == ProtocolObservation::QuestRemoved { quest: q },
        Change::Money(m) => o == ProtocolObservation::Money { copper: m },
        Change::Upsert(e) => o matches ProtocolObservation::EntityUpsert { entity } && entity@ == e,
        Change::Count(i, n) => o == ProtocolObservation::InventoryCount { item: i, count: n },
        Change::Instances(s) => o matches ProtocolObservation::InventoryInstances { items } && items@ == s,
        Change::Gone(g) => o == ProtocolObservation::EntityRemoved { entity: g },
    }
}

/// Whether a list of observations reports a list of changes, one for one and in order.
pub open spec fn reports_all(r: Seq<ProtocolObservation>, cs: Seq<Change>) -> bool {
    &&& r.len() == cs.len()
    &&& forall|i: int| 0 <= i < r.len() ==> reports(#[trigger] r[i], cs[i])
}

/// The runtime before the first packet, on map 0 with no player.
pub open spec fn fresh_view() -> RuntimeView {
    RuntimeView {
        known: Map::empty(),
        quests: Map::empty(),
        inventory: Map::empty(),
        instances: Seq::empty(),
        mover: None,
        mover_position: None,
        mover_flags: 0,
        money: None,
        ranged: None,
        ranged_seen: false,
        equipment: None,
        equipment_seen: false,
        skills: None,
        skills_seen: false,
        pet_seen: false,
        class_id: None,
        player_position: None,
        map_id: 0,
        player: None,
    }
}

/// The unit a player controls, from its charm field: a nonzero GUID.
pub open spec fn charm_of(f: Option<FieldValue>) -> Option<EntityId> {
    match f {
        Some(FieldValue::Long(v)) => if v != 0 { Some(EntityId(v)) } else { None },
        _ => None,
    }
}

/// The player's money where it is not negative.
pub open spec fn money_of(f: Option<FieldValue>) -> Option<u64> {
    match f {
        Some(FieldValue::Integer(v)) => if v >= 0 { Some(v as u64) } else { None },
        _ => None,
    }
}

/// Whether an item's owner field names the player.
pub open spec fn owned_by(f: Option<FieldValue>, player: EntityId) -> bool {
    match f {
        Some(FieldValue::Long(v)) => v == player.0,
        _ => false,
    }
}

/// An item's stack count where it is positive.
pub open spec fn stack_of(f: Option<FieldValue>) -> Option<u32> {
    match f {
        Some(v) => match field_u32_of(v) {
            Some(c) => if c > 0 { Some(c) } else { None },
            None => None,
        },
        None => None,
    }
}

/// The GUID in the ranged equipment slot (slot 17), where it is nonzero.
pub open spec fn ranged_guid_of(f: Option<FieldValue>) -> Option<u64> {
    match f {
        Some(FieldValue::LongArray(values)) => if values@.len() > 17 {
            match values@[17] {
                Some(g) => if g != 0 { Some(g) } else { None },
                None => None,
            }
        } else {
            None
        },
        _ => None,
    }
}

/// The backpack slot of each item GUID in the pack-slots field.
pub open spec fn backpack_of(f: Option<FieldValue>) -> Map<u64, u8> {
    match f {
        Some(FieldValue::LongArray(values)) => backpack_prefix(values@, values@.len() as int),
        _ => Map::empty(),
    }
}

/// The equipped items by slot, given the item entry of each item GUID.
pub open spec fn equipped_of(f: Option<FieldValue>, entries: Map<u64, u32>) -> Option<Map<u8, u32>> {
    match f {
        Some(FieldValue::LongArray(values)) =>
            equipped_prefix(values@, entries, if values@.len() < 19 { values@.len() as int } else { 19 }),
        _ => None,
    }
}

/// The skill lines and their slots in a skill-info field.
pub open spec fn skills_of(f: FieldValue) -> Option<(Map<u32, (u16, u16)>, Map<usize, u32>)> {
    match f {
        FieldValue::TwoShortsArray(entries) => Some(skill_prefix(entries@, slot_count(entries@.len() as int))),
        _ => None,
    }
}

/// The quest journal in a quest-log field.
pub open spec fn journal_of(f: Option<FieldValue>) -> Map<u32, (bool, Seq<u32>)> {
    match f {
        Some(FieldValue::CustomArray(rows)) =>
            journal_prefix(rows@.map_values(|row: Vec<Option<FieldValue>>| row@), rows@.len() as int),
        _ => Map::empty(),
    }
}

/// The index of the first of the first `n` objects with a GUID.
pub open spec fn find_in(objs: Seq<TrackedObject>, g: u64, n: int) -> Option<int>
    decreases n,
{
    if n <= 0 {
        None
    } else {
        match find_in(objs, g, n - 1) {
            Some(i) => Some(i),
            None => if objs[n - 1].record.guid == g { Some(n - 1) } else { None },
        }
    }
}

/// The index of the first object with a GUID.
pub open spec fn find(objs: Seq<TrackedObject>, g: u64) -> Option<int> {
    find_in(objs, g, objs.len() as int)
}

/// What `find_in` finds: the first match, or no match at all.
pub proof fn lemma_find_in(objs: Seq<TrackedObject>, g: u64, n: int)
    requires
        0 <= n <= objs.len(),
    ensures
        match find_in(objs, g, n) {
            Some(i) => 0 <= i < n && objs[i].record.guid == g && forall|j: int| 0 <= j < i ==> objs[j].record.guid != g,
            None => forall|j: int| 0 <= j < n ==> objs[j].record.guid != g,
        },
    decreases n,
{
    if n > 0 {
        lemma_find_in(objs, g, n - 1);
    }
}

/// A first match stays the first match as more objects are searched.
pub proof fn lemma_find_in_stays(objs: Seq<TrackedObject>, g: u64, n: int, m: int)
    requires
        0 <= n <= m,
        find_in(objs, g, n) is Some,
    ensures
        find_in(objs, g, m) == find_in(objs, g, n),
    decreases m - n,
{
    if m > n {
        lemma_find_in_stays(objs, g, n, m - 1);
    }
}

/// The item entry of each GUID among the first `n` objects: that of the first object with
/// the GUID, where it has one.
pub open spec fn entries_in(objs: Seq<TrackedObject>, n: int) -> Map<u64, u32>
    decreases n,
{
    if n <= 0 {
        Map::empty()
    } else {
        let m = entries_in(objs, n - 1);
        let o = objs[n - 1];
        match o.record.entry {
            Some(e) => if find_in(objs, o.record.guid, n - 1) is None { m.insert(o.record.guid, e) } else { m },
            None => m,
        }
    }
}

/// The player's object, where there is one.
pub open spec fn player_object(objs: Seq<TrackedObject>, player: Option<EntityId>) -> Option<int> {
    match player {
        Some(p) => find(objs, p.0),
        None => None,
    }
}

/// The unit the player controls.
pub open spec fn mover_of(objs: Seq<TrackedObject>, player: Option<EntityId>) -> Option<EntityId> {
    match player_object(objs, player) {
        Some(i) => charm_of(objs[i].charm),
        None => None,
    }
}

/// The position of the controlled unit on map `map_id`.
pub open spec fn mover_position_of(objs: Seq<TrackedObject>, mover: Option<EntityId>, map_id: u32) -> Option<WorldPosition> {
    match mover {
        Some(m) => match find(objs, m.0) {
            Some(j) => position_of(objs[j].record, map_id),
            None => None,
        },
        None => None,
    }
}

/// The movement flags of the controlled unit, 0 where they are not known.
pub open spec fn mover_flags_of(objs: Seq<TrackedObject>, mover: Option<EntityId>) -> u32 {
    match mover {
        Some(m) => match find(objs, m.0) {
            Some(j) => match objs[j].movement_flags {
                Some(f) => f,
                None => 0,
            },
            None => 0,
        },
        None => 0,
    }
}

/// The backpack slots of the player's items.
pub open spec fn backpack(objs: Seq<TrackedObject>, player: Option<EntityId>) -> Map<u64, u8> {
    match player_object(objs, player) {
        Some(i) => backpack_of(objs[i].pack_slots),
        None => Map::empty(),
    }
}

/// The item entry of the player's ranged weapon.
pub open spec fn ranged_item_of(objs: Seq<TrackedObject>, player: Option<EntityId>) -> Option<u32> {
    match player_object(objs, player) {
        Some(i) => match ranged_guid_of(objs[i].inventory_slots) {
            Some(g) => match find(objs, g) {
                Some(k) => objs[k].record.entry,
                None => None,
            },
            None => None,
        },
        None => None,
    }
}

/// The pet news of a packet: a pet spells packet names the pet (or none); a pet-less
/// talents packet before any pet spells packet says there is no pet.
pub open spec fn pet_step(v: RuntimeView, opcode: u16, body: Seq<u8>) -> (RuntimeView, Seq<Change>) {
    if opcode == SMSG_PET_SPELLS && body.len() >= 8 {
        let raw = u64_at(body, 0);
        (RuntimeView { pet_seen: true, ..v }, seq![Change::Pet(if raw != 0 { Some(EntityId(raw)) } else { None })])
    } else if opcode == SMSG_TALENTS_INFO && body.len() > 0 && body[0] == 0 && !v.pet_seen {
        (RuntimeView { pet_seen: true, ..v }, seq![Change::Pet(None)])
    } else {
        (v, Seq::empty())
    }
}

/// The talents a player talents packet reports.
pub open spec fn talents_change(opcode: u16, body: Seq<u8>) -> Seq<Change> {
    if opcode == SMSG_TALENTS_INFO {
        match talents_info_of(body) {
            Some((g, a, t)) => seq![Change::Talents(g, a, t)],
            None => Seq::empty(),
        }
    } else {
        Seq::empty()
    }
}

/// The controlled-unit news: reported when the unit, its position or its flags changed.
pub open spec fn mover_step(v: RuntimeView, objs: Seq<TrackedObject>) -> (RuntimeView, Seq<Change>) {
    let m = mover_of(objs, v.player);
    let p = mover_position_of(objs, m, v.map_id);
    let f = mover_flags_of(objs, m);
    if m != v.mover || !opt_position_eq(p, v.mover_position) || f != v.mover_flags {
        (RuntimeView { mover: m, mover_position: p, mover_flags: f, ..v }, seq![Change::Mover(m, p, f)])
    } else {
        (v, Seq::empty())
    }
}

/// The ranged-weapon news: reported the first time and when it changed.
pub open spec fn ranged_step(v: RuntimeView, objs: Seq<TrackedObject>) -> (RuntimeView, Seq<Change>) {
    let r = ranged_item_of(objs, v.player);
    if !v.ranged_seen || r != v.ranged {
        (RuntimeView { ranged: r, ranged_seen: true, ..v }, seq![Change::Ranged(r)])
    } else {
        (v, Seq::empty())
    }
}

/// What the pass over the objects has gathered so far: the runtime's memory, the changes,
/// the item counts and backpack stacks of the player's items, and the entities seen.
pub struct Scan {
    pub view: RuntimeView,
    pub changes: Seq<Change>,
    pub counted: Map<u32, u32>,
    pub stacks: Seq<InventoryItemInstance>,
    pub current: Map<u64, EntityView>,
}

/// The sum of two counts, at most the largest count.
pub open spec fn saturating_sum(a: u32, b: u32) -> u32 {
    if a + b > u32::MAX { u32::MAX } else { (a + b) as u32 }
}

/// Count an object where it is a stack the player owns: add its count to its item's count,
/// and where it sits in the backpack, note the stack.
pub open spec fn stock_step(s: Scan, o: TrackedObject, slots: Map<u64, u8>) -> Scan {
    match s.view.player {
        Some(p) => if owned_by(o.owner, p) {
            match (o.record.entry, stack_of(o.stack_count)) {
                (Some(en), Some(st)) => if en != 0 && st != 0 {
                    let prev = if s.counted.contains_key(en) { s.counted[en] } else { 0 };
                    Scan {
                        counted: s.counted.insert(en, saturating_sum(prev, st)),
                        stacks: if slots.contains_key(o.record.guid) {
                            s.stacks.push(InventoryItemInstance {
                                item: en,
                                guid: EntityId(o.record.guid),
                                backpack_slot: slots[o.record.guid],
                                count: st,
                            })
                        } else {
                            s.stacks
                        },
                        ..s
                    }
                } else {
                    s
                },
                _ => s,
            }
        } else {
            s
        },
        None => s,
    }
}

/// The player's skill lines: reported the first time and when they changed.
pub open spec fn skills_step(n: (RuntimeView, Seq<Change>), o: TrackedObject) -> (RuntimeView, Seq<Change>) {
    let (v, cs) = n;
    match o.skill_info {
        Some(f) => match skills_of(f) {
            Some(sk) => if !v.skills_seen || v.skills != Some(sk) {
                (RuntimeView { skills: Some(sk), skills_seen: true, ..v }, cs.push(Change::Professions(sk.0, sk.1)))
            } else {
                n
            },
            None => n,
        },
        None => n,
    }
}

/// The player's equipment: reported the first time and when it changed.
pub open spec fn equipment_step(n: (RuntimeView, Seq<Change>), o: TrackedObject, entries: Map<u64, u32>) -> (RuntimeView, Seq<Change>) {
    let (v, cs) = n;
    let e = equipped_of(o.inventory_slots, entries);
    if !v.equipment_seen || e != v.equipment {
        (RuntimeView { equipment: e, equipment_seen: true, ..v }, cs.push(Change::Equipment(e)))
    } else {
        n
    }
}

/// The player's class: reported when it changed.
pub open spec fn class_step(n: (RuntimeView, Seq<Change>), o: TrackedObject) -> (RuntimeView, Seq<Change>) {
    let (v, cs) = n;
    match o.class_id {
        Some(c) => if v.class_id != Some(c) {
            (RuntimeView { class_id: Some(c), ..v }, cs.push(Change::Class(c)))
        } else {
            n
        },
        None => n,
    }
}

/// The player's position: reported when it changed.
pub open spec fn position_step(n: (RuntimeView, Seq<Change>), p: Option<WorldPosition>) -> (RuntimeView, Seq<Change>) {
    let (v, cs) = n;
    match p {
        Some(q) => if !opt_position_eq(v.player_position, Some(q)) {
            (RuntimeView { player_position: Some(q), ..v }, cs.push(Change::Position(q)))
        } else {
            n
        },
        None => n,
    }
}

/// The quests of `keys`, in order, whose entry in the journal is new or changed.
pub open spec fn quest_news(keys: Seq<u32>, known: Map<u32, (bool, Seq<u32>)>, cur: Map<u32, (bool, Seq<u32>)>) -> Seq<Change>
    decreases keys.len(),
{
    if keys.len() == 0 {
        Seq::empty()
    } else {
        let prev = quest_news(keys.drop_last(), known, cur);
        let q = keys.last();
        if known.contains_key(q) && known[q] == cur[q] {
            prev
        } else {
            prev.push(Change::Quest(q, cur[q].1, cur[q].0))
        }
    }
}

/// The quests of `keys`, in order, that left the journal.
pub open spec fn quests_dropped(keys: Seq<u32>, cur: Map<u32, (bool, Seq<u32>)>) -> Seq<Change>
    decreases keys.len(),
{
    if keys.len() == 0 {
        Seq::empty()
    } else {
        let prev = quests_dropped(keys.drop_last(), cur);
        if cur.contains_key(keys.last()) {
            prev
        } else {
            prev.push(Change::QuestGone(keys.last()))
        }
    }
}

/// The quest journal: each new or changed quest in quest order, then each quest that left
/// the journal in quest order.
pub open spec fn quests_step(n: (RuntimeView, Seq<Change>), o: TrackedObject) -> (RuntimeView, Seq<Change>) {
    let (v, cs) = n;
    let cur = journal_of(o.quest_log);
    (
        RuntimeView { quests: cur, ..v },
        cs + quest_news(in_order32(cur.dom()), v.quests, cur) + quests_dropped(in_order32(v.quests.dom()), cur),
    )
}

/// The player's money: reported when it changed.
pub open spec fn money_step(n: (RuntimeView, Seq<Change>), o: TrackedObject) -> (RuntimeView, Seq<Change>) {
    let (v, cs) = n;
    match money_of(o.coinage) {
        Some(m) => if v.money != Some(m) {
            (RuntimeView { money: Some(m), ..v }, cs.push(Change::Money(m)))
        } else {
            n
        },
        None => n,
    }
}

/// Everything the player's own object reports.
pub open spec fn player_step(n: (RuntimeView, Seq<Change>), o: TrackedObject, entries: Map<u64, u32>) -> (RuntimeView, Seq<Change>) {
    let n1 = skills_step(n, o);
    let n2 = equipment_step(n1, o, entries);
    let n3 = class_step(n2, o);
    let n4 = position_step(n3, position_of(o.record, n.0.map_id));
    let n5 = quests_step(n4, o);
    money_step(n5, o)
}

/// One object of the pass: its stock, what it reports as the player's object, and its
/// entity where that is new or changed.
pub open spec fn scan_step(s: Scan, o: TrackedObject, slots: Map<u64, u8>, entries: Map<u64, u32>) -> Scan {
    let e = projected(o.record, s.view.map_id);
    let s1 = stock_step(s, o, slots);
    let n = if s.view.player == Some(EntityId(o.record.guid)) {
        player_step((s1.view, s1.changes), o, entries)
    } else {
        (s1.view, s1.changes)
    };
    let cs = if s.view.known.contains_key(o.record.guid) && entity_eq(s.view.known[o.record.guid], e) {
        n.1
    } else {
        n.1.push(Change::Upsert(e))
    };
    Scan { view: n.0, changes: cs, current: s1.current.insert(o.record.guid, e), ..s1 }
}

/// The pass over the first `n` objects.
pub open spec fn scan(s: Scan, objs: Seq<TrackedObject>, slots: Map<u64, u8>, entries: Map<u64, u32>, n: int) -> Scan
    decreases n,
{
    if n <= 0 {
        s
    } else {
        scan_step(scan(s, objs, slots, entries, n - 1), objs[n - 1], slots, entries)
    }
}

/// The items of `keys`, in order, whose count changed, with their new count (0 where the
/// player no longer has any).
pub open spec fn count_news(keys: Seq<u32>, old_counts: Map<u32, u32>, new_counts: Map<u32, u32>) -> Seq<Change>
    decreases keys.len(),
{
    if keys.len() == 0 {
        Seq::empty()
    } else {
        let prev = count_news(keys.drop_last(), old_counts, new_counts);
        let k = keys.last();
        let before = if old_counts.contains_key(k) { old_counts[k] } else { 0 };
        let after = if new_counts.contains_key(k) { new_counts[k] } else { 0 };
        if before != after {
            prev.push(Change::Count(k, after))
        } else {
            prev
        }
    }
}

/// Whether a stack goes before another: by item, then backpack slot, then GUID.
pub open spec fn stack_le(a: InventoryItemInstance, b: InventoryItemInstance) -> bool {
    a.item < b.item || (a.item == b.item && (a.backpack_slot < b.backpack_slot
        || (a.backpack_slot == b.backpack_slot && a.guid.0 <= b.guid.0)))
}

/// A sorted list of stacks with one more stack, placed after the stacks that do not go after it.
pub open spec fn insert_stack(s: Seq<InventoryItemInstance>, x: InventoryItemInstance) -> Seq<InventoryItemInstance>
    decreases s.len(),
{
    if s.len() == 0 {
        seq![x]
    } else if stack_le(s.last(), x) {
        s.push(x)
    } else {
        insert_stack(s.drop_last(), x).push(s.last())
    }
}

/// The stacks sorted by item, backpack slot and GUID, keeping the order of equal keys.
pub open spec fn sort_stacks(s: Seq<InventoryItemInstance>) -> Seq<InventoryItemInstance>
    decreases s.len(),
{
    if s.len() == 0 {
        s
    } else {
        insert_stack(sort_stacks(s.drop_last()), s.last())
    }
}

/// The entities of `keys`, in order, that are no longer among the objects.
pub open spec fn entities_gone(keys: Seq<u64>, current: Map<u64, EntityView>) -> Seq<Change>
    decreases keys.len(),
{
    if keys.len() == 0 {
        Seq::empty()
    } else {
        let prev = entities_gone(keys.drop_last(), current);
        if current.contains_key(keys.last()) {
            prev
        } else {
            prev.push(Change::Gone(EntityId(keys.last())))
        }
    }
}

/// The end of an observation: the item counts that changed, the backpack stacks where
/// they changed, and the entities that left; then the counts and entities become those
/// of the pass.
pub open spec fn finish(s: Scan) -> (RuntimeView, Seq<Change>) {
    let v = s.view;
    let c1 = s.changes + count_news(in_order32(v.inventory.dom().union(s.counted.dom())), v.inventory, s.counted);
    let sorted = sort_stacks(s.stacks);
    let c2 = if sorted != v.instances { c1.push(Change::Instances(sorted)) } else { c1 };
    let c3 = c2 + entities_gone(in_order64(v.known.dom()), s.current);
    (RuntimeView { known: s.current, inventory: s.counted, instances: sorted, ..v }, c3)
}

/// The objects the processor holds, as values.
pub open spec fn objects_view(objects: Option<Vec<TrackedObject>>) -> Option<Seq<TrackedObject>> {
    match objects {
        Some(v) => Some(v@),
        None => None,
    }
}

/// What one packet makes the runtime report and remember, given the objects the processor
/// holds after the packet (none where the processor keeps no object map).
pub open spec fn observe_spec(v: RuntimeView, opcode: u16, body: Seq<u8>, objects: Option<Seq<TrackedObject>>) -> (RuntimeView, Seq<Change>) {
    let (v1, c1) = pet_step(v, opcode, body);
    let c2 = c1 + talents_change(opcode, body);
    let s = match objects {
        Some(objs) => {
            let (v2, c3) = mover_step(v1, objs);
            let (v3, c4) = ranged_step(v2, objs);
            let start = Scan { view: v3, changes: c2 + c3 + c4, counted: Map::empty(), stacks: Seq::empty(), current: Map::empty() };
            scan(start, objs, backpack(objs, v1.player), entries_in(objs, objs.len() as int), objs.len() as int)
        },
        None => Scan { view: v1, changes: c2, counted: Map::empty(), stacks: Seq::empty(), current: Map::empty() },
    };
    finish(s)
}

/// The index of the first object with a GUID.
fn find_object(objs: &Vec<TrackedObject>, g: u64) -> (r: Option<usize>)
    ensures
        match r {
            Some(i) => find(objs@, g) == Some(i as int) && i < objs@.len() && objs@[i as int].record.guid == g,
            None => find(objs@, g) is None,
        },
{
    let mut i: usize = 0;
    while i < objs.len()
        invariant
            i <= objs@.len(),
            find_in(objs@, g, i as int) is None,
        decreases objs@.len() - i,
    {
        if objs[i].record.guid == g {
            proof {
                assert(find_in(objs@, g, i + 1) == Some(i as int));
                lemma_find_in_stays(objs@, g, i + 1, objs@.len() as int);
            }
            return Some(i);
        }
        i = i + 1;
    }
    None
}

/// Whether an object before index `n` has a GUID.
fn seen_before(objs: &Vec<TrackedObject>, g: u64, n: usize) -> (r: bool)
    requires
        n <= objs@.len(),
    ensures
        r == (find_in(objs@, g, n as int) is Some),
{
    let mut i: usize = 0;
    while i < n
        invariant
            i <= n <= objs@.len(),
            find_in(objs@, g, i as int) is None,
        decreases n - i,
    {
        if objs[i].record.guid == g {
            proof {
                assert(find_in(objs@, g, i + 1) == Some(i as int));
                lemma_find_in_stays(objs@, g, i + 1, n as int);
            }
            return true;
        }
        i = i + 1;
    }
    false
}

/// The item entry of each GUID: that of the first object with the GUID.
fn entries_of(objs: &Vec<TrackedObject>) -> (r: BTreeMap<u64, u32>)
    ensures
        r@ == entries_in(objs@, objs@.len() as int),
{
    let mut m: BTreeMap<u64, u32> = BTreeMap::new();
    let mut i: usize = 0;
    while i < objs.len()
        invariant
            i <= objs@.len(),
            m@ == entries_in(objs@, i as int),
        decreases objs@.len() - i,
    {
        match objs[i].record.entry {
            Some(e) => {
                if !seen_before(objs, objs[i].record.guid, i) {
                    m.insert(objs[i].record.guid, e);
                }
            },
            None => {},
        }
        i = i + 1;
    }
    m
}

/// Whether every entry of `a` is in `b` with the same value.
fn included_skills(a: &BTreeMap<u32, (u16, u16)>, b: &BTreeMap<u32, (u16, u16)>) -> (r: bool)
    ensures
        r == (forall|k: u32| #[trigger] a@.contains_key(k) ==> b@.contains_key(k) && b@[k] == a@[k]),
{
    let ghost s = spec_btree_map_iter(a).remaining();
    let ghost mut n: int = 0;
    let mut ok = true;
    for pair in it: a.iter()
        invariant
            s == spec_btree_map_iter(a).remaining(),
            it.seq() == s,
            n == it.index(),
            forall|i: int| 0 <= i < s.len() ==> a@.contains_key(*(#[trigger] s[i]).0) && a@[*s[i].0] == *s[i].1,
            forall|k: u32| a@.contains_key(k) ==> s.contains((&k, &a@[k])),
            ok ==> forall|i: int| 0 <= i < n ==> b@.contains_key(*(#[trigger] s[i]).0) && b@[*s[i].0] == *s[i].1,
            !ok ==> exists|k: u32| a@.contains_key(k) && !(b@.contains_key(k) && b@[k] == a@[k]),
    {
        let (k, v) = pair;
        proof {
            assert(s[n] == pair);
        }
        let same = match b.get(k) {
            Some(w) => w.0 == v.0 && w.1 == v.1,
            None => false,
        };
        if !same {
            ok = false;
        }
        proof {
            n = n + 1;
        }
    }
    proof {
        if ok {
            assert forall|k: u32| a@.contains_key(k) implies b@.contains_key(k) && b@[k] == a@[k] by {
                assert(s.contains((&k, &a@[k])));
                let i = choose|i: int| 0 <= i < s.len() && s[i] == (&k, &a@[k]);
                assert(*s[i].0 == k);
            }
        }
    }
    ok
}

/// Whether two maps hold the same entries.
fn same_skills_map(a: &BTreeMap<u32, (u16, u16)>, b: &BTreeMap<u32, (u16, u16)>) -> (r: bool)
    ensures
        r == (a@ == b@),
{
    let r = included_skills(a, b) && included_skills(b, a);
    proof {
        if r {
            assert forall|k| #[trigger] a@.contains_key(k) <==> b@.contains_key(k) by {
                if a@.contains_key(k) {
                    assert(b@.contains_key(k));
                }
                if b@.contains_key(k) {
                    assert(a@.contains_key(k));
                }
            }
            assert(a@.dom() =~= b@.dom());
            assert(a@ =~= b@);
        }
    }
    r
}

/// Whether every entry of `a` is in `b` with the same value.
fn included_slots(a: &BTreeMap<usize, u32>, b: &BTreeMap<usize, u32>) -> (r: bool)
    ensures
        r == (forall|k: usize| #[trigger] a@.contains_key(k) ==> b@.contains_key(k) && b@[k] == a@[k]),
{
    let ghost s = spec_btree_map_iter(a).remaining();
    let ghost mut n: int = 0;
    let mut ok = true;
    for pair in it: a.iter()
        invariant
            s == spec_btree_map_iter(a).remaining(),
            it.seq() == s,
            n == it.index(),
            forall|i: int| 0 <= i < s.len() ==> a@.contains_key(*(#[trigger] s[i]).0) && a@[*s[i].0] == *s[i].1,
            forall|k: usize| a@.contains_key(k) ==> s.contains((&k, &a@[k])),
            ok ==> forall|i: int| 0 <= i < n ==> b@.contains_key(*(#[trigger] s[i]).0) && b@[*s[i].0] == *s[i].1,
            !ok ==> exists|k: usize| a@.contains_key(k) && !(b@.contains_key(k) && b@[k] == a@[k]),
    {
        let (k, v) = pair;
        proof {
            assert(s[n] == pair);
        }
        let same = match b.get(k) {
            Some(w) => *w == *v,
            None => false,
        };
        if !same {
            ok = false;
        }
        proof {
            n = n + 1;
        }
    }
    proof {
        if ok {
            assert forall|k: usize| a@.contains_key(k) implies b@.contains_key(k) && b@[k] == a@[k] by {
                assert(s.contains((&k, &a@[k])));
                let i = choose|i: int| 0 <= i < s.len() && s[i] == (&k, &a@[k]);
                assert(*s[i].0 == k);
            }
        }
    }
    ok
}

/// Whether two maps hold the same entries.
fn same_slots_map(a: &BTreeMap<usize, u32>, b: &BTreeMap<usize, u32>) -> (r: bool)
    ensures
        r == (a@ == b@),
{
    let r = included_slots(a, b) && included_slots(b, a);
    proof {
        if r {
            assert forall|k| #[trigger] a@.contains_key(k) <==> b@.contains_key(k) by {
                if a@.contains_key(k) {
                    assert(b@.contains_key(k));
                }
                if b@.contains_key(k) {
                    assert(a@.contains_key(k));
                }
            }
            assert(a@.dom() =~= b@.dom());
            assert(a@ =~= b@);
        }
    }
    r
}

/// Whether every entry of `a` is in `b` with the same value.
fn included_equipment(a: &BTreeMap<u8, u32>, b: &BTreeMap<u8, u32>) -> (r: bool)
    ensures
        r == (forall|k: u8| #[trigger] a@.contains_key(k) ==> b@.contains_key(k) && b@[k] == a@[k]),
{
    let ghost s = spec_btree_map_iter(a).remaining();
    let ghost mut n: int = 0;
    let mut ok = true;
    for pair in it: a.iter()
        invariant
            s == spec_btree_map_iter(a).remaining(),
            it.seq() == s,
            n == it.index(),
            forall|i: int| 0 <= i < s.len() ==> a@.contains_key(*(#[trigger] s[i]).0) && a@[*s[i].0] == *s[i].1,
            forall|k: u8| a@.contains_key(k) ==> s.contains((&k, &a@[k])),
            ok ==> forall|i: int| 0 <= i < n ==> b@.contains_key(*(#[trigger] s[i]).0) && b@[*s[i].0] == *s[i].1,
            !ok ==> exists|k: u8| a@.contains_key(k) && !(b@.contains_key(k) && b@[k] == a@[k]),
    {
        let (k, v) = pair;
        proof {
            assert(s[n] == pair);
        }
        let same = match b.get(k) {
            Some(w) => *w == *v,
            None => false,
        };
        if !same {
            ok = false;
        }
        proof {
            n = n + 1;
        }
    }
    proof {
        if ok {
            assert forall|k: u8| a@.contains_key(k) implies b@.contains_key(k) && b@[k] == a@[k] by {
                assert(s.contains((&k, &a@[k])));
                let i = choose|i: int| 0 <= i < s.len() && s[i] == (&k, &a@[k]);
                assert(*s[i].0 == k);
            }
        }
    }
    ok
}

/// Whether two maps hold the same entries.
fn same_equipment_map(a: &BTreeMap<u8, u32>, b: &BTreeMap<u8, u32>) -> (r: bool)
    ensures
        r == (a@ == b@),
{
    let r = included_equipment(a, b) && included_equipment(b, a);
    proof {
        if r {
            assert forall|k| #[trigger] a@.contains_key(k) <==> b@.contains_key(k) by {
                if a@.contains_key(k) {
                    assert(b@.contains_key(k));
                }
                if b@.contains_key(k) {
                    assert(a@.contains_key(k));
                }
            }
            assert(a@.dom() =~= b@.dom());
            assert(a@ =~= b@);
        }
    }
    r
}

/// A report added to reports keeps them matched one for one.
proof fn lemma_push_reports(r: Seq<ProtocolObservation>, cs: Seq<Change>, o: ProtocolObservation, c: Change)
    requires
        reports_all(r, cs),
        reports(o, c),
    ensures
        reports_all(r.push(o), cs.push(c)),
{
    assert forall|i: int| 0 <= i < r.push(o).len() implies reports(#[trigger] r.push(o)[i], cs.push(c)[i]) by {
        if i < r.len() {
            assert(r.push(o)[i] == r[i]);
            assert(cs.push(c)[i] == cs[i]);
        }
    }
}

/// Whether two options hold the same value.
fn same_guid(a: Option<EntityId>, b: Option<EntityId>) -> (r: bool)
    ensures
        r == (a == b),
{
    match (a, b) {
        (Some(x), Some(y)) => x == y,
        (None, None) => true,
        _ => false,
    }
}

/// Whether two options hold the same value.
fn same_u32(a: Option<u32>, b: Option<u32>) -> (r: bool)
    ensures
        r == (a == b),
{
    match (a, b) {
        (Some(x), Some(y)) => x == y,
        (None, None) => true,
        _ => false,
    }
}

/// Whether two options hold the same value.
fn same_u8(a: Option<u8>, b: Option<u8>) -> (r: bool)
    ensures
        r == (a == b),
{
    match (a, b) {
        (Some(x), Some(y)) => x == y,
        (None, None) => true,
        _ => false,
    }
}

/// Whether two options hold the same value.
fn same_u64(a: Option<u64>, b: Option<u64>) -> (r: bool)
    ensures
        r == (a == b),
{
    match (a, b) {
        (Some(x), Some(y)) => x == y,
        (None, None) => true,
        _ => false,
    }
}

/// The position of an object on map `map_id`.
fn record_position(o: &ObjectRecord, map_id: u32) -> (r: Option<WorldPosition>)
    ensures
        r == position_of(*o, map_id),
{
    match o.position {
        Some(p) => Some(WorldPosition {
            map: map_id,
            point: p,
            orientation: match o.facing {
                Some(f) => f,
                None => 0,
            },
        }),
        None => None,
    }
}

/// Count an object where it is a stack the player owns (see [`stock_step`]).
fn note_stock(
    player: Option<EntityId>,
    o: &TrackedObject,
    slots: &BTreeMap<u64, u8>,
    counted: &mut BTreeMap<u32, u32>,
    stacks: &mut Vec<InventoryItemInstance>,
    Ghost(s): Ghost<Scan>,
)
    requires
        s.view.player == player,
        s.counted == old(counted)@,
        s.stacks == old(stacks)@,
    ensures
        final(counted)@ == stock_step(s, *o, slots@).counted,
        final(stacks)@ == stock_step(s, *o, slots@).stacks,
{
    match player {
        Some(p) => {
            let owned = match &o.owner {
                Some(f) => item_owned_by(Some(f), p),
                None => item_owned_by(None, p),
            };
            if owned {
                let stack = match &o.stack_count {
                    Some(f) => item_stack_count(Some(f)),
                    None => item_stack_count(None),
                };
                match (o.record.entry, stack) {
                    (Some(en), Some(st)) => {
                        if en != 0 && st != 0 {
                            let prev = match counted.get(&en) {
                                Some(c) => *c,
                                None => 0,
                            };
                            counted.insert(en, prev.saturating_add(st));
                            match slots.get(&o.record.guid) {
                                Some(slot) => {
                                    stacks.push(InventoryItemInstance {
                                        item: en,
                                        guid: EntityId(o.record.guid),
                                        backpack_slot: *slot,
                                        count: st,
                                    });
                                },
                                None => {},
                            }
                        }
                    },
                    _ => {},
                }
            }
        },
        None => {},
    }
}

/// Whether a stack goes before another (see [`stack_le`]).
fn stack_before(a: &InventoryItemInstance, b: &InventoryItemInstance) -> (r: bool)
    ensures
        r == stack_le(*a, *b),
{
    a.item < b.item || (a.item == b.item && (a.backpack_slot < b.backpack_slot
        || (a.backpack_slot == b.backpack_slot && a.guid.0 <= b.guid.0)))
}

/// Place a stack in a sorted list of stacks (see [`insert_stack`]).
fn insert_stack_into(s: Vec<InventoryItemInstance>, x: InventoryItemInstance) -> (r: Vec<InventoryItemInstance>)
    ensures
        r@ == insert_stack(s@, x),
    decreases s@.len(),
{
    let mut s = s;
    if s.len() == 0 {
        s.push(x);
        return s;
    }
    let last = s[s.len() - 1];
    if stack_before(&last, &x) {
        s.push(x);
        s
    } else {
        let ghost whole = s@;
        let _ = s.pop();
        proof {
            assert(s@ =~= whole.drop_last());
        }
        let mut r = insert_stack_into(s, x);
        r.push(last);
        r
    }
}

/// The stacks sorted by item, backpack slot and GUID (see [`sort_stacks`]).
fn sorted_stacks(v: &Vec<InventoryItemInstance>) -> (r: Vec<InventoryItemInstance>)
    ensures
        r@ == sort_stacks(v@),
{
    let mut r: Vec<InventoryItemInstance> = Vec::new();
    let mut i: usize = 0;
    while i < v.len()
        invariant
            i <= v@.len(),
            r@ == sort_stacks(v@.take(i as int)),
        decreases v@.len() - i,
    {
        proof {
            assert(v@.take(i + 1).drop_last() =~= v@.take(i as int));
            assert(v@.take(i + 1).last() == v@[i as int]);
        }
        r = insert_stack_into(r, v[i]);
        i = i + 1;
    }
    proof {
        assert(v@.take(v@.len() as int) =~= v@);
    }
    r
}

/// Whether two lists of stacks are the same.
fn same_stacks(a: &Vec<InventoryItemInstance>, b: &Vec<InventoryItemInstance>) -> (r: bool)
    ensures
        r == (a@ == b@),
{
    if a.len() != b.len() {
        return false;
    }
    let mut i: usize = 0;
    while i < a.len()
        invariant
            i <= a@.len(),
            a@.len() == b@.len(),
            forall|j: int| 0 <= j < i ==> a@[j] == b@[j],
        decreases a@.len() - i,
    {
        if a[i] != b[i] {
            assert(a@[i as int] != b@[i as int]);
            return false;
        }
        i = i + 1;
    }
    assert(a@ =~= b@);
    true
}

/// The backpack slots of the player's items (see [`backpack`]).
fn backpack_slots(objs: &Vec<TrackedObject>, player: Option<EntityId>) -> (r: BTreeMap<u64, u8>)
    ensures
        r@ == backpack(objs@, player),
{
    match player {
        Some(p) => match find_object(objs, p.0) {
            Some(i) => match &objs[i].pack_slots {
                Some(f) => backpack_slots_of(Some(f)),
                None => backpack_slots_of(None),
            },
            None => BTreeMap::new(),
        },
        None => BTreeMap::new(),
    }
}

impl ObjectObservationRuntime {
    /// A runtime that has reported nothing yet.
    pub fn new() -> (r: Self)
        ensures
            r@ == fresh_view(),
    {
        let r = ObjectObservationRuntime {
            known: BTreeMap::new(),
            known_quests: BTreeMap::new(),
            known_inventory: BTreeMap::new(),
            known_inventory_instances: Vec::new(),
            known_controlled_mover: None,
            last_controlled_position: None,
            last_controlled_flags: 0,
            last_money: None,
            known_equipped_ranged_item: None,
            equipment_observed: false,
            known_equipped_items: None,
            equipment_slots_observed: false,
            profession_skill_info_observed: false,
            known_profession_skills: None,
            pet_control_observed: false,
            last_class_id: None,
            last_player_position: None,
            map_id: 0,
            player_guid: None,
        };
        proof {
            assert(entity_views(r.known@) =~= Map::empty());
            assert(quest_views(r.known_quests@) =~= Map::empty());
        }
        r
    }

    /// Enter a world: set the map; with a player GUID, also set the player and forget the
    /// skill lines reported so far.
    pub fn set_world(&mut self, map_id: u32, player_guid: Option<EntityId>)
        ensures
            final(self)@ == (if player_guid is Some {
                RuntimeView { map_id, player: player_guid, skills: None, skills_seen: false, ..old(self)@ }
            } else {
                RuntimeView { map_id, ..old(self)@ }
            }),
    {
        if player_guid.is_some() {
            self.profession_skill_info_observed = false;
            self.known_profession_skills = None;
        }
        self.map_id = map_id;
        if player_guid.is_some() {
            self.player_guid = player_guid;
        }
    }

    /// Set the player.
    pub fn set_player_guid(&mut self, player_guid: EntityId)
        ensures
            final(self)@ == (RuntimeView { player: Some(player_guid), ..old(self)@ }),
    {
        self.player_guid = Some(player_guid);
    }
    /// Report the pet news of a packet (see [`pet_step`]).
    pub fn observe_pet_control(&mut self, opcode: u16, body: &[u8]) -> (r: Vec<ProtocolObservation>)
        ensures
            final(self)@ == pet_step(old(self)@, opcode, body@).0,
            reports_all(r@, pet_step(old(self)@, opcode, body@).1),
    {
        let mut out: Vec<ProtocolObservation> = Vec::new();
        if opcode == SMSG_PET_SPELLS && body.len() >= 8 {
            let raw = match read_u64_at(body, 0) {
                Some(v) => v,
                None => 0,
            };
            out.push(ProtocolObservation::PetControl { pet: if raw != 0 { Some(EntityId(raw)) } else { None } });
            self.pet_control_observed = true;
        } else if opcode == SMSG_TALENTS_INFO && body.len() > 0 && body[0] == 0 && !self.pet_control_observed {
            out.push(ProtocolObservation::PetControl { pet: None });
            self.pet_control_observed = true;
        }
        proof {
            assert(reports_all(out@, pet_step(old(self)@, opcode, body@).1));
        }
        out
    }

    /// Report the controlled unit where it, its position or its flags changed.
    fn note_mover(&mut self, objs: &Vec<TrackedObject>, out: &mut Vec<ProtocolObservation>, Ghost(cs): Ghost<Seq<Change>>)
        requires
            reports_all(old(out)@, cs),
        ensures
            final(self)@ == mover_step(old(self)@, objs@).0,
            reports_all(final(out)@, cs + mover_step(old(self)@, objs@).1),
    {
        let mover = match self.player_guid {
            Some(p) => match find_object(objs, p.0) {
                Some(i) => match &objs[i].charm {
                    Some(v) => controlled_mover_of(Some(v)),
                    None => controlled_mover_of(None),
                },
                None => None,
            },
            None => None,
        };
        let (position, flags) = match mover {
            Some(m) => match find_object(objs, m.0) {
                Some(j) => (record_position(&objs[j].record, self.map_id), match objs[j].movement_flags {
                    Some(f) => f,
                    None => 0,
                }),
                None => (None, 0),
            },
            None => (None, 0),
        };
        assert(mover == mover_of(objs@, self@.player));
        assert(position == mover_position_of(objs@, mover, self@.map_id));
        assert(flags == mover_flags_of(objs@, mover));
        if !same_guid(mover, self.known_controlled_mover) || !same_opt_position(position, self.last_controlled_position)
            || flags != self.last_controlled_flags {
            let ghost before = out@;
            out.push(ProtocolObservation::ControlledMover { mover, position, flags });
            self.known_controlled_mover = mover;
            self.last_controlled_position = position;
            self.last_controlled_flags = flags;
            proof {
                let c = seq![Change::Mover(mover, position, flags)];
                assert(out@ =~= before.push(ProtocolObservation::ControlledMover { mover, position, flags }));
                assert(reports(out@[before.len() as int], c[0]));
                assert forall|i: int| 0 <= i < out@.len() implies reports(#[trigger] out@[i], (cs + c)[i]) by {
                    if i < before.len() {
                        assert(out@[i] == before[i]);
                    }
                }
            }
        } else {
            assert(cs + Seq::<Change>::empty() =~= cs);
        }
    }

    /// Report the ranged weapon the first time and where it changed.
    fn note_ranged(&mut self, objs: &Vec<TrackedObject>, out: &mut Vec<ProtocolObservation>, Ghost(cs): Ghost<Seq<Change>>)
        requires
            reports_all(old(out)@, cs),
        ensures
            final(self)@ == ranged_step(old(self)@, objs@).0,
            reports_all(final(out)@, cs + ranged_step(old(self)@, objs@).1),
    {
        let ranged_guid = match self.player_guid {
            Some(p) => match find_object(objs, p.0) {
                Some(i) => match &objs[i].inventory_slots {
                    Some(v) => equipped_ranged_guid_of(Some(v)),
                    None => equipped_ranged_guid_of(None),
                },
                None => None,
            },
            None => None,
        };
        let item = match ranged_guid {
            Some(g) => match find_object(objs, g) {
                Some(k) => objs[k].record.entry,
                None => None,
            },
            None => None,
        };
        assert(item == ranged_item_of(objs@, self@.player));
        if !self.equipment_observed || !same_u32(item, self.known_equipped_ranged_item) {
            let ghost before = out@;
            out.push(ProtocolObservation::EquippedRangedItem { item });
            self.known_equipped_ranged_item = item;
            self.equipment_observed = true;
            proof {
                let c = seq![Change::Ranged(item)];
                assert(reports(out@[before.len() as int], c[0]));
                assert forall|i: int| 0 <= i < out@.len() implies reports(#[trigger] out@[i], (cs + c)[i]) by {
                    if i < before.len() {
                        assert(out@[i] == before[i]);
                    }
                }
            }
        } else {
            assert(cs + Seq::<Change>::empty() =~= cs);
        }
    }
    /// Report the player's skill lines the first time and where they changed.
    fn note_skills(&mut self, o: &TrackedObject, out: &mut Vec<ProtocolObservation>, Ghost(cs): Ghost<Seq<Change>>)
        requires
            reports_all(old(out)@, cs),
        ensures
            final(self)@ == skills_step((old(self)@, cs), *o).0,
            reports_all(final(out)@, skills_step((old(self)@, cs), *o).1),
    {
        match &o.skill_info {
            Some(f) => match profession_skills_from_field(f) {
                Some((skills, slots)) => {
                    let changed = if !self.profession_skill_info_observed {
                        true
                    } else {
                        match &self.known_profession_skills {
                            Some((ks, kl)) => !(same_skills_map(ks, &skills) && same_slots_map(kl, &slots)),
                            None => true,
                        }
                    };
                    if changed {
                        let ghost before = out@;
                        let obs = ProtocolObservation::ProfessionSnapshot { skills: skills.clone(), slots: slots.clone() };
                        let ghost g = obs;
                        out.push(obs);
                        proof {
                            lemma_push_reports(before, cs, g, Change::Professions(skills@, slots@));
                        }
                        self.known_profession_skills = Some((skills, slots));
                        self.profession_skill_info_observed = true;
                    }
                },
                None => {},
            },
            None => {},
        }
    }

    /// Report the player's equipment the first time and where it changed.
    fn note_equipment(
        &mut self,
        o: &TrackedObject,
        entries: &BTreeMap<u64, u32>,
        out: &mut Vec<ProtocolObservation>,
        Ghost(cs): Ghost<Seq<Change>>,
    )
        requires
            reports_all(old(out)@, cs),
        ensures
            final(self)@ == equipment_step((old(self)@, cs), *o, entries@).0,
            reports_all(final(out)@, equipment_step((old(self)@, cs), *o, entries@).1),
    {
        let items = match &o.inventory_slots {
            Some(f) => equipped_items_of(Some(f), entries),
            None => equipped_items_of(None, entries),
        };
        assert(equipment_view(items) == equipped_of(o.inventory_slots, entries@));
        let same = match (&items, &self.known_equipped_items) {
            (Some(a), Some(b)) => same_equipment_map(a, b),
            (None, None) => true,
            _ => false,
        };
        if !self.equipment_slots_observed || !same {
            let ghost before = out@;
            let copy = match &items {
                Some(m) => Some(m.clone()),
                None => None,
            };
            let obs = ProtocolObservation::EquippedItems { items: copy };
            let ghost g = obs;
            out.push(obs);
            proof {
                lemma_push_reports(before, cs, g, Change::Equipment(equipment_view(items)));
            }
            self.known_equipped_items = items;
            self.equipment_slots_observed = true;
        }
    }

    /// Report the player's class where it changed.
    fn note_class(&mut self, o: &TrackedObject, out: &mut Vec<ProtocolObservation>, Ghost(cs): Ghost<Seq<Change>>)
        requires
            reports_all(old(out)@, cs),
        ensures
            final(self)@ == class_step((old(self)@, cs), *o).0,
            reports_all(final(out)@, class_step((old(self)@, cs), *o).1),
    {
        match o.class_id {
            Some(c) => {
                if !same_u8(self.last_class_id, Some(c)) {
                    let ghost before = out@;
                    let obs = ProtocolObservation::PlayerClass { class_id: c };
                    out.push(obs);
                    proof {
                        lemma_push_reports(before, cs, obs, Change::Class(c));
                    }
                    self.last_class_id = Some(c);
                }
            },
            None => {},
        }
    }

    /// Report the player's position where it changed.
    fn note_position(&mut self, p: Option<WorldPosition>, out: &mut Vec<ProtocolObservation>, Ghost(cs): Ghost<Seq<Change>>)
        requires
            reports_all(old(out)@, cs),
        ensures
            final(self)@ == position_step((old(self)@, cs), p).0,
            reports_all(final(out)@, position_step((old(self)@, cs), p).1),
    {
        match p {
            Some(q) => {
                if !same_opt_position(self.last_player_position, Some(q)) {
                    let ghost before = out@;
                    let obs = ProtocolObservation::PlayerPosition { position: q, moving: false, flags: 0, client_time: 0 };
                    out.push(obs);
                    proof {
                        lemma_push_reports(before, cs, obs, Change::Position(q));
                    }
                    self.last_player_position = Some(q);
                }
            },
            None => {},
        }
    }

    /// Report the player's money where it changed.
    fn note_money(&mut self, o: &TrackedObject, out: &mut Vec<ProtocolObservation>, Ghost(cs): Ghost<Seq<Change>>)
        requires
            reports_all(old(out)@, cs),
        ensures
            final(self)@ == money_step((old(self)@, cs), *o).0,
            reports_all(final(out)@, money_step((old(self)@, cs), *o).1),
    {
        let money = match &o.coinage {
            Some(f) => player_money(Some(f)),
            None => player_money(None),
        };
        match money {
            Some(m) => {
                if !same_u64(self.last_money, Some(m)) {
                    let ghost before = out@;
                    let obs = ProtocolObservation::Money { copper: m };
                    out.push(obs);
                    proof {
                        lemma_push_reports(before, cs, obs, Change::Money(m));
                    }
                    self.last_money = Some(m);
                }
            },
            None => {},
        }
    }
    /// Report the quest journal: each new or changed quest, then each quest that left it.
    fn note_quests(&mut self, o: &TrackedObject, out: &mut Vec<ProtocolObservation>, Ghost(cs): Ghost<Seq<Change>>)
        requires
            reports_all(old(out)@, cs),
        ensures
            final(self)@ == quests_step((old(self)@, cs), *o).0,
            reports_all(final(out)@, quests_step((old(self)@, cs), *o).1),
    {
        let cur = match &o.quest_log {
            Some(f) => quest_journal(Some(f)),
            None => quest_journal(None),
        };
        let ghost curv = journal_of(o.quest_log);
        let ghost known = self@.quests;
        proof {
            assert(journal_matches(cur@, curv));
            assert(quest_views(cur@).dom() =~= curv.dom());
            assert(quest_views(cur@) =~= curv);
        }
        let mut keys: Vec<u32> = Vec::new();
        add_keys32(&mut keys, &cur);
        proof {
            lemma_in_order32(keys@, curv.dom());
        }
        let mut i: usize = 0;
        while i < keys.len()
            invariant
                i <= keys@.len(),
                keys@ == in_order32(curv.dom()),
                forall|k: u32| keys@.contains(k) <==> cur@.contains_key(k),
                quest_views(cur@) == curv,
                known == quest_views(self.known_quests@),
                reports_all(out@, cs + quest_news(keys@.take(i as int), known, curv)),
            decreases keys@.len() - i,
        {
            let q = keys[i];
            proof {
                assert(keys@.contains(q));
            }
            let ghost before = out@;
            match cur.get(&q) {
                Some(entry) => {
                    let changed = match self.known_quests.get(&q) {
                        Some(k) => !(k.0 == entry.0 && same_u32s(&k.1, &entry.1)),
                        None => true,
                    };
                    proof {
                        assert(curv[q] == (entry.0, entry.1@));
                        assert(changed == !(known.contains_key(q) && known[q] == curv[q]));
                        assert(keys@.take(i + 1).drop_last() =~= keys@.take(i as int));
                        assert(keys@.take(i + 1).last() == q);
                    }
                    if changed {
                        let obs = ProtocolObservation::QuestProgress { quest: q, objectives: copy_u32s(&entry.1), complete: entry.0 };
                        let ghost g = obs;
                        out.push(obs);
                        proof {
                            let c = Change::Quest(q, curv[q].1, curv[q].0);
                            lemma_push_reports(before, cs + quest_news(keys@.take(i as int), known, curv), g, c);
                            assert((cs + quest_news(keys@.take(i as int), known, curv)).push(c)
                                =~= cs + quest_news(keys@.take(i + 1), known, curv));
                        }
                    }
                },
                None => {},
            }
            i = i + 1;
        }
        proof {
            assert(keys@.take(keys@.len() as int) =~= keys@);
        }
        let ghost mid = cs + quest_news(keys@, known, curv);
        let mut gone: Vec<u32> = Vec::new();
        add_keys32(&mut gone, &self.known_quests);
        proof {
            assert forall|k: u32| gone@.contains(k) <==> known.dom().contains(k) by {
            }
            lemma_in_order32(gone@, known.dom());
        }
        let mut j: usize = 0;
        while j < gone.len()
            invariant
                j <= gone@.len(),
                gone@ == in_order32(known.dom()),
                quest_views(cur@) == curv,
                reports_all(out@, mid + quests_dropped(gone@.take(j as int), curv)),
            decreases gone@.len() - j,
        {
            let q = gone[j];
            let ghost before = out@;
            proof {
                assert(gone@.take(j + 1).drop_last() =~= gone@.take(j as int));
                assert(gone@.take(j + 1).last() == q);
                assert(cur@.contains_key(q) == curv.contains_key(q));
            }
            if !cur.contains_key(&q) {
                let obs = ProtocolObservation::QuestRemoved { quest: q };
                out.push(obs);
                proof {
                    let c = Change::QuestGone(q);
                    lemma_push_reports(before, mid + quests_dropped(gone@.take(j as int), curv), obs, c);
                    assert((mid + quests_dropped(gone@.take(j as int), curv)).push(c)
                        =~= mid + quests_dropped(gone@.take(j + 1), curv));
                }
            }
            j = j + 1;
        }
        proof {
            assert(gone@.take(gone@.len() as int) =~= gone@);
            assert(mid + quests_dropped(gone@, curv) =~= cs + quest_news(in_order32(curv.dom()), known, curv)
                + quests_dropped(in_order32(known.dom()), curv));
        }
        self.known_quests = cur;
    }
    /// Report what the player's own object shows (see [`player_step`]).
    fn note_player(
        &mut self,
        o: &TrackedObject,
        entries: &BTreeMap<u64, u32>,
        out: &mut Vec<ProtocolObservation>,
        Ghost(cs): Ghost<Seq<Change>>,
    )
        requires
            reports_all(old(out)@, cs),
        ensures
            final(self)@ == player_step((old(self)@, cs), *o, entries@).0,
            reports_all(final(out)@, player_step((old(self)@, cs), *o, entries@).1),
    {
        let ghost n0 = (self@, cs);
        self.note_skills(o, out, Ghost(cs));
        let ghost n1 = skills_step(n0, *o);
        self.note_equipment(o, entries, out, Ghost(n1.1));
        let ghost n2 = equipment_step(n1, *o, entries@);
        self.note_class(o, out, Ghost(n2.1));
        let ghost n3 = class_step(n2, *o);
        let position = record_position(&o.record, self.map_id);
        self.note_position(position, out, Ghost(n3.1));
        let ghost n4 = position_step(n3, position_of(o.record, n0.0.map_id));
        self.note_quests(o, out, Ghost(n4.1));
        let ghost n5 = quests_step(n4, *o);
        self.note_money(o, out, Ghost(n5.1));
    }

    /// One object of the pass (see [`scan_step`]).
    fn scan_object(
        &mut self,
        o: &TrackedObject,
        slots: &BTreeMap<u64, u8>,
        entries: &BTreeMap<u64, u32>,
        counted: &mut BTreeMap<u32, u32>,
        stacks: &mut Vec<InventoryItemInstance>,
        current: &mut BTreeMap<u64, EntityState>,
        out: &mut Vec<ProtocolObservation>,
        Ghost(cs): Ghost<Seq<Change>>,
    )
        requires
            reports_all(old(out)@, cs),
        ensures
            ({
                let t = scan_step(
                    Scan { view: old(self)@, changes: cs, counted: old(counted)@, stacks: old(stacks)@, current: entity_views(old(current)@) },
                    *o,
                    slots@,
                    entries@,
                );
                &&& final(self)@ == t.view
                &&& reports_all(final(out)@, t.changes)
                &&& final(counted)@ == t.counted
                &&& final(stacks)@ == t.stacks
                &&& entity_views(final(current)@) == t.current
            }),
    {
        let ghost s = Scan { view: self@, changes: cs, counted: counted@, stacks: stacks@, current: entity_views(current@) };
        let entity = object_to_entity(&o.record, self.map_id);
        note_stock(self.player_guid, o, slots, counted, stacks, Ghost(s));
        let is_player = match self.player_guid {
            Some(p) => p.0 == o.record.guid,
            None => false,
        };
        if is_player {
            self.note_player(o, entries, out, Ghost(cs));
        }
        let ghost n = if is_player { player_step((s.view, cs), *o, entries@) } else { (s.view, cs) };
        let changed = match self.known.get(&o.record.guid) {
            Some(k) => !same_entity(k, &entity),
            None => true,
        };
        proof {
            assert(entity_views(self.known@) == s.view.known);
            assert(self.known@.contains_key(o.record.guid) == s.view.known.contains_key(o.record.guid));
            assert(changed == !(s.view.known.contains_key(o.record.guid) && entity_eq(s.view.known[o.record.guid], projected(o.record, s.view.map_id))));
        }
        if changed {
            let ghost before = out@;
            let obs = ProtocolObservation::EntityUpsert { entity: copy_entity(&entity) };
            let ghost g = obs;
            out.push(obs);
            proof {
                lemma_push_reports(before, n.1, g, Change::Upsert(entity@));
            }
        }
        let ghost cur_before = current@;
        current.insert(o.record.guid, entity);
        proof {
            assert(entity_views(current@) =~= entity_views(cur_before).insert(o.record.guid, projected(o.record, s.view.map_id)));
        }
    }
    /// The end of an observation (see [`finish`]).
    fn finish_observation(
        &mut self,
        counted: BTreeMap<u32, u32>,
        stacks: Vec<InventoryItemInstance>,
        current: BTreeMap<u64, EntityState>,
        out: &mut Vec<ProtocolObservation>,
        Ghost(cs): Ghost<Seq<Change>>,
    )
        requires
            reports_all(old(out)@, cs),
        ensures
            ({
                let t = finish(Scan { view: old(self)@, changes: cs, counted: counted@, stacks: stacks@, current: entity_views(current@) });
                &&& final(self)@ == t.0
                &&& reports_all(final(out)@, t.1)
            }),
    {
        let ghost v = self@;
        let mut keys: Vec<u32> = Vec::new();
        add_keys32(&mut keys, &self.known_inventory);
        add_keys32(&mut keys, &counted);
        proof {
            assert forall|k: u32| keys@.contains(k) <==> v.inventory.dom().union(counted@.dom()).contains(k) by {
            }
            lemma_in_order32(keys@, v.inventory.dom().union(counted@.dom()));
        }
        let mut i: usize = 0;
        while i < keys.len()
            invariant
                i <= keys@.len(),
                v.inventory == self.known_inventory@,
                reports_all(out@, cs + count_news(keys@.take(i as int), v.inventory, counted@)),
            decreases keys@.len() - i,
        {
            let k = keys[i];
            let before_count = match self.known_inventory.get(&k) {
                Some(c) => *c,
                None => 0,
            };
            let after_count = match counted.get(&k) {
                Some(c) => *c,
                None => 0,
            };
            let ghost before = out@;
            proof {
                assert(keys@.take(i + 1).drop_last() =~= keys@.take(i as int));
                assert(keys@.take(i + 1).last() == k);
            }
            if before_count != after_count {
                let obs = ProtocolObservation::InventoryCount { item: k, count: after_count };
                out.push(obs);
                proof {
                    let c = Change::Count(k, after_count);
                    lemma_push_reports(before, cs + count_news(keys@.take(i as int), v.inventory, counted@), obs, c);
                    assert((cs + count_news(keys@.take(i as int), v.inventory, counted@)).push(c)
                        =~= cs + count_news(keys@.take(i + 1), v.inventory, counted@));
                }
            }
            i = i + 1;
        }
        proof {
            assert(keys@.take(keys@.len() as int) =~= keys@);
        }
        let ghost c1 = cs + count_news(keys@, v.inventory, counted@);
        self.known_inventory = counted;
        let sorted = sorted_stacks(&stacks);
        let ghost c2 = if sorted@ != v.instances { c1.push(Change::Instances(sorted@)) } else { c1 };
        if !same_stacks(&sorted, &self.known_inventory_instances) {
            let ghost before = out@;
            let copy = sorted.clone();
            proof {
                assert(copy@ =~= sorted@);
            }
            let obs = ProtocolObservation::InventoryInstances { items: copy };
            let ghost g = obs;
            out.push(obs);
            proof {
                lemma_push_reports(before, c1, g, Change::Instances(sorted@));
            }
        }
        self.known_inventory_instances = sorted;
        let mut gone: Vec<u64> = Vec::new();
        add_keys64(&mut gone, &self.known);
        proof {
            assert forall|k: u64| gone@.contains(k) <==> v.known.dom().contains(k) by {
            }
            lemma_in_order64(gone@, v.known.dom());
        }
        let mut j: usize = 0;
        while j < gone.len()
            invariant
                j <= gone@.len(),
                reports_all(out@, c2 + entities_gone(gone@.take(j as int), entity_views(current@))),
            decreases gone@.len() - j,
        {
            let k = gone[j];
            let ghost before = out@;
            proof {
                assert(gone@.take(j + 1).drop_last() =~= gone@.take(j as int));
                assert(gone@.take(j + 1).last() == k);
                assert(current@.contains_key(k) == entity_views(current@).contains_key(k));
            }
            if !current.contains_key(&k) {
                let obs = ProtocolObservation::EntityRemoved { entity: EntityId(k) };
                out.push(obs);
                proof {
                    let c = Change::Gone(EntityId(k));
                    lemma_push_reports(before, c2 + entities_gone(gone@.take(j as int), entity_views(current@)), obs, c);
                    assert((c2 + entities_gone(gone@.take(j as int), entity_views(current@))).push(c)
                        =~= c2 + entities_gone(gone@.take(j + 1), entity_views(current@)));
                }
            }
            j = j + 1;
        }
        proof {
            assert(gone@.take(gone@.len() as int) =~= gone@);
        }
        self.known = current;
    }

    /// Report what changed with a packet, given the objects that the object-update
    /// processor holds after it (`None` where the processor keeps no object map): see
    /// [`observe_spec`]. The numbers of positions and power-cost multipliers compare as
    /// numbers: a NaN differs from everything, and the two zeros are equal.
    pub fn observe(&mut self, opcode: u16, body: &[u8], objects: Option<Vec<TrackedObject>>) -> (r: Vec<ProtocolObservation>)
        ensures
            final(self)@ == observe_spec(old(self)@, opcode, body@, objects_view(objects)).0,
            reports_all(r@, observe_spec(old(self)@, opcode, body@, objects_view(objects)).1),
    {
        let mut out = self.observe_pet_control(opcode, body);
        let ghost c1 = pet_step(old(self)@, opcode, body@).1;
        let ghost v1 = self@;
        if opcode == SMSG_TALENTS_INFO {
            match parse_player_talents_info(body) {
                Some((g, a, t)) => {
                    let ghost before = out@;
                    let ghost tv = t@;
                    let obs = ProtocolObservation::PlayerTalents { group_count: g, active_group: a, talents: t };
                    let ghost gg = obs;
                    out.push(obs);
                    proof {
                        lemma_push_reports(before, c1, gg, Change::Talents(g, a, tv));
                        assert(c1.push(Change::Talents(g, a, tv)) =~= c1 + talents_change(opcode, body@));
                    }
                },
                None => {
                    assert(c1 + talents_change(opcode, body@) =~= c1);
                },
            }
        } else {
            assert(c1 + talents_change(opcode, body@) =~= c1);
        }
        let ghost c2 = c1 + talents_change(opcode, body@);
        let mut counted: BTreeMap<u32, u32> = BTreeMap::new();
        let mut stacks: Vec<InventoryItemInstance> = Vec::new();
        let mut current: BTreeMap<u64, EntityState> = BTreeMap::new();
        let ghost mut changes = c2;
        proof {
            assert(entity_views(current@) =~= Map::empty());
        }
        match objects {
            Some(objs) => {
                let slots = backpack_slots(&objs, self.player_guid);
                self.note_mover(&objs, &mut out, Ghost(c2));
                let ghost c3 = mover_step(v1, objs@).1;
                let ghost v2 = self@;
                self.note_ranged(&objs, &mut out, Ghost(c2 + c3));
                let ghost c4 = ranged_step(v2, objs@).1;
                let entries = entries_of(&objs);
                let ghost start = Scan {
                    view: self@,
                    changes: c2 + c3 + c4,
                    counted: Map::empty(),
                    stacks: Seq::empty(),
                    current: Map::empty(),
                };
                proof {
                    changes = c2 + c3 + c4;
                    assert(counted@ =~= Map::empty());
                    assert(stacks@ =~= Seq::empty());
                }
                let mut i: usize = 0;
                while i < objs.len()
                    invariant
                        i <= objs@.len(),
                        slots@ == backpack(objs@, v1.player),
                        entries@ == entries_in(objs@, objs@.len() as int),
                        (Scan { view: self@, changes, counted: counted@, stacks: stacks@, current: entity_views(current@) })
                            == scan(start, objs@, slots@, entries@, i as int),
                        reports_all(out@, changes),
                    decreases objs@.len() - i,
                {
                    let ghost s = Scan { view: self@, changes, counted: counted@, stacks: stacks@, current: entity_views(current@) };
                    self.scan_object(&objs[i], &slots, &entries, &mut counted, &mut stacks, &mut current, &mut out, Ghost(changes));
                    proof {
                        changes = scan_step(s, objs@[i as int], slots@, entries@).changes;
                    }
                    i = i + 1;
                }
            },
            None => {},
        }
        self.finish_observation(counted, stacks, current, &mut out, Ghost(changes));
        out
    }
}

} // verus!
