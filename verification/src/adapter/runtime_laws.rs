//! Laws of the object observation runtime: what it reports depends only on what changed.
use vstd::prelude::*;
use crate::adapter::fields::journal_prefix;
use crate::adapter::keys::{in_order32, in_order64, lemma_in_order32_exists, lemma_in_order64_exists};
use crate::adapter::objects::{multipliers_of, position_of, projected, FieldValue, ObjectRecord};
use crate::domain::{f32_bits_nan, lemma_position_eq_reflexive};
use crate::state::entities::lemma_entity_eq_reflexive;
use crate::adapter::runtime::{
    backpack, count_news, entities_gone, entries_in, equipped_of, finish, journal_of, money_of, mover_step, observe_spec,
    pet_step, player_step, quest_news, quests_dropped, ranged_step, scan, skills_of, stock_step, talents_change, Change,
    RuntimeView, Scan, TrackedObject, SMSG_PET_SPELLS, SMSG_TALENTS_INFO,
};
use crate::ids::EntityId;

verus! {

/// Whether no two objects share a GUID, as in the processor's object map.
pub open spec fn distinct_guids(objs: Seq<TrackedObject>) -> bool {
    forall|i: int, j: int| 0 <= i < j < objs.len() ==> objs[i].record.guid != objs[j].record.guid
}

/// Whether no number that an object shows is a NaN: its coordinates, its facing and its
/// power-cost multipliers.
pub open spec fn object_has_no_nan(o: ObjectRecord) -> bool {
    &&& (o.position matches Some(p) ==> !f32_bits_nan(p.x) && !f32_bits_nan(p.y) && !f32_bits_nan(p.z))
    &&& (o.facing matches Some(f) ==> !f32_bits_nan(f))
    &&& (multipliers_of(o) matches Some(m) ==> forall|i: int| 0 <= i < m.len() ==> !f32_bits_nan(#[trigger] m[i]))
}

/// Whether no object shows a NaN.
pub open spec fn objects_have_no_nan(objs: Seq<TrackedObject>) -> bool {
    forall|i: int| 0 <= i < objs.len() ==> object_has_no_nan(#[trigger] objs[i].record)
}

/// An object without NaNs projects, on any map, to an entity and a position that equal
/// themselves.
proof fn lemma_projection_reflexive(o: ObjectRecord, map_id: u32)
    requires
        object_has_no_nan(o),
    ensures
        crate::state::entities::entity_eq(projected(o, map_id), projected(o, map_id)),
        crate::domain::opt_position_eq(position_of(o, map_id), position_of(o, map_id)),
{
    assert(0u32 & 0x007F_FFFFu32 == 0) by (bit_vector);
    lemma_entity_eq_reflexive(projected(o, map_id));
    match position_of(o, map_id) {
        Some(p) => lemma_position_eq_reflexive(p),
        None => {},
    }
}

/// Whether the runtime's memory of the player's own fields already holds what the player's
/// object shows.
pub open spec fn settled_for(x: RuntimeView, o: TrackedObject, entries: Map<u64, u32>) -> bool {
    &&& match o.skill_info {
        Some(f) => match skills_of(f) {
            Some(sk) => x.skills_seen && x.skills == Some(sk),
            None => true,
        },
        None => true,
    }
    &&& x.equipment_seen
    &&& x.equipment == equipped_of(o.inventory_slots, entries)
    &&& match o.class_id {
        Some(c) => x.class_id == Some(c),
        None => true,
    }
    &&& match position_of(o.record, x.map_id) {
        Some(q) => crate::domain::opt_position_eq(x.player_position, Some(q)),
        None => true,
    }
    &&& x.quests == journal_of(o.quest_log)
    &&& x.quests.dom().finite()
    &&& match money_of(o.coinage) {
        Some(m) => x.money == Some(m),
        None => true,
    }
}

/// Whether two memories agree on everything but the player's own fields.
pub open spec fn same_frame(a: RuntimeView, b: RuntimeView) -> bool {
    &&& a.known == b.known
    &&& a.inventory == b.inventory
    &&& a.instances == b.instances
    &&& a.mover == b.mover
    &&& a.mover_position == b.mover_position
    &&& a.mover_flags == b.mover_flags
    &&& a.ranged == b.ranged
    &&& a.ranged_seen == b.ranged_seen
    &&& a.pet_seen == b.pet_seen
    &&& a.map_id == b.map_id
    &&& a.player == b.player
}

/// A journal built from rows has finitely many quests.
proof fn lemma_journal_finite(rows: Seq<Seq<Option<FieldValue>>>, k: int)
    ensures
        journal_prefix(rows, k).dom().finite(),
    decreases k,
{
    if k > 0 {
        lemma_journal_finite(rows, k - 1);
    }
}

/// The journal of a quest-log field has finitely many quests.
proof fn lemma_journal_of_finite(f: Option<FieldValue>)
    ensures
        journal_of(f).dom().finite(),
{
    match f {
        Some(FieldValue::CustomArray(rows)) => {
            lemma_journal_finite(rows@.map_values(|row: Vec<Option<FieldValue>>| row@), rows@.len() as int);
        },
        _ => {},
    }
}

/// Reporting the player's object leaves its memory settled for that object, and touches
/// nothing else.
proof fn lemma_player_step_settles(n: (RuntimeView, Seq<Change>), o: TrackedObject, entries: Map<u64, u32>)
    requires
        object_has_no_nan(o.record),
    ensures
        settled_for(player_step(n, o, entries).0, o, entries),
        same_frame(player_step(n, o, entries).0, n.0),
{
    lemma_journal_of_finite(o.quest_log);
    lemma_projection_reflexive(o.record, n.0.map_id);
}

/// No quest of `keys` in the journal is new or changed against the same journal.
proof fn lemma_no_quest_news(keys: Seq<u32>, m: Map<u32, (bool, Seq<u32>)>)
    requires
        forall|k: u32| keys.contains(k) ==> m.contains_key(k),
    ensures
        quest_news(keys, m, m) == Seq::<Change>::empty(),
    decreases keys.len(),
{
    if keys.len() > 0 {
        assert(keys.contains(keys.last()) ) by {
            assert(keys[keys.len() - 1] == keys.last());
        }
        assert forall|k: u32| keys.drop_last().contains(k) implies m.contains_key(k) by {
            let i = choose|i: int| 0 <= i < keys.drop_last().len() && keys.drop_last()[i] == k;
            assert(keys[i] == k);
            assert(keys.contains(k));
        }
        lemma_no_quest_news(keys.drop_last(), m);
    }
}

/// No quest of `keys` left a journal that holds all of them.
proof fn lemma_no_quests_dropped(keys: Seq<u32>, m: Map<u32, (bool, Seq<u32>)>)
    requires
        forall|k: u32| keys.contains(k) ==> m.contains_key(k),
    ensures
        quests_dropped(keys, m) == Seq::<Change>::empty(),
    decreases keys.len(),
{
    if keys.len() > 0 {
        assert(keys.contains(keys.last())) by {
            assert(keys[keys.len() - 1] == keys.last());
        }
        assert forall|k: u32| keys.drop_last().contains(k) implies m.contains_key(k) by {
            let i = choose|i: int| 0 <= i < keys.drop_last().len() && keys.drop_last()[i] == k;
            assert(keys[i] == k);
            assert(keys.contains(k));
        }
        lemma_no_quests_dropped(keys.drop_last(), m);
    }
}

/// A memory settled for the player's object reports nothing for it and stays as it is.
proof fn lemma_player_step_settled(x: RuntimeView, cs: Seq<Change>, o: TrackedObject, entries: Map<u64, u32>)
    requires
        settled_for(x, o, entries),
        object_has_no_nan(o.record),
    ensures
        player_step((x, cs), o, entries) == (x, cs),
{
    lemma_projection_reflexive(o.record, x.map_id);
    let cur = journal_of(o.quest_log);
    lemma_in_order32_exists(cur.dom());
    lemma_no_quest_news(in_order32(cur.dom()), cur);
    lemma_no_quests_dropped(in_order32(cur.dom()), cur);
    assert(cs + Seq::<Change>::empty() + Seq::<Change>::empty() =~= cs);
}

/// The pass over the objects touches only the player's own fields of the memory, and
/// leaves it settled for the player's object where that is among the objects passed.
proof fn lemma_scan_view(s: Scan, objs: Seq<TrackedObject>, slots: Map<u64, u8>, entries: Map<u64, u32>, n: int)
    requires
        0 <= n <= objs.len(),
        distinct_guids(objs),
        objects_have_no_nan(objs),
    ensures
        same_frame(scan(s, objs, slots, entries, n).view, s.view),
        forall|i: int| 0 <= i < n && s.view.player == Some(EntityId(objs[i].record.guid))
            ==> settled_for(scan(s, objs, slots, entries, n).view, objs[i], entries),
    decreases n,
{
    if n > 0 {
        lemma_scan_view(s, objs, slots, entries, n - 1);
        let t = scan(s, objs, slots, entries, n - 1);
        let o = objs[n - 1];
        let s1 = stock_step(t, o, slots);
        assert(s1.view == t.view);
        if t.view.player == Some(EntityId(o.record.guid)) {
            assert(object_has_no_nan(objs[n - 1].record));
            lemma_player_step_settles((s1.view, s1.changes), o, entries);
        }
    }
}

/// After the pass, each object's GUID holds its entity; the entities come from the objects
/// passed and those before; and they stay finitely many.
proof fn lemma_scan_current(s: Scan, objs: Seq<TrackedObject>, slots: Map<u64, u8>, entries: Map<u64, u32>, n: int)
    requires
        0 <= n <= objs.len(),
        distinct_guids(objs),
        objects_have_no_nan(objs),
        s.current.dom().finite(),
    ensures
        forall|i: int| 0 <= i < n ==> {
            &&& #[trigger] scan(s, objs, slots, entries, n).current.contains_key(objs[i].record.guid)
            &&& scan(s, objs, slots, entries, n).current[objs[i].record.guid] == projected(objs[i].record, s.view.map_id)
        },
        scan(s, objs, slots, entries, n).current.dom().finite(),
    decreases n,
{
    if n > 0 {
        lemma_scan_current(s, objs, slots, entries, n - 1);
        lemma_scan_view(s, objs, slots, entries, n - 1);
        let t = scan(s, objs, slots, entries, n - 1);
        let o = objs[n - 1];
        assert(stock_step(t, o, slots).current == t.current);
        assert forall|i: int| 0 <= i < n implies {
            &&& #[trigger] scan(s, objs, slots, entries, n).current.contains_key(objs[i].record.guid)
            &&& scan(s, objs, slots, entries, n).current[objs[i].record.guid] == projected(objs[i].record, s.view.map_id)
        } by {
            if i < n - 1 {
                assert(objs[i].record.guid != o.record.guid);
            }
        }
    }
}

/// Two passes from memories that agree on the player, the map, the counts, the stacks and
/// the entities gather the same counts, stacks and entities.
proof fn lemma_scan_components(s: Scan, t: Scan, objs: Seq<TrackedObject>, slots: Map<u64, u8>, entries: Map<u64, u32>, n: int)
    requires
        0 <= n <= objs.len(),
        distinct_guids(objs),
        objects_have_no_nan(objs),
        s.view.player == t.view.player,
        s.view.map_id == t.view.map_id,
        s.counted == t.counted,
        s.stacks == t.stacks,
        s.current == t.current,
    ensures
        scan(s, objs, slots, entries, n).counted == scan(t, objs, slots, entries, n).counted,
        scan(s, objs, slots, entries, n).stacks == scan(t, objs, slots, entries, n).stacks,
        scan(s, objs, slots, entries, n).current == scan(t, objs, slots, entries, n).current,
    decreases n,
{
    if n > 0 {
        lemma_scan_components(s, t, objs, slots, entries, n - 1);
        lemma_scan_view(s, objs, slots, entries, n - 1);
        lemma_scan_view(t, objs, slots, entries, n - 1);
    }
}

/// A pass whose memory already holds every object's entity and is settled for the
/// player's object reports nothing and leaves the memory as it is.
proof fn lemma_quiet_pass(t: Scan, objs: Seq<TrackedObject>, slots: Map<u64, u8>, entries: Map<u64, u32>, n: int)
    requires
        0 <= n <= objs.len(),
        distinct_guids(objs),
        forall|i: int| 0 <= i < objs.len() ==> {
            &&& #[trigger] t.view.known.contains_key(objs[i].record.guid)
            &&& t.view.known[objs[i].record.guid] == projected(objs[i].record, t.view.map_id)
        },
        forall|i: int| 0 <= i < objs.len() && t.view.player == Some(EntityId(objs[i].record.guid))
            ==> settled_for(t.view, #[trigger] objs[i], entries),
        objects_have_no_nan(objs),
    ensures
        scan(t, objs, slots, entries, n).view == t.view,
        scan(t, objs, slots, entries, n).changes == t.changes,
    decreases n,
{
    if n > 0 {
        lemma_quiet_pass(t, objs, slots, entries, n - 1);
        let u = scan(t, objs, slots, entries, n - 1);
        let o = objs[n - 1];
        let s1 = stock_step(u, o, slots);
        assert(s1.view == u.view && s1.changes == u.changes);
        assert(t.view.known.contains_key(o.record.guid));
        assert(object_has_no_nan(objs[n - 1].record));
        lemma_projection_reflexive(o.record, t.view.map_id);
        if u.view.player == Some(EntityId(o.record.guid)) {
            assert(settled_for(t.view, objs[n - 1], entries));
            lemma_player_step_settled(t.view, t.changes, o, entries);
        }
    }
}

/// No item count changes against the same counts.
proof fn lemma_no_count_news(keys: Seq<u32>, m: Map<u32, u32>)
    ensures
        count_news(keys, m, m) == Seq::<Change>::empty(),
    decreases keys.len(),
{
    if keys.len() > 0 {
        lemma_no_count_news(keys.drop_last(), m);
    }
}

/// No entity of `keys` is gone from entities that hold all of them.
proof fn lemma_none_gone(keys: Seq<u64>, m: Map<u64, crate::state::entities::EntityView>)
    requires
        forall|k: u64| keys.contains(k) ==> m.contains_key(k),
    ensures
        entities_gone(keys, m) == Seq::<Change>::empty(),
    decreases keys.len(),
{
    if keys.len() > 0 {
        assert(keys.contains(keys.last())) by {
            assert(keys[keys.len() - 1] == keys.last());
        }
        assert forall|k: u64| keys.drop_last().contains(k) implies m.contains_key(k) by {
            let i = choose|i: int| 0 <= i < keys.drop_last().len() && keys.drop_last()[i] == k;
            assert(keys[i] == k);
            assert(keys.contains(k));
        }
        lemma_none_gone(keys.drop_last(), m);
    }
}

/// Observing the same objects again with a packet that carries no pet or talent news
/// reports nothing and changes nothing: the runtime reports changes only. (Objects are
/// those of the processor's map, where no two share a GUID. A NaN equals nothing, so an
/// object that shows one is reported each time.)
pub proof fn law_unchanged_objects_report_nothing(v: RuntimeView, opcode: u16, body: Seq<u8>, objs: Seq<TrackedObject>)
    requires
        opcode != SMSG_PET_SPELLS,
        opcode != SMSG_TALENTS_INFO,
        distinct_guids(objs),
        objects_have_no_nan(objs),
    ensures
        ({
            let v1 = observe_spec(v, opcode, body, Some(objs)).0;
            observe_spec(v1, opcode, body, Some(objs)) == (v1, Seq::<Change>::empty())
        }),
{
    let n = objs.len() as int;
    let (v2, c3) = mover_step(v, objs);
    let (v3, c4) = ranged_step(v2, objs);
    let slots = backpack(objs, v.player);
    let entries = entries_in(objs, n);
    let empty = Seq::<Change>::empty();
    let c2 = empty + talents_change(opcode, body);
    let start = Scan { view: v3, changes: c2 + c3 + c4, counted: Map::empty(), stacks: Seq::empty(), current: Map::empty() };
    let s1 = scan(start, objs, slots, entries, n);
    assert(observe_spec(v, opcode, body, Some(objs)) == finish(s1));
    let v1 = finish(s1).0;
    lemma_scan_view(start, objs, slots, entries, n);
    lemma_scan_current(start, objs, slots, entries, n);
    assert(v1.known == s1.current);
    assert(v1.player == v.player && v1.map_id == v.map_id);
    // The second observation: no pet, talent, controlled-unit or ranged news.
    assert(pet_step(v1, opcode, body) == (v1, empty));
    assert(talents_change(opcode, body) =~= empty);
    match crate::adapter::runtime::mover_of(objs, v1.player) {
        Some(m) => match crate::adapter::runtime::find(objs, m.0) {
            Some(j) => {
                crate::adapter::runtime::lemma_find_in(objs, m.0, objs.len() as int);
                assert(object_has_no_nan(objs[j].record));
                lemma_projection_reflexive(objs[j].record, v1.map_id);
            },
            None => {},
        },
        None => {},
    }
    assert(mover_step(v1, objs) == (v1, empty));
    assert(ranged_step(v1, objs) == (v1, empty));
    let start2 = Scan { view: v1, changes: empty + talents_change(opcode, body) + empty + empty, counted: Map::empty(), stacks: Seq::empty(), current: Map::empty() };
    assert(start2.changes =~= empty);
    assert forall|i: int| 0 <= i < objs.len() && v1.player == Some(EntityId(objs[i].record.guid))
        implies settled_for(v1, #[trigger] objs[i], entries) by {
        assert(settled_for(s1.view, objs[i], entries));
    }
    lemma_quiet_pass(start2, objs, slots, entries, n);
    lemma_scan_components(start, start2, objs, slots, entries, n);
    let s2 = scan(start2, objs, slots, entries, n);
    assert(observe_spec(v1, opcode, body, Some(objs)) == finish(s2));
    lemma_no_count_news(in_order32(v1.inventory.dom().union(s2.counted.dom())), s2.counted);
    lemma_in_order64_exists(v1.known.dom());
    lemma_none_gone(in_order64(v1.known.dom()), s2.current);
    assert(empty + empty =~= empty);
}

} // verus!
