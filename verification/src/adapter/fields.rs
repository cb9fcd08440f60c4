//! Projections of player, unit and item update fields: money, skills, equipment, bags,
//! item stacks, the controlled mover and the quest log.
use vstd::prelude::*;
use std::collections::BTreeMap;
use crate::adapter::objects::{FieldValue, ShortPair};
use crate::ids::EntityId;

verus! {

broadcast use vstd::std_specs::btree::group_btree_axioms;

/// An integer field's value where it is not negative.
pub open spec fn field_u32_of(v: FieldValue) -> Option<u32> {
    match v {
        FieldValue::Integer(x) => if x >= 0 { Some(x as u32) } else { None },
        _ => None,
    }
}

/// An integer field's value where it is not negative.
pub fn field_u32(value: &FieldValue) -> (r: Option<u32>)
    ensures
        r == field_u32_of(*value),
{
    match value {
        FieldValue::Integer(x) => if *x >= 0 { Some(*x as u32) } else { None },
        _ => None,
    }
}

/// The unit a player controls (charm field): a nonzero GUID.
pub fn controlled_mover_of(charm: Option<&FieldValue>) -> (r: Option<EntityId>)
    ensures
        r == match charm {
            Some(FieldValue::Long(v)) => if *v != 0 { Some(EntityId(*v)) } else { None },
            _ => None::<EntityId>,
        },
{
    match charm {
        Some(FieldValue::Long(v)) => if *v != 0 { Some(EntityId(*v)) } else { None },
        _ => None,
    }
}

/// The player's money (coinage field) where it is not negative.
pub fn player_money(coinage: Option<&FieldValue>) -> (r: Option<u64>)
    ensures
        r == match coinage {
            Some(FieldValue::Integer(v)) => if *v >= 0 { Some(*v as u64) } else { None },
            _ => None::<u64>,
        },
{
    match coinage {
        Some(FieldValue::Integer(v)) => if *v >= 0 { Some(*v as u64) } else { None },
        _ => None,
    }
}

/// Whether an item belongs to the player (owner field).
pub fn item_owned_by(owner: Option<&FieldValue>, player: EntityId) -> (r: bool)
    ensures
        r == match owner {
            Some(FieldValue::Long(v)) => *v == player.0,
            _ => false,
        },
{
    match owner {
        Some(FieldValue::Long(v)) => *v == player.0,
        _ => false,
    }
}

/// The stack count of an item where it is positive.
pub fn item_stack_count(stack: Option<&FieldValue>) -> (r: Option<u32>)
    ensures
        r == match stack {
            Some(v) => match field_u32_of(*v) {
                Some(c) => if c > 0 { Some(c) } else { None },
                None => None,
            },
            None => None::<u32>,
        },
{
    match stack {
        Some(v) => match field_u32(v) {
            Some(c) => if c > 0 { Some(c) } else { None },
            None => None,
        },
        None => None,
    }
}

/// The item in the ranged (or relic) equipment slot, slot 17 of the inventory slots: a
/// nonzero GUID.
pub fn equipped_ranged_guid_of(inventory_slots: Option<&FieldValue>) -> (r: Option<u64>)
    ensures
        r == match inventory_slots {
            Some(FieldValue::LongArray(values)) => if values@.len() > 17 {
                match values@[17] {
                    Some(g) => if g != 0 { Some(g) } else { None },
                    None => None,
                }
            } else {
                None
            },
            _ => None::<u64>,
        },
{
    match inventory_slots {
        Some(FieldValue::LongArray(values)) => if values.len() > 17 {
            match values[17] {
                Some(g) => if g != 0 { Some(g) } else { None },
                None => None,
            }
        } else {
            None
        },
        _ => None,
    }
}

/// The equipped items of the first `k` equipment slots (of at most 19) by slot, where
/// every equipped GUID has a known item entry.
pub open spec fn equipped_prefix(slots: Seq<Option<u64>>, entries: Map<u64, u32>, k: int) -> Option<Map<u8, u32>>
    decreases k,
{
    if k <= 0 {
        Some(Map::empty())
    } else {
        match equipped_prefix(slots, entries, k - 1) {
            None => None,
            Some(m) => match slots[k - 1] {
                Some(g) => if g == 0 {
                    Some(m)
                } else if entries.contains_key(g) {
                    Some(m.insert((k - 1) as u8, entries[g]))
                } else {
                    None
                },
                None => Some(m),
            },
        }
    }
}

/// The equipped items by equipment slot (the first 19 inventory slots); `None` where the
/// inventory slots are not known or an equipped GUID has no known item. `entries` maps
/// item GUIDs to item entries.
pub fn equipped_items_of(inventory_slots: Option<&FieldValue>, entries: &BTreeMap<u64, u32>) -> (r: Option<BTreeMap<u8, u32>>)
    ensures
        match inventory_slots {
            Some(FieldValue::LongArray(values)) => match (r, equipped_prefix(values@, entries@, if values@.len() < 19 { values@.len() as int } else { 19 })) {
                (Some(m), Some(s)) => m@ == s,
                (None, None) => true,
                _ => false,
            },
            _ => r is None,
        },
{
    match inventory_slots {
        Some(FieldValue::LongArray(values)) => equipped_from_slots(values, entries),
        _ => None,
    }
}

fn equipped_from_slots(values: &Vec<Option<u64>>, entries: &BTreeMap<u64, u32>) -> (r: Option<BTreeMap<u8, u32>>)
    ensures
        match (r, equipped_prefix(values@, entries@, if values@.len() < 19 { values@.len() as int } else { 19 })) {
            (Some(m), Some(s)) => m@ == s,
            (None, None) => true,
            _ => false,
        },
{
    let n: usize = if values.len() < 19 { values.len() } else { 19 };
    let mut out: BTreeMap<u8, u32> = BTreeMap::new();
    let mut k: usize = 0;
    while k < n
        invariant
            k <= n <= 19,
            n <= values@.len(),
            n == (if values@.len() < 19 { values@.len() as int } else { 19 }),
            equipped_prefix(values@, entries@, k as int) == Some(out@),
        decreases n - k,
    {
        match values[k] {
            Some(g) => if g != 0 {
                match entries.get(&g) {
                    Some(item) => {
                        out.insert(k as u8, *item);
                    },
                    None => {
                        proof {
                            lemma_equipped_none(values@, entries@, (k + 1) as int, n as int);
                        }
                        return None;
                    },
                }
            },
            None => {},
        }
        k = k + 1;
    }
    Some(out)
}

proof fn lemma_equipped_none(slots: Seq<Option<u64>>, entries: Map<u64, u32>, k: int, n: int)
    requires
        0 < k <= n,
        equipped_prefix(slots, entries, k) is None,
    ensures
        equipped_prefix(slots, entries, n) is None,
    decreases n - k,
{
    if k < n {
        lemma_equipped_none(slots, entries, k + 1, n);
    }
}

/// The backpack slot of each item GUID among the first `k` pack slots: pack slot `i` is
/// backpack slot `23 + i` (where that fits a byte); a later slot holding the same GUID wins.
pub open spec fn backpack_prefix(values: Seq<Option<u64>>, k: int) -> Map<u64, u8>
    decreases k,
{
    if k <= 0 {
        Map::empty()
    } else {
        let m = backpack_prefix(values, k - 1);
        match values[k - 1] {
            Some(g) => if g != 0 && 23 + (k - 1) <= 255 { m.insert(g, (23 + (k - 1)) as u8) } else { m },
            None => m,
        }
    }
}

/// The backpack slot of each item in the pack slots.
pub fn backpack_slots_of(pack_slots: Option<&FieldValue>) -> (r: BTreeMap<u64, u8>)
    ensures
        r@ == match pack_slots {
            Some(FieldValue::LongArray(values)) => backpack_prefix(values@, values@.len() as int),
            _ => Map::empty(),
        },
{
    let mut out: BTreeMap<u64, u8> = BTreeMap::new();
    let values = match pack_slots {
        Some(FieldValue::LongArray(values)) => values,
        _ => return out,
    };
    let mut i: usize = 0;
    while i < values.len()
        invariant
            i <= values@.len(),
            out@ == backpack_prefix(values@, i as int),
        decreases values@.len() - i,
    {
        match values[i] {
            Some(g) => if g != 0 && i <= 232 {
                out.insert(g, (23 + i) as u8);
            },
            None => {},
        }
        i = i + 1;
    }
    out
}

/// The skill lines of the first `k` skill slots of the skill-info field. Each slot takes
/// three entries (skill/step, current/maximum, bonuses); a slot whose first entry is
/// missing or names skill 0 is empty. Gives skill line to (current, maximum) for slots
/// whose second entry is present, and slot to skill line for every non-empty slot.
pub open spec fn skill_prefix(entries: Seq<Option<ShortPair>>, k: int) -> (Map<u32, (u16, u16)>, Map<usize, u32>)
    decreases k,
{
    if k <= 0 {
        (Map::empty(), Map::empty())
    } else {
        let (skills, slots) = skill_prefix(entries, k - 1);
        let at = 3 * (k - 1);
        match entries[at] {
            None => (skills, slots),
            Some(first) => {
                let skill = first.low as u16;
                if skill == 0 {
                    (skills, slots)
                } else {
                    let slots2 = slots.insert((k - 1) as usize, skill as u32);
                    if at + 1 < entries.len() && entries[at + 1] is Some {
                        let second = entries[at + 1]->0;
                        (skills.insert(skill as u32, (second.low as u16, second.high as u16)), slots2)
                    } else {
                        (skills, slots2)
                    }
                }
            },
        }
    }
}

/// The number of skill slots in `n` entries: every three entries, and a last partial
/// group.
pub open spec fn slot_count(n: int) -> int {
    (n + 2) / 3
}

/// The skills and their slots from the skill-info field; `None` where the field is not a
/// pair array.
pub fn profession_skills_from_field(field: &FieldValue) -> (r: Option<(BTreeMap<u32, (u16, u16)>, BTreeMap<usize, u32>)>)
    ensures
        match field {
            FieldValue::TwoShortsArray(entries) => r matches Some((skills, slots))
                && (skills@, slots@) == skill_prefix(entries@, slot_count(entries@.len() as int)),
            _ => r is None,
        },
{
    let entries = match field {
        FieldValue::TwoShortsArray(entries) => entries,
        _ => return None,
    };
    let mut skills: BTreeMap<u32, (u16, u16)> = BTreeMap::new();
    let mut slots: BTreeMap<usize, u32> = BTreeMap::new();
    let n = entries.len();
    let count = n / 3 + if n % 3 == 0 { 0 } else { 1 };
    assert(count == slot_count(n as int));
    let mut k: usize = 0;
    while k < count
        invariant
            n == entries@.len(),
            count == slot_count(n as int),
            k <= count,
            (skills@, slots@) == skill_prefix(entries@, k as int),
        decreases count - k,
    {
        assert(3 * k < n) by {
            assert(k < (n + 2) / 3);
        }
        let at = 3 * k;
        match entries[at] {
            None => {},
            Some(first) => {
                let skill = first.low as u16;
                if skill != 0 {
                    slots.insert(k, skill as u32);
                    if at + 1 < n {
                        match entries[at + 1] {
                            Some(second) => {
                                skills.insert(skill as u32, (second.low as u16, second.high as u16));
                            },
                            None => {},
                        }
                    }
                }
            },
        }
        k = k + 1;
    }
    Some((skills, slots))
}

/// One quest log row: quest, state, two pairs of objective counters. Gives the quest (where
/// it is a positive integer), whether the state marks it complete, and the four counters.
pub open spec fn quest_row(row: Seq<Option<FieldValue>>) -> Option<(u32, bool, Seq<u32>)> {
    let quest: Option<u32> = if row.len() > 0 && row[0] is Some {
        match field_u32_of(row[0]->0) {
            Some(q) => if q > 0 { Some(q) } else { None },
            None => None,
        }
    } else {
        None
    };
    let state: u32 = if row.len() > 1 && row[1] is Some {
        match field_u32_of(row[1]->0) {
            Some(s) => s,
            None => 0,
        }
    } else {
        0
    };
    let (o1, o2) = counter_pair(row, 2);
    let (o3, o4) = counter_pair(row, 3);
    match quest {
        Some(q) => Some((q, state & 1 != 0, seq![o1, o2, o3, o4])),
        None => None,
    }
}

/// The two 16-bit counters of entry `i` of a row, as unsigned values; zero where absent.
pub open spec fn counter_pair(row: Seq<Option<FieldValue>>, i: int) -> (u32, u32) {
    if i < row.len() && row[i] is Some {
        match row[i]->0 {
            FieldValue::TwoShorts(p) => (p.low as u16 as u32, p.high as u16 as u32),
            _ => (0, 0),
        }
    } else {
        (0, 0)
    }
}

/// The quest journal of the first `k` quest log rows; a later row for the same quest wins.
pub open spec fn journal_prefix(rows: Seq<Seq<Option<FieldValue>>>, k: int) -> Map<u32, (bool, Seq<u32>)>
    decreases k,
{
    if k <= 0 {
        Map::empty()
    } else {
        let m = journal_prefix(rows, k - 1);
        match quest_row(rows[k - 1]) {
            Some((q, complete, counters)) => m.insert(q, (complete, counters)),
            None => m,
        }
    }
}

fn row_u32(row: &Vec<Option<FieldValue>>, i: usize) -> (r: Option<u32>)
    ensures
        r == (if i < row@.len() && row@[i as int] is Some { field_u32_of(row@[i as int]->0) } else { None }),
{
    if i < row.len() {
        match &row[i] {
            Some(v) => field_u32(v),
            None => None,
        }
    } else {
        None
    }
}

fn row_counters(row: &Vec<Option<FieldValue>>, i: usize) -> (r: (u32, u32))
    ensures
        r == counter_pair(row@, i as int),
{
    if i < row.len() {
        match &row[i] {
            Some(FieldValue::TwoShorts(p)) => (p.low as u16 as u32, p.high as u16 as u32),
            _ => (0, 0),
        }
    } else {
        (0, 0)
    }
}

/// Whether a map from quests to (complete, counters) holds a journal.
pub open spec fn journal_matches(m: Map<u32, (bool, Vec<u32>)>, j: Map<u32, (bool, Seq<u32>)>) -> bool {
    &&& m.dom() == j.dom()
    &&& forall|q: u32| #[trigger] m.contains_key(q) ==> m[q].0 == j[q].0 && m[q].1@ == j[q].1
}

/// The quest journal of the quest-log field: quest to (complete, objective counters).
pub fn quest_journal(quest_log: Option<&FieldValue>) -> (r: BTreeMap<u32, (bool, Vec<u32>)>)
    ensures
        journal_matches(r@, match quest_log {
            Some(FieldValue::CustomArray(rows)) => journal_prefix(rows@.map_values(|row: Vec<Option<FieldValue>>| row@), rows@.len() as int),
            _ => Map::empty(),
        }),
{
    let mut out: BTreeMap<u32, (bool, Vec<u32>)> = BTreeMap::new();
    let rows = match quest_log {
        Some(FieldValue::CustomArray(rows)) => rows,
        _ => {
            assert(out@.dom() =~= Map::<u32, (bool, Seq<u32>)>::empty().dom());
            return out;
        },
    };
    let ghost views = rows@.map_values(|row: Vec<Option<FieldValue>>| row@);
    let mut i: usize = 0;
    while i < rows.len()
        invariant
            i <= rows@.len(),
            views == rows@.map_values(|row: Vec<Option<FieldValue>>| row@),
            journal_matches(out@, journal_prefix(views, i as int)),
        decreases rows@.len() - i,
    {
        let row = &rows[i];
        assert(views[i as int] == row@);
        let quest = match row_u32(row, 0) {
            Some(q) => if q > 0 { Some(q) } else { None },
            None => None,
        };
        let state = match row_u32(row, 1) {
            Some(s) => s,
            None => 0,
        };
        let (o1, o2) = row_counters(row, 2);
        let (o3, o4) = row_counters(row, 3);
        match quest {
            Some(q) => {
                let counters: Vec<u32> = vec![o1, o2, o3, o4];
                assert(counters@ =~= seq![o1, o2, o3, o4]);
                out.insert(q, (state & 1 != 0, counters));
                proof {
                    let j = journal_prefix(views, i + 1);
                    assert(out@.dom() =~= j.dom());
                }
            },
            None => {},
        }
        i = i + 1;
    }
    out
}

} // verus!
