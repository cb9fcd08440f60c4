//! Auras on entities.
use vstd::prelude::*;
use std::collections::{BTreeMap, BTreeSet};
use crate::ids::EntityId;

verus! {

broadcast use vstd::std_specs::btree::group_btree_axioms;

/// One aura in a slot of an entity.
#[derive(Clone, Copy, Debug, PartialEq, Eq, Structural)]
pub struct AuraInstance {
    pub slot: u8,
    pub spell: u32,
    pub positive: Option<bool>,
    pub caster: Option<EntityId>,
    pub max_duration_ms: Option<u32>,
    pub remaining_ms: Option<u32>,
}

/// Auras by entity GUID, then by slot.
#[derive(Clone, Debug)]
pub struct AuraState {
    pub by_entity: BTreeMap<u64, BTreeMap<u8, AuraInstance>>,
}

/// The spells of the auras in a slot map.
pub open spec fn slot_spells(slots: Map<u8, AuraInstance>) -> Set<u32> {
    Set::new(|s: u32| exists|k: u8| slots.contains_key(k) && #[trigger] slots[k].spell == s)
}

/// The spells of the auras on an entity.
pub open spec fn entity_spells(auras: Map<u64, BTreeMap<u8, AuraInstance>>, entity: EntityId) -> Set<u32> {
    if auras.contains_key(entity.0) { slot_spells(auras[entity.0]@) } else { Set::empty() }
}

impl AuraState {
    /// No auras.
    pub fn empty() -> (r: Self)
        ensures
            r.by_entity@ == Map::<u64, BTreeMap<u8, AuraInstance>>::empty(),
    {
        AuraState { by_entity: BTreeMap::new() }
    }

    /// The spells of the auras on an entity.
    pub fn spells(&self, entity: EntityId) -> (r: BTreeSet<u32>)
        ensures
            r@ == entity_spells(self.by_entity@, entity),
    {
        let mut out: BTreeSet<u32> = BTreeSet::new();
        match self.by_entity.get(&entity.0) {
            None => {
                assert(out@ =~= entity_spells(self.by_entity@, entity));
                out
            },
            Some(slots) => {
                let ghost m = slots@;
                let mut k: u16 = 0;
                while k < 256
                    invariant
                        k <= 256,
                        m == slots@,
                        forall|s: u32| out@.contains(s) <==> exists|j: u8| j < k && m.contains_key(j) && #[trigger] m[j].spell == s,
                    decreases 256 - k,
                {
                    let slot = k as u8;
                    match slots.get(&slot) {
                        Some(a) => {
                            out.insert(a.spell);
                            assert forall|s: u32| out@.contains(s) <==> exists|j: u8| j < k + 1 && m.contains_key(j) && #[trigger] m[j].spell == s by {
                                if out@.contains(s) && s != a.spell {
                                    let j = choose|j: u8| j < k && m.contains_key(j) && #[trigger] m[j].spell == s;
                                    assert(j < k + 1);
                                }
                                if s == a.spell {
                                    assert(m.contains_key(slot) && m[slot].spell == s && slot < k + 1);
                                }
                            }
                        },
                        None => {
                            assert forall|s: u32| out@.contains(s) <==> exists|j: u8| j < k + 1 && m.contains_key(j) && #[trigger] m[j].spell == s by {
                                if exists|j: u8| j < k + 1 && m.contains_key(j) && #[trigger] m[j].spell == s {
                                    let j = choose|j: u8| j < k + 1 && m.contains_key(j) && #[trigger] m[j].spell == s;
                                    assert(j != slot);
                                    assert(j < k);
                                }
                            }
                        },
                    }
                    k = k + 1;
                }
                assert(out@ =~= entity_spells(self.by_entity@, entity)) by {
                    assert forall|s: u32| out@.contains(s) == entity_spells(self.by_entity@, entity).contains(s) by {
                        if exists|j: u8| m.contains_key(j) && #[trigger] m[j].spell == s {
                            let j = choose|j: u8| m.contains_key(j) && #[trigger] m[j].spell == s;
                            assert(j < 256);
                        }
                    }
                }
                out
            },
        }
    }

    /// Whether an entity has an aura of any of `spells`.
    pub fn has_any(&self, entity: EntityId, spells: &[u32]) -> (r: bool)
        ensures
            r == exists|i: int| 0 <= i < spells@.len() && entity_spells(self.by_entity@, entity).contains(#[trigger] spells@[i]),
    {
        let present = self.spells(entity);
        let mut i: usize = 0;
        while i < spells.len()
            invariant
                i <= spells@.len(),
                present@ == entity_spells(self.by_entity@, entity),
                forall|j: int| 0 <= j < i ==> !present@.contains(#[trigger] spells@[j]),
            decreases spells@.len() - i,
        {
            if present.contains(&spells[i]) {
                return true;
            }
            i = i + 1;
        }
        false
    }
}

} // verus!
