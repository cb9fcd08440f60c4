//! Bags, equipment, money, loot, vendors, trade, auction and mail.
use vstd::prelude::*;
use std::collections::BTreeMap;
use crate::ids::EntityId;
use vstd::std_specs::btree::spec_btree_map_iter;
use vstd::std_specs::iter::IteratorSpec;

verus! {

broadcast use vstd::std_specs::btree::group_btree_axioms;

/// A count of one item.
#[derive(Clone, Copy, Debug, PartialEq, Eq, Structural)]
pub struct ItemStack {
    pub item: u32,
    pub count: u32,
}

/// One item instance in the backpack.
#[derive(Clone, Copy, Debug, PartialEq, Eq, Structural)]
pub struct InventoryItemInstance {
    pub item: u32,
    pub guid: EntityId,
    pub backpack_slot: u8,
    pub count: u32,
}

/// Who opened the current loot window.
#[derive(Clone, Copy, Debug, PartialEq, Eq, Structural)]
pub enum LootOwnership {
    Bot,
    Player,
}

/// An open or closed trade.
#[derive(Clone, Debug)]
pub struct TradeState {
    pub generation: u64,
    pub partner: Option<EntityId>,
    pub our_items: BTreeMap<u32, u32>,
    pub their_items: BTreeMap<u32, u32>,
    pub our_money: u64,
    pub their_money: u64,
    pub open: bool,
}

/// One auction-house listing.
#[derive(Clone, Copy, Debug, PartialEq, Eq, Structural)]
pub struct AuctionListing {
    pub listing_id: u64,
    pub item: u32,
    pub count: u32,
    pub buyout: u64,
}

/// The last auction-house query.
#[derive(Clone, Debug)]
pub struct AuctionState {
    pub query_generation: u64,
    pub listings: BTreeMap<u64, AuctionListing>,
}

/// One mail.
#[derive(Clone, Debug)]
pub struct MailEntry {
    pub mail_id: u32,
    pub money: u64,
    pub attachments: BTreeMap<u32, u32>,
}

/// The mailbox.
#[derive(Clone, Debug)]
pub struct MailboxState {
    pub generation: u64,
    pub mails: BTreeMap<u32, MailEntry>,
}

/// What the character carries and which service windows are open.
#[derive(Clone, Debug)]
pub struct InventoryState {
    /// Item to count.
    pub items: BTreeMap<u32, u32>,
    /// Backpack item instances by GUID.
    pub instances: BTreeMap<u64, InventoryItemInstance>,
    pub free_slots: u16,
    pub equipped_ranged_item: Option<u32>,
    pub equipped_items: BTreeMap<u8, u32>,
    pub equipment_slots_authoritative: bool,
    pub equipment_authoritative: bool,
    pub money: u64,
    pub loot_generation: u64,
    pub bot_loot_generation: u64,
    pub current_loot: Option<EntityId>,
    pub current_loot_owner: Option<LootOwnership>,
    pub vendor: Option<EntityId>,
    pub trade: TradeState,
    pub auction: AuctionState,
    pub mailbox: MailboxState,
}

/// How many of an item the character carries; 0 where it has none.
pub open spec fn item_count(items: Map<u32, u32>, item: u32) -> u32 {
    if items.contains_key(item) { items[item] } else { 0 }
}

/// Whether instance `a` comes before `b` by backpack slot, then GUID.
pub open spec fn instance_before(a: InventoryItemInstance, b: InventoryItemInstance) -> bool {
    a.backpack_slot < b.backpack_slot || (a.backpack_slot == b.backpack_slot && a.guid.0 <= b.guid.0)
}

/// Whether an instance is a usable stack of `item`.
pub open spec fn usable_of(inst: InventoryItemInstance, item: u32) -> bool {
    inst.item == item && inst.count > 0
}

/// The usable instance of `item` that comes first by slot and GUID, if any.
pub open spec fn first_usable(m: Map<u64, InventoryItemInstance>, item: u32, r: Option<InventoryItemInstance>) -> bool {
    match r {
        None => forall|k: u64| m.contains_key(k) ==> !usable_of(#[trigger] m[k], item),
        Some(b) => {
            &&& exists|k: u64| m.contains_key(k) && #[trigger] m[k] == b
            &&& usable_of(b, item)
            &&& forall|k: u64| m.contains_key(k) && usable_of(#[trigger] m[k], item) ==> instance_before(b, m[k])
        },
    }
}

impl InventoryState {
    /// How many of an item the character carries.
    pub fn count(&self, item: u32) -> (r: u32)
        ensures
            r == item_count(self.items@, item),
    {
        match self.items.get(&item) {
            Some(c) => *c,
            None => 0,
        }
    }

    /// Whether the character carries at least `count` of an item.
    pub fn has(&self, item: u32, count: u32) -> (r: bool)
        ensures
            r == (item_count(self.items@, item) >= count),
    {
        self.count(item) >= count
    }

    /// The usable stack of an item to use first: the lowest backpack slot, then the lowest
    /// GUID.
    pub fn usable_instance(&self, item: u32) -> (r: Option<InventoryItemInstance>)
        ensures
            first_usable(self.instances@, item, r),
    {
        let ghost m = self.instances@;
        let ghost s = spec_btree_map_iter(&self.instances).remaining();
        let ghost mut n: int = 0;
        let mut best: Option<InventoryItemInstance> = None;
        for pair in it: self.instances.iter()
            invariant
                m == self.instances@,
                s == spec_btree_map_iter(&self.instances).remaining(),
                it.seq() == s,
                n == it.index(),
                forall|i: int| 0 <= i < s.len() ==> m.contains_key(*(#[trigger] s[i]).0) && m[*s[i].0] == *s[i].1,
                forall|k: u64| m.contains_key(k) ==> s.contains((&k, &m[k])),
                match best {
                    None => forall|i: int| 0 <= i < n ==> !usable_of(*(#[trigger] s[i]).1, item),
                    Some(b) => {
                        &&& exists|k: u64| m.contains_key(k) && #[trigger] m[k] == b
                        &&& usable_of(b, item)
                        &&& forall|i: int| 0 <= i < n && usable_of(*(#[trigger] s[i]).1, item) ==> instance_before(b, *s[i].1)
                    },
                },
        {
            let (key, inst) = pair;
            let inst = *inst;
            proof {
                assert(s[n] == pair);
                assert(m.contains_key(*key) && m[*key] == inst);
            }
            if inst.item == item && inst.count > 0 {
                let take = match best {
                    None => true,
                    Some(b) => inst.backpack_slot < b.backpack_slot
                        || (inst.backpack_slot == b.backpack_slot && inst.guid.0 < b.guid.0),
                };
                if take {
                    best = Some(inst);
                }
            }
            proof {
                n = n + 1;
            }
        }
        proof {
            assert(n == s.len());
            match best {
                None => {
                    assert forall|k: u64| m.contains_key(k) implies !usable_of(#[trigger] m[k], item) by {
                        assert(s.contains((&k, &m[k])));
                        let i = choose|i: int| 0 <= i < s.len() && s[i] == (&k, &m[k]);
                        assert(*s[i].1 == m[k]);
                    }
                },
                Some(b) => {
                    assert forall|k: u64| m.contains_key(k) && usable_of(#[trigger] m[k], item) implies instance_before(b, m[k]) by {
                        assert(s.contains((&k, &m[k])));
                        let i = choose|i: int| 0 <= i < s.len() && s[i] == (&k, &m[k]);
                        assert(*s[i].1 == m[k]);
                    }
                },
            }
        }
        best
    }
}

} // verus!
