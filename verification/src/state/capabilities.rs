//! What the character can do: class, talents, spells, cooldowns and runes; and the
//! resolution of the active talent tree.
use vstd::prelude::*;
use std::collections::{BTreeMap, BTreeSet};

verus! {

broadcast use vstd::std_specs::btree::group_btree_axioms;

/// A selected talent. The protocol sends the rank zero-based; a talent of rank `r` spends
/// `r + 1` points.
#[derive(Clone, Copy, Debug, PartialEq, Eq, Structural)]
pub struct TalentRank {
    pub talent_id: u32,
    pub rank: u8,
}

/// One death-knight rune: its type (0 to 3) and whether it is ready.
#[derive(Clone, Copy, Debug, PartialEq, Eq, Structural)]
pub struct RuneState {
    pub rune_type: u8,
    pub ready: bool,
}

/// Class, talents, spells and items the character can use.
#[derive(Clone, Debug)]
pub struct CapabilityState {
    pub class_id: Option<u8>,
    pub talent_group_count: Option<u8>,
    pub active_talent_group: Option<u8>,
    pub active_talents: Vec<TalentRank>,
    pub specialization_tree: Option<u8>,
    pub spells: BTreeSet<u32>,
    /// Spell to the time (ms) its cooldown ends.
    pub spell_cooldowns: BTreeMap<u32, u64>,
    pub items: BTreeSet<u32>,
    pub can_fish: bool,
    pub mounted: bool,
}

/// Where a talent sits: its class and its tree.
#[derive(Clone, Copy, Debug, PartialEq, Eq, Structural)]
pub struct TalentLocation {
    pub class_id: u8,
    pub tree: u8,
}

/// Talent metadata: talent to class and tree.
#[derive(Clone, Debug)]
pub struct TalentCatalog {
    pub talents: BTreeMap<u32, TalentLocation>,
}

/// Whether every selected talent has metadata, belongs to `class_id`, sits in one of the
/// three trees and has a rank below 5.
pub open spec fn talents_resolvable(catalog: Map<u32, TalentLocation>, class_id: u8, talents: Seq<TalentRank>) -> bool {
    forall|i: int| 0 <= i < talents.len() ==> {
        let t = #[trigger] talents[i];
        &&& catalog.contains_key(t.talent_id)
        &&& catalog[t.talent_id].class_id == class_id
        &&& catalog[t.talent_id].tree < 3
        &&& t.rank < 5
    }
}

/// The points spent in `tree` by the talents.
pub open spec fn tree_points(catalog: Map<u32, TalentLocation>, talents: Seq<TalentRank>, tree: u8) -> int
    decreases talents.len(),
{
    if talents.len() == 0 {
        0
    } else {
        let t = talents.last();
        tree_points(catalog, talents.drop_last(), tree) + if catalog[t.talent_id].tree == tree {
            t.rank + 1
        } else {
            0
        }
    }
}

/// The tree holding strictly more points than each of the two others, if one does.
pub open spec fn unique_top_tree(p0: int, p1: int, p2: int) -> Option<u8> {
    if p0 > p1 && p0 > p2 {
        Some(0)
    } else if p1 > p0 && p1 > p2 {
        Some(1)
    } else if p2 > p0 && p2 > p1 {
        Some(2)
    } else {
        None
    }
}

/// The active talent tree: known only where the class is known, some talent is selected,
/// every selected talent is resolvable, and one tree holds strictly the most points.
pub open spec fn resolved_tree(catalog: Map<u32, TalentLocation>, class_id: Option<u8>, talents: Seq<TalentRank>) -> Option<u8> {
    match class_id {
        None => None,
        Some(c) => if talents.len() == 0 || !talents_resolvable(catalog, c, talents) {
            None
        } else {
            unique_top_tree(
                tree_points(catalog, talents, 0),
                tree_points(catalog, talents, 1),
                tree_points(catalog, talents, 2),
            )
        },
    }
}

proof fn lemma_tree_points_bound(catalog: Map<u32, TalentLocation>, talents: Seq<TalentRank>, tree: u8)
    ensures
        0 <= tree_points(catalog, talents, tree) <= 256 * talents.len(),
    decreases talents.len(),
{
    if talents.len() > 0 {
        lemma_tree_points_bound(catalog, talents.drop_last(), tree);
    }
}

/// Resolve the active talent tree from the catalog: `None` where the class is unknown, no
/// talent is selected, a talent lacks metadata, belongs to another class, sits outside the
/// three trees or has a rank of 5 or more, or no single tree holds the most points.
pub fn active_tree(catalog: &TalentCatalog, class_id: Option<u8>, talents: &[TalentRank]) -> (r: Option<u8>)
    ensures
        r == resolved_tree(catalog.talents@, class_id, talents@),
{
    let class = match class_id {
        Some(c) => c,
        None => return None,
    };
    if talents.len() == 0 {
        return None;
    }
    let ghost cat = catalog.talents@;
    let mut p0: u128 = 0;
    let mut p1: u128 = 0;
    let mut p2: u128 = 0;
    let mut i: usize = 0;
    while i < talents.len()
        invariant
            i <= talents@.len(),
            cat == catalog.talents@,
            class_id == Some(class),
            talents_resolvable(cat, class, talents@.subrange(0, i as int)),
            p0 == tree_points(cat, talents@.subrange(0, i as int), 0),
            p1 == tree_points(cat, talents@.subrange(0, i as int), 1),
            p2 == tree_points(cat, talents@.subrange(0, i as int), 2),
            i <= usize::MAX,
        decreases talents@.len() - i,
    {
        let t = talents[i];
        let location = match catalog.talents.get(&t.talent_id) {
            Some(l) => {
                proof {
                    assert(cat.contains_key(t.talent_id) && cat[t.talent_id] == *l);
                }
                *l
            },
            None => {
                proof {
                    assert(talents@[i as int] == t);
                    assert(!cat.contains_key(t.talent_id));
                    assert(!talents_resolvable(cat, class, talents@));
                }
                return None;
            },
        };
        if location.class_id != class || location.tree >= 3 || t.rank >= 5 {
            proof {
                assert(talents@[i as int] == t);
                assert(!talents_resolvable(cat, class, talents@));
                assert(resolved_tree(cat, Some(class), talents@) is None);
            }
            return None;
        }
        let ghost prefix = talents@.subrange(0, i + 1);
        proof {
            assert(prefix.drop_last() =~= talents@.subrange(0, i as int));
            assert(prefix.last() == t);
            lemma_tree_points_bound(cat, talents@.subrange(0, i as int), 0);
            lemma_tree_points_bound(cat, talents@.subrange(0, i as int), 1);
            lemma_tree_points_bound(cat, talents@.subrange(0, i as int), 2);
            assert forall|j: int| 0 <= j < prefix.len() implies {
                let u = #[trigger] prefix[j];
                &&& cat.contains_key(u.talent_id)
                &&& cat[u.talent_id].class_id == class
                &&& cat[u.talent_id].tree < 3
                &&& u.rank < 5
            } by {
                if j < i {
                    assert(prefix[j] == talents@.subrange(0, i as int)[j]);
                }
            }
        }
        let add = (t.rank as u128) + 1;
        if location.tree == 0 {
            p0 = p0 + add;
        } else if location.tree == 1 {
            p1 = p1 + add;
        } else {
            p2 = p2 + add;
        }
        i = i + 1;
    }
    proof {
        assert(talents@.subrange(0, talents@.len() as int) =~= talents@);
    }
    if p0 > p1 && p0 > p2 {
        Some(0)
    } else if p1 > p0 && p1 > p2 {
        Some(1)
    } else if p2 > p0 && p2 > p1 {
        Some(2)
    } else {
        None
    }
}

} // verus!
