//! World packets the object adapter reads directly: world entry and talents.
use vstd::prelude::*;
use crate::bytes::{read_u32_at, u32_at};
use crate::domain::{Vec3, WorldPosition};
use crate::state::capabilities::TalentRank;
use crate::state::observation::ProtocolObservation;

verus! {

/// Login verify-world: map, x, y, z, orientation. Entered the world at that position where
/// the point is finite.
pub open spec fn verify_world_obs(body: Seq<u8>, character_guid: u64) -> Option<ProtocolObservation> {
    if body.len() < 20 {
        None
    } else {
        let point = Vec3 { x: u32_at(body, 4), y: u32_at(body, 8), z: u32_at(body, 12) };
        if point.finite() {
            Some(ProtocolObservation::EnteredWorld {
                character_guid,
                position: Some(WorldPosition { map: u32_at(body, 0), point, orientation: u32_at(body, 16) }),
            })
        } else {
            None
        }
    }
}

/// Read a login verify-world packet as world entry of `character_guid`.
pub fn login_verify_world(body: &[u8], character_guid: u64) -> (r: Option<ProtocolObservation>)
    ensures
        r == verify_world_obs(body@, character_guid),
{
    if body.len() < 20 {
        return None;
    }
    let map = read_u32_at(body, 0).unwrap();
    let point = Vec3 {
        x: read_u32_at(body, 4).unwrap(),
        y: read_u32_at(body, 8).unwrap(),
        z: read_u32_at(body, 12).unwrap(),
    };
    let orientation = read_u32_at(body, 16).unwrap();
    if !point.is_finite() {
        return None;
    }
    Some(ProtocolObservation::EnteredWorld {
        character_guid,
        position: Some(WorldPosition { map, point, orientation }),
    })
}

/// The `count` talent records (id u32, rank u8) from `at`.
pub open spec fn talent_records(body: Seq<u8>, at: int, count: int) -> Seq<TalentRank> {
    Seq::new(count as nat, |i: int| TalentRank { talent_id: u32_at(body, at + 5 * i), rank: body[at + 5 * i + 4] })
}

/// Whether talent records name real talents, once each, at ranks below 5.
pub open spec fn talents_well_formed(t: Seq<TalentRank>) -> bool {
    &&& forall|i: int| 0 <= i < t.len() ==> (#[trigger] t[i]).talent_id != 0 && t[i].rank < 5
    &&& forall|i: int, j: int| 0 <= i < j < t.len() ==> (#[trigger] t[i]).talent_id != (#[trigger] t[j]).talent_id
}

/// One talent group at `at`: a count of at most 150, the records, a glyph count of at most
/// 6 and the 16-bit glyphs. Gives the talents and the end of the group.
pub open spec fn talent_group_at(body: Seq<u8>, at: int) -> Option<(Seq<TalentRank>, int)> {
    if at < 0 || at >= body.len() {
        None
    } else {
        let count = body[at] as int;
        let e = at + 1 + 5 * count;
        if count > 150 || e >= body.len() {
            None
        } else {
            let talents = talent_records(body, at + 1, count);
            let glyphs = body[e] as int;
            if !talents_well_formed(talents) || glyphs > 6 || e + 1 + 2 * glyphs > body.len() {
                None
            } else {
                Some((talents, e + 1 + 2 * glyphs))
            }
        }
    }
}

/// `k` talent groups read one after another from `at`, and the end of the last.
pub open spec fn talent_groups_from(body: Seq<u8>, at: int, k: nat) -> Option<(Seq<Seq<TalentRank>>, int)>
    decreases k,
{
    if k == 0 {
        Some((Seq::empty(), at))
    } else {
        match talent_groups_from(body, at, (k - 1) as nat) {
            None => None,
            Some((groups, next)) => match talent_group_at(body, next) {
                None => None,
                Some((talents, end)) => Some((groups.push(talents), end)),
            },
        }
    }
}

/// The player talents packet: marker 0 (a pet packet has marker 1 and gives `None`),
/// unspent points, group count (1 or 2), active group, the groups, and nothing after. A
/// malformed player packet gives unknown talents: `(None, None, [])`.
pub open spec fn talents_info_of(body: Seq<u8>) -> Option<(Option<u8>, Option<u8>, Seq<TalentRank>)> {
    if body.len() == 0 || body[0] != 0 {
        None
    } else if body.len() < 7 {
        Some((None, None, Seq::empty()))
    } else {
        let groups = body[5];
        let active = body[6];
        if groups < 1 || groups > 2 || active >= groups {
            Some((None, None, Seq::empty()))
        } else {
            match talent_groups_from(body, 7, groups as nat) {
                Some((g, end)) => if end == body.len() {
                    Some((Some(groups), Some(active), g[active as int]))
                } else {
                    Some((None, None, Seq::empty()))
                },
                None => Some((None, None, Seq::empty())),
            }
        }
    }
}

/// Read one talent group at `at`.
fn read_talent_group(body: &[u8], at: usize) -> (r: Option<(Vec<TalentRank>, usize)>)
    ensures
        match r {
            Some((v, end)) => talent_group_at(body@, at as int) == Some((v@, end as int)) && end <= body@.len(),
            None => talent_group_at(body@, at as int) is None,
        },
{
    if at >= body.len() {
        return None;
    }
    let count = body[at] as usize;
    if count > 150 || body.len() - at - 1 <= 5 * count {
        return None;
    }
    let start = at + 1;
    let mut talents: Vec<TalentRank> = Vec::new();
    let mut i: usize = 0;
    while i < count
        invariant
            count <= 150,
            at < body@.len(),
            count == body@[at as int],
            start == at + 1,
            start + 5 * count < body.len(),
            i <= count,
            talents@ == talent_records(body@, start as int, i as int),
            talents_well_formed(talents@),
        decreases count - i,
    {
        let talent_id = read_u32_at(body, start + 5 * i).unwrap();
        let rank = body[start + 5 * i + 4];
        if talent_id == 0 || rank >= 5 || contains_talent(&talents, talent_id) {
            proof {
                let full = talent_records(body@, start as int, count as int);
                assert(full[i as int] == TalentRank { talent_id, rank });
                if talent_id != 0 && rank < 5 {
                    let j = choose|j: int| 0 <= j < talents@.len() && talents@[j].talent_id == talent_id;
                    assert(full[j] == talents@[j]);
                    assert(full[j].talent_id == full[i as int].talent_id);
                }
                assert(!talents_well_formed(full));
            }
            return None;
        }
        talents.push(TalentRank { talent_id, rank });
        assert(talents@ =~= talent_records(body@, start as int, i + 1));
        i = i + 1;
    }
    let e = start + 5 * count;
    let glyphs = body[e] as usize;
    if glyphs > 6 || body.len() - e - 1 < 2 * glyphs {
        return None;
    }
    Some((talents, e + 1 + 2 * glyphs))
}

/// Whether a talent is already among `v`.
fn contains_talent(v: &Vec<TalentRank>, id: u32) -> (r: bool)
    ensures
        r == exists|j: int| 0 <= j < v@.len() && v@[j].talent_id == id,
{
    let mut i: usize = 0;
    while i < v.len()
        invariant
            i <= v@.len(),
            forall|j: int| 0 <= j < i ==> v@[j].talent_id != id,
        decreases v@.len() - i,
    {
        if v[i].talent_id == id {
            return true;
        }
        i = i + 1;
    }
    false
}

/// Read a player talents packet: the group count, the active group and its talents;
/// unknown talents where the packet is malformed, `None` for a pet packet.
pub fn parse_player_talents_info(body: &[u8]) -> (r: Option<(Option<u8>, Option<u8>, Vec<TalentRank>)>)
    ensures
        match (r, talents_info_of(body@)) {
            (Some((g, a, t)), Some((g2, a2, t2))) => g == g2 && a == a2 && t@ == t2,
            (None, None) => true,
            _ => false,
        },
{
    if body.len() == 0 || body[0] != 0 {
        return None;
    }
    if body.len() < 7 {
        return Some((None, None, Vec::new()));
    }
    let groups = body[5];
    let active = body[6];
    if groups < 1 || groups > 2 || active >= groups {
        return Some((None, None, Vec::new()));
    }
    let mut at: usize = 7;
    let mut g: u8 = 0;
    let mut active_talents: Vec<TalentRank> = Vec::new();
    let ghost mut seen: Seq<Seq<TalentRank>> = Seq::empty();
    while g < groups
        invariant
            1 <= groups <= 2,
            active < groups,
            body@.len() >= 7,
            body@[0] == 0,
            groups == body@[5],
            active == body@[6],
            seen.len() == g,
            g <= groups,
            at <= body@.len(),
            talent_groups_from(body@, 7, g as nat) == Some((seen, at as int)),
            g > active ==> active_talents@ == seen[active as int],
        decreases groups - g,
    {
        match read_talent_group(body, at) {
            None => {
                proof {
                    lemma_groups_fail(body@, g as nat, groups as nat);
                }
                return Some((None, None, Vec::new()));
            },
            Some((talents, end)) => {
                proof {
                    seen = seen.push(talents@);
                }
                if g == active {
                    active_talents = talents;
                }
                at = end;
            },
        }
        g = g + 1;
    }
    if at != body.len() {
        return Some((None, None, Vec::new()));
    }
    Some((Some(groups), Some(active), active_talents))
}

proof fn lemma_groups_fail(body: Seq<u8>, g: nat, n: nat)
    requires
        g < n,
        talent_groups_from(body, 7, g) matches Some((_, at)) && talent_group_at(body, at) is None,
    ensures
        talent_groups_from(body, 7, n) is None,
    decreases n - g,
{
    if g + 1 < n {
        lemma_groups_none_extends(body, (g + 1) as nat, n);
    }
}

proof fn lemma_groups_none_extends(body: Seq<u8>, g: nat, n: nat)
    requires
        g <= n,
        talent_groups_from(body, 7, g) is None,
    ensures
        talent_groups_from(body, 7, n) is None,
    decreases n - g,
{
    if g < n {
        lemma_groups_none_extends(body, (g + 1) as nat, n);
    }
}

} // verus!
