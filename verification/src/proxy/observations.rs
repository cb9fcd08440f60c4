//! Observations read from world packets the server sends: spells, casts, auras, runes,
//! combo points, corpses, controlled abilities and quests.
use vstd::prelude::*;
use crate::bytes::{
    lemma_packed_guid_at_bounds, packed_guid_at, read_packed_guid, read_u16_at, read_u32_at,
    read_u64_at, u16_at, u32_at, u64_at,
};
use crate::domain::{Vec3, WorldPosition, f32_bits_finite, f32_bits_zero, is_finite_bits};
use crate::ids::EntityId;
use crate::state::auras::AuraInstance;
use crate::state::capabilities::RuneState;
use crate::state::observation::ProtocolObservation;
use crate::state::quests::{
    QuestDefinition, QuestItemObjective, QuestTargetKind, QuestTargetObjective, QuestTurnInDialog,
    QuestTurnInStage,
};
use crate::text::{read_cstring, text_at};
use vstd::utf8::encode_utf8;

verus! {

pub const SMSG_INITIAL_SPELLS: u32 = 0x012A;
pub const SMSG_LEARNED_SPELL: u32 = 0x012B;
pub const SMSG_AURA_UPDATE_ALL: u32 = 0x0495;
pub const SMSG_AURA_UPDATE: u32 = 0x0496;
pub const SMSG_SPELL_COOLDOWN: u32 = 0x0134;
pub const SMSG_SPELL_START: u32 = 0x0131;
pub const SMSG_SPELL_GO: u32 = 0x0132;
pub const MSG_CHANNEL_START: u32 = 0x0139;
pub const MSG_CHANNEL_UPDATE: u32 = 0x013A;
pub const SMSG_RESYNC_RUNES: u32 = 0x0487;
pub const SMSG_UPDATE_COMBO_POINTS: u32 = 0x039D;
pub const MSG_CORPSE_QUERY: u32 = 0x0216;
pub const SMSG_CORPSE_RECLAIM_DELAY: u32 = 0x0269;
pub const SMSG_PET_SPELLS: u32 = 0x0179;

/// A time `delta` milliseconds after `now`, saturating at the end of the 64-bit range.
pub open spec fn later_ms(now: u64, delta: u32) -> u64 {
    if now + delta > u64::MAX { u64::MAX } else { (now + delta) as u64 }
}

fn later(now: u64, delta: u32) -> (r: u64)
    ensures
        r == later_ms(now, delta),
{
    now.saturating_add(delta as u64)
}

#[verifier::external_type_specification]
#[verifier::external_body]
pub struct ExSystemTime(std::time::SystemTime);

/// Calls `std::time::SystemTime::now`, the system clock's reading; nothing is stated of it.
#[verifier::external_body]
fn system_now() -> (r: std::time::SystemTime) {
    std::time::SystemTime::now()
}

/// Calls `SystemTime::duration_since` with the Unix epoch: the time since the epoch, or
/// `None` where the reading lies before it. The reading is the clock's, so nothing is
/// stated of the result.
#[verifier::external_body]
fn since_unix_epoch(t: &std::time::SystemTime) -> (r: Option<std::time::Duration>) {
    t.duration_since(std::time::UNIX_EPOCH).ok()
}

/// Calls `Duration::as_millis`, the whole milliseconds of a duration (opaque here).
#[verifier::external_body]
fn duration_millis(d: &std::time::Duration) -> (r: u128) {
    d.as_millis()
}

/// Milliseconds since the Unix epoch, read from the system clock: 0 where the clock reads
/// before the epoch, and the largest `u64` where the count does not fit.
pub(crate) fn wall_clock_now_ms() -> (r: u64) {
    let now = system_now();
    match since_unix_epoch(&now) {
        Some(elapsed) => {
            let ms = duration_millis(&elapsed);
            if ms > 0xFFFF_FFFF_FFFF_FFFFu128 { 0xFFFF_FFFF_FFFF_FFFFu64 } else { ms as u64 }
        },
        None => 0,
    }
}

// ----- casts -----

/// A cast of `duration_ms` by `caster`, started at `now`; `None` where the caster, the spell
/// or the duration is zero.
pub open spec fn cast_start_obs(caster: u64, spell: u32, duration_ms: u32, now: u64) -> Option<ProtocolObservation> {
    if caster == 0 || spell == 0 || duration_ms == 0 {
        None
    } else {
        Some(ProtocolObservation::CastStarted {
            caster: EntityId(caster),
            spell,
            started_at_ms: now,
            ends_at_ms: later_ms(now, duration_ms),
        })
    }
}

/// A started cast, as an observation.
pub fn cast_started(caster: EntityId, spell: u32, duration_ms: u32, now_ms: u64) -> (r: Option<ProtocolObservation>)
    ensures
        r == cast_start_obs(caster.0, spell, duration_ms, now_ms),
{
    if caster.0 == 0 || spell == 0 || duration_ms == 0 {
        return None;
    }
    Some(ProtocolObservation::CastStarted {
        caster,
        spell,
        started_at_ms: now_ms,
        ends_at_ms: later(now_ms, duration_ms),
    })
}

/// Spell start: cast item or caster (packed), caster (packed), cast count, spell, cast
/// flags, remaining time.
pub open spec fn spell_start_obs(body: Seq<u8>, now: u64) -> Option<ProtocolObservation> {
    match packed_guid_at(body, 0) {
        None => None,
        Some((_, c1)) => match packed_guid_at(body, c1) {
            None => None,
            Some((caster, c2)) => if c2 + 13 > body.len() {
                None
            } else {
                cast_start_obs(caster, u32_at(body, c2 + 1), u32_at(body, c2 + 9), now)
            },
        },
    }
}

/// Read a spell start packet as a started cast.
pub fn parse_spell_start(body: &[u8], now_ms: u64) -> (r: Option<ProtocolObservation>)
    ensures
        r == spell_start_obs(body@, now_ms),
{
    let (_, c1) = match read_packed_guid(body, 0) {
        Some(p) => p,
        None => return None,
    };
    let (caster, c2) = match read_packed_guid(body, c1) {
        Some(p) => p,
        None => return None,
    };
    if body.len() - c2 < 13 {
        return None;
    }
    let spell = read_u32_at(body, c2 + 1).unwrap();
    let remaining = read_u32_at(body, c2 + 9).unwrap();
    cast_started(EntityId(caster), spell, remaining, now_ms)
}

/// Spell go: two packed GUIDs, cast count, spell; a finished cast where caster and spell
/// are nonzero.
pub open spec fn spell_go_obs(body: Seq<u8>) -> Option<ProtocolObservation> {
    match packed_guid_at(body, 0) {
        None => None,
        Some((_, c1)) => match packed_guid_at(body, c1) {
            None => None,
            Some((caster, c2)) => if c2 + 5 > body.len() {
                None
            } else {
                let spell = u32_at(body, c2 + 1);
                if caster != 0 && spell != 0 {
                    Some(ProtocolObservation::CastFinished { caster: EntityId(caster), spell })
                } else {
                    None
                }
            },
        },
    }
}

/// Read a spell go packet as a finished cast.
pub fn parse_spell_go(body: &[u8]) -> (r: Option<ProtocolObservation>)
    ensures
        r == spell_go_obs(body@),
{
    let (_, c1) = match read_packed_guid(body, 0) {
        Some(p) => p,
        None => return None,
    };
    let (caster, c2) = match read_packed_guid(body, c1) {
        Some(p) => p,
        None => return None,
    };
    if body.len() - c2 < 5 {
        return None;
    }
    let spell = read_u32_at(body, c2 + 1).unwrap();
    if caster != 0 && spell != 0 {
        Some(ProtocolObservation::CastFinished { caster: EntityId(caster), spell })
    } else {
        None
    }
}

/// Channel start: caster (packed), spell, duration.
pub open spec fn channel_start_obs(body: Seq<u8>, now: u64) -> Option<ProtocolObservation> {
    match packed_guid_at(body, 0) {
        None => None,
        Some((caster, c)) => if c + 8 > body.len() {
            None
        } else {
            cast_start_obs(caster, u32_at(body, c), u32_at(body, c + 4), now)
        },
    }
}

/// Read a channel start packet as a started cast.
pub fn parse_channel_start(body: &[u8], now_ms: u64) -> (r: Option<ProtocolObservation>)
    ensures
        r == channel_start_obs(body@, now_ms),
{
    let (caster, c) = match read_packed_guid(body, 0) {
        Some(p) => p,
        None => return None,
    };
    if body.len() - c < 8 {
        return None;
    }
    let spell = read_u32_at(body, c).unwrap();
    let duration = read_u32_at(body, c + 4).unwrap();
    cast_started(EntityId(caster), spell, duration, now_ms)
}

/// Channel update: caster (packed), remaining time; a remaining time of 0 ends the cast
/// (end time 0).
pub open spec fn channel_update_obs(body: Seq<u8>, now: u64) -> Option<ProtocolObservation> {
    match packed_guid_at(body, 0) {
        None => None,
        Some((caster, c)) => if c + 4 > body.len() || caster == 0 {
            None
        } else {
            let remaining = u32_at(body, c);
            Some(ProtocolObservation::CastUpdated {
                caster: EntityId(caster),
                ends_at_ms: if remaining == 0 { 0 } else { later_ms(now, remaining) },
            })
        },
    }
}

/// Read a channel update packet.
pub fn parse_channel_update(body: &[u8], now_ms: u64) -> (r: Option<ProtocolObservation>)
    ensures
        r == channel_update_obs(body@, now_ms),
{
    let (caster, c) = match read_packed_guid(body, 0) {
        Some(p) => p,
        None => return None,
    };
    let remaining = match read_u32_at(body, c) {
        Some(v) => v,
        None => return None,
    };
    if caster == 0 {
        return None;
    }
    let ends_at_ms = if remaining == 0 { 0 } else { later(now_ms, remaining) };
    Some(ProtocolObservation::CastUpdated { caster: EntityId(caster), ends_at_ms })
}

// ----- corpse -----

/// Corpse query: a flag byte, then map and x, y, z where the flag is set.
pub open spec fn corpse_query_obs(body: Seq<u8>) -> Option<ProtocolObservation> {
    if body.len() == 0 {
        None
    } else if body[0] == 0 {
        Some(ProtocolObservation::CorpseLocation { position: None })
    } else if body.len() < 17 {
        None
    } else {
        let point = Vec3 { x: u32_at(body, 5), y: u32_at(body, 9), z: u32_at(body, 13) };
        if !point.finite() {
            None
        } else {
            Some(ProtocolObservation::CorpseLocation {
                position: Some(WorldPosition { map: u32_at(body, 1), point, orientation: 0 }),
            })
        }
    }
}

/// Read a corpse query answer; `None` where it is cut short or the position is not finite.
pub fn parse_corpse_query(body: &[u8]) -> (r: Option<ProtocolObservation>)
    ensures
        r == corpse_query_obs(body@),
{
    if body.len() == 0 {
        return None;
    }
    if body[0] == 0 {
        return Some(ProtocolObservation::CorpseLocation { position: None });
    }
    if body.len() < 17 {
        return None;
    }
    let map = read_u32_at(body, 1).unwrap();
    let point = Vec3 {
        x: read_u32_at(body, 5).unwrap(),
        y: read_u32_at(body, 9).unwrap(),
        z: read_u32_at(body, 13).unwrap(),
    };
    if !point.is_finite() {
        return None;
    }
    Some(ProtocolObservation::CorpseLocation { position: Some(WorldPosition { map, point, orientation: 0 }) })
}

/// Corpse reclaim delay: the time in milliseconds until the corpse can be reclaimed.
pub open spec fn reclaim_delay_obs(body: Seq<u8>, now: u64) -> Option<ProtocolObservation> {
    if body.len() < 4 {
        None
    } else {
        Some(ProtocolObservation::CorpseReclaimDelay { ready_at_ms: later_ms(now, u32_at(body, 0)) })
    }
}

/// Read a corpse reclaim delay.
pub fn parse_reclaim_delay(body: &[u8], now_ms: u64) -> (r: Option<ProtocolObservation>)
    ensures
        r == reclaim_delay_obs(body@, now_ms),
{
    match read_u32_at(body, 0) {
        Some(delay) => Some(ProtocolObservation::CorpseReclaimDelay { ready_at_ms: later(now_ms, delay) }),
        None => None,
    }
}

// ----- spells -----

/// The observations of the first `k` cooldown records (eight bytes each from byte 9):
/// each record with a nonzero spell gives a cooldown, and also a global cooldown start
/// where the flags byte (byte 8) has bit 0 set.
pub open spec fn cooldown_records(body: Seq<u8>, k: int, now: u64) -> Seq<ProtocolObservation>
    decreases k,
{
    if k <= 0 {
        Seq::empty()
    } else {
        let prev = cooldown_records(body, k - 1, now);
        let at = 9 + 8 * (k - 1);
        let spell = u32_at(body, at);
        if spell == 0 {
            prev
        } else {
            let cd = ProtocolObservation::SpellCooldown { spell, ready_at_ms: later_ms(now, u32_at(body, at + 4)) };
            if body[8] & 1 != 0 {
                prev.push(cd).push(ProtocolObservation::SpellGlobalCooldown { spell, started_at_ms: now })
            } else {
                prev.push(cd)
            }
        }
    }
}

/// The observations of a spell cooldown packet: caster GUID (8 bytes), flags, then as many
/// whole (spell, cooldown) records as fit.
pub open spec fn cooldown_obs(body: Seq<u8>, now: u64) -> Seq<ProtocolObservation> {
    if body.len() < 9 {
        Seq::empty()
    } else {
        cooldown_records(body, (body.len() - 9) / 8, now)
    }
}

/// Read a spell cooldown packet.
pub fn parse_spell_cooldowns(body: &[u8], now_ms: u64) -> (r: Vec<ProtocolObservation>)
    ensures
        r@ == cooldown_obs(body@, now_ms),
{
    let mut out: Vec<ProtocolObservation> = Vec::new();
    if body.len() < 9 {
        return out;
    }
    let global = body[8] & 1u8 != 0;
    let ghost n = (body@.len() - 9) / 8;
    let mut k: usize = 0;
    let mut at: usize = 9;
    while body.len() - at >= 8
        invariant
            body@.len() >= 9,
            at == 9 + 8 * k,
            at <= body@.len(),
            global == (body@[8] & 1 != 0),
            out@ == cooldown_records(body@, k as int, now_ms),
        decreases body@.len() - at,
    {
        let spell = read_u32_at(body, at).unwrap();
        let cooldown = read_u32_at(body, at + 4).unwrap();
        if spell != 0 {
            out.push(ProtocolObservation::SpellCooldown { spell, ready_at_ms: later(now_ms, cooldown) });
            if global {
                out.push(ProtocolObservation::SpellGlobalCooldown { spell, started_at_ms: now_ms });
            }
        }
        k = k + 1;
        at = at + 8;
    }
    proof {
        let len = body@.len() as int;
        let kk = k as int;
        assert(kk == (len - 9) / 8) by (nonlinear_arith)
            requires 9 + 8 * kk <= len, len - (9 + 8 * kk) < 8, kk >= 0;
    }
    out
}

/// The known spells of the first `k` records of an initial-spells packet (six bytes each
/// from byte 3, beginning with the spell); zero spells are skipped.
pub open spec fn initial_spell_records(body: Seq<u8>, k: int) -> Seq<ProtocolObservation>
    decreases k,
{
    if k <= 0 {
        Seq::empty()
    } else {
        let prev = initial_spell_records(body, k - 1);
        let spell = u32_at(body, 3 + 6 * (k - 1));
        if spell == 0 { prev } else { prev.push(ProtocolObservation::SpellKnown { spell }) }
    }
}

/// The known spells of an initial-spells packet: talent-spec byte, 16-bit count, records;
/// nothing where the count exceeds 4096 or the records do not fit.
pub open spec fn initial_spells_obs(body: Seq<u8>) -> Seq<ProtocolObservation> {
    if body.len() < 3 {
        Seq::empty()
    } else {
        let count = u16_at(body, 1) as int;
        if count > 4096 || body.len() < 3 + 6 * count {
            Seq::empty()
        } else {
            initial_spell_records(body, count)
        }
    }
}

/// Read an initial-spells packet.
pub fn parse_initial_spells(body: &[u8]) -> (r: Vec<ProtocolObservation>)
    ensures
        r@ == initial_spells_obs(body@),
{
    let mut out: Vec<ProtocolObservation> = Vec::new();
    if body.len() < 3 {
        return out;
    }
    let count = read_u16_at(body, 1).unwrap() as usize;
    if count > 4096 || body.len() < 3 + 6 * count {
        return out;
    }
    let mut k: usize = 0;
    while k < count
        invariant
            count <= 4096,
            3 + 6 * count <= body@.len(),
            count == u16_at(body@, 1),
            k <= count,
            out@ == initial_spell_records(body@, k as int),
        decreases count - k,
    {
        let spell = read_u32_at(body, 3 + 6 * k).unwrap();
        if spell != 0 {
            out.push(ProtocolObservation::SpellKnown { spell });
        }
        k = k + 1;
    }
    out
}

/// A learned-spell packet: the spell.
pub open spec fn learned_spell_obs(body: Seq<u8>) -> Seq<ProtocolObservation> {
    if body.len() < 4 {
        Seq::empty()
    } else {
        seq![ProtocolObservation::SpellKnown { spell: u32_at(body, 0) }]
    }
}

// ----- runes and combo points -----

/// The six rune states of a rune resync packet: count 6 as u32, then (type, cooldown byte)
/// pairs; a rune is ready where its cooldown byte is 255. `None` where the count is not 6,
/// the length is not exact or a type exceeds 3.
pub open spec fn runes_of(body: Seq<u8>) -> Option<Seq<RuneState>> {
    if body.len() < 4 || u32_at(body, 0) != 6 || body.len() != 16 {
        None
    } else if exists|j: int| 0 <= j < 6 && #[trigger] body[4 + 2 * j] > 3 {
        None
    } else {
        Some(Seq::new(6, |j: int| RuneState { rune_type: body[4 + 2 * j], ready: body[5 + 2 * j] == 255 }))
    }
}

/// Read a rune resync packet.
pub fn parse_player_runes(body: &[u8]) -> (r: Option<Vec<RuneState>>)
    ensures
        match (r, runes_of(body@)) {
            (Some(v), Some(s)) => v@ == s,
            (None, None) => true,
            _ => false,
        },
{
    if body.len() < 4 {
        return None;
    }
    let count = read_u32_at(body, 0).unwrap();
    if count != 6 || body.len() != 16 {
        return None;
    }
    let mut runes: Vec<RuneState> = Vec::new();
    let mut j: usize = 0;
    while j < 6
        invariant
            body@.len() == 16,
            u32_at(body@, 0) == 6,
            j <= 6,
            forall|i: int| 0 <= i < j ==> #[trigger] body@[4 + 2 * i] <= 3,
            runes@ == Seq::new(j as nat, |i: int| RuneState { rune_type: body@[4 + 2 * i], ready: body@[5 + 2 * i] == 255 }),
        decreases 6 - j,
    {
        let rune_type = body[4 + 2 * j];
        if rune_type > 3 {
            return None;
        }
        runes.push(RuneState { rune_type, ready: body[5 + 2 * j] == 255u8 });
        assert(runes@ =~= Seq::new((j + 1) as nat, |i: int| RuneState { rune_type: body@[4 + 2 * i], ready: body@[5 + 2 * i] == 255 }));
        j = j + 1;
    }
    Some(runes)
}

/// Combo points: target (packed), then the points; the points count only where they are
/// the last byte.
pub open spec fn combo_points_obs(body: Seq<u8>) -> ProtocolObservation {
    match packed_guid_at(body, 0) {
        None => ProtocolObservation::ComboPoints { target: None, points: None },
        Some((g, c)) => ProtocolObservation::ComboPoints {
            target: Some(EntityId(g)),
            points: if c + 1 == body.len() { Some(body[c]) } else { None },
        },
    }
}

/// Read a combo points packet.
pub fn parse_combo_points(body: &[u8]) -> (r: ProtocolObservation)
    ensures
        r == combo_points_obs(body@),
{
    match read_packed_guid(body, 0) {
        None => ProtocolObservation::ComboPoints { target: None, points: None },
        Some((g, c)) => ProtocolObservation::ComboPoints {
            target: Some(EntityId(g)),
            points: if c < body.len() && c + 1 == body.len() { Some(body[c]) } else { None },
        },
    }
}

// ----- auras -----

/// Single aura update: entity (packed), slot, spell; spell 0 empties the slot.
pub open spec fn aura_update_obs(body: Seq<u8>) -> Option<ProtocolObservation> {
    match packed_guid_at(body, 0) {
        None => None,
        Some((entity, c)) => if c + 5 > body.len() {
            None
        } else {
            let slot = body[c];
            let spell = u32_at(body, c + 1);
            Some(ProtocolObservation::AuraSlot {
                entity: EntityId(entity),
                slot,
                aura: if spell != 0 {
                    Some(AuraInstance { slot, spell, positive: None, caster: None, max_duration_ms: None, remaining_ms: None })
                } else {
                    None
                },
            })
        },
    }
}

/// Read a single aura update.
pub fn parse_aura_update(body: &[u8]) -> (r: Option<ProtocolObservation>)
    ensures
        r == aura_update_obs(body@),
{
    let (entity, c) = match read_packed_guid(body, 0) {
        Some(p) => p,
        None => return None,
    };
    if body.len() - c < 5 {
        return None;
    }
    let slot = body[c];
    let spell = read_u32_at(body, c + 1).unwrap();
    let aura = if spell != 0 {
        Some(AuraInstance { slot, spell, positive: None, caster: None, max_duration_ms: None, remaining_ms: None })
    } else {
        None
    };
    Some(ProtocolObservation::AuraSlot { entity: EntityId(entity), slot, aura })
}

/// One record of a full aura update at `at`: slot, spell, flags, level, then the caster
/// (packed) unless flag 0x08 is set, then maximum and remaining duration where flag 0x20 is
/// set. Gives the aura and the end of the record.
pub open spec fn aura_record_at(body: Seq<u8>, at: int) -> Option<(AuraInstance, int)> {
    if at + 7 > body.len() {
        None
    } else {
        let slot = body[at];
        let spell = u32_at(body, at + 1);
        let flags = body[at + 5];
        let caster_and_end: Option<(Option<EntityId>, int)> = if flags & 0x08 == 0 {
            match packed_guid_at(body, at + 7) {
                None => None,
                Some((g, e)) => Some((Some(EntityId(g)), e)),
            }
        } else {
            Some((None, at + 7))
        };
        match caster_and_end {
            None => None,
            Some((caster, e)) => if flags & 0x20 != 0 {
                if e + 8 > body.len() {
                    None
                } else {
                    Some((AuraInstance {
                        slot,
                        spell,
                        positive: Some(flags & 0x10 != 0),
                        caster,
                        max_duration_ms: Some(u32_at(body, e)),
                        remaining_ms: Some(u32_at(body, e + 4)),
                    }, e + 8))
                }
            } else {
                Some((AuraInstance {
                    slot,
                    spell,
                    positive: Some(flags & 0x10 != 0),
                    caster,
                    max_duration_ms: None,
                    remaining_ms: None,
                }, e))
            },
        }
    }
}

/// The auras (with nonzero spells) of the records from `at` to the end of the body; `None`
/// where a record is cut short.
pub open spec fn aura_records_from(body: Seq<u8>, at: int) -> Option<Seq<AuraInstance>>
    decreases body.len() - at,
{
    if at < 0 || at >= body.len() {
        Some(Seq::empty())
    } else {
        match aura_record_at(body, at) {
            None => None,
            Some((aura, next)) => if next <= at || next > body.len() {
                None
            } else {
                match aura_records_from(body, next) {
                    None => None,
                    Some(rest) => Some(if aura.spell != 0 { seq![aura] + rest } else { rest }),
                }
            },
        }
    }
}

/// Full aura update: entity (packed), then aura records to the end.
pub open spec fn aura_snapshot_of(body: Seq<u8>) -> Option<(EntityId, Seq<AuraInstance>)> {
    match packed_guid_at(body, 0) {
        None => None,
        Some((entity, c)) => match aura_records_from(body, c) {
            None => None,
            Some(auras) => Some((EntityId(entity), auras)),
        },
    }
}

/// Read one full-update aura record at `at`.
fn read_aura_record(body: &[u8], at: usize) -> (r: Option<(AuraInstance, usize)>)
    ensures
        match r {
            Some((a, e)) => aura_record_at(body@, at as int) == Some((a, e as int)) && at < e <= body@.len(),
            None => aura_record_at(body@, at as int) is None,
        },
{
    if at > body.len() || body.len() - at < 7 {
        return None;
    }
    let slot = body[at];
    let spell = read_u32_at(body, at + 1).unwrap();
    let flags = body[at + 5];
    let (caster, e) = if flags & 0x08u8 == 0 {
        match read_packed_guid(body, at + 7) {
            None => return None,
            Some((g, e)) => (Some(EntityId(g)), e),
        }
    } else {
        (None, at + 7)
    };
    if flags & 0x20u8 != 0 {
        if body.len() - e < 8 {
            return None;
        }
        let max = read_u32_at(body, e).unwrap();
        let remaining = read_u32_at(body, e + 4).unwrap();
        Some((AuraInstance {
            slot,
            spell,
            positive: Some(flags & 0x10u8 != 0),
            caster,
            max_duration_ms: Some(max),
            remaining_ms: Some(remaining),
        }, e + 8))
    } else {
        Some((AuraInstance {
            slot,
            spell,
            positive: Some(flags & 0x10u8 != 0),
            caster,
            max_duration_ms: None,
            remaining_ms: None,
        }, e))
    }
}

proof fn lemma_aura_records_step(body: Seq<u8>, at: int, aura: AuraInstance, next: int, done: Seq<AuraInstance>)
    requires
        0 <= at < body.len(),
        aura_record_at(body, at) == Some((aura, next)),
        at < next <= body.len(),
    ensures
        (match aura_records_from(body, next) {
            None => None,
            Some(rest) => Some(done + if aura.spell != 0 { seq![aura] + rest } else { rest }),
        }) == (match aura_records_from(body, at) {
            None => None::<Seq<AuraInstance>>,
            Some(rest) => Some(done + rest),
        }),
{
    match aura_records_from(body, next) {
        None => {},
        Some(rest) => {
            if aura.spell != 0 {
                assert(done + (seq![aura] + rest) =~= done + seq![aura] + rest);
            }
        },
    }
}

/// Read a full aura update as a snapshot of the entity's auras.
pub fn parse_aura_update_all(body: &[u8]) -> (r: Option<ProtocolObservation>)
    ensures
        match (r, aura_snapshot_of(body@)) {
            (Some(ProtocolObservation::AuraSnapshot { entity, auras }), Some((e, s))) => entity == e && auras@ == s,
            (None, None) => true,
            _ => false,
        },
{
    let (entity, start) = match read_packed_guid(body, 0) {
        Some(p) => p,
        None => return None,
    };
    let mut at = start;
    let mut auras: Vec<AuraInstance> = Vec::new();
    while at < body.len()
        invariant
            packed_guid_at(body@, 0) == Some((entity, start as int)),
            start <= at <= body@.len(),
            (match aura_records_from(body@, at as int) {
                None => None,
                Some(rest) => Some(auras@ + rest),
            }) == aura_records_from(body@, start as int),
        decreases body@.len() - at,
    {
        match read_aura_record(body, at) {
            None => {
                proof {
                    assert(aura_records_from(body@, at as int) is None);
                }
                return None;
            },
            Some((aura, next)) => {
                proof {
                    lemma_aura_records_step(body@, at as int, aura, next as int, auras@);
                }
                if aura.spell != 0 {
                    auras.push(aura);
                }
                proof {
                    match aura_records_from(body@, next as int) {
                        None => {},
                        Some(rest) => {
                            if aura.spell != 0 {
                                assert(auras@ + rest =~= auras@.drop_last() + (seq![aura] + rest));
                            }
                        },
                    }
                }
                at = next;
            },
        }
    }
    proof {
        assert(auras@ + Seq::<AuraInstance>::empty() =~= auras@);
    }
    Some(ProtocolObservation::AuraSnapshot { entity: EntityId(entity), auras })
}

// ----- controlled abilities -----

/// The distinct nonzero spells of the first `k` action-bar slots of a pet-spells packet
/// (packed u32 values from byte 18; the spell is the low 24 bits), in order.
pub open spec fn ability_slots(body: Seq<u8>, k: int) -> Seq<u32>
    decreases k,
{
    if k <= 0 {
        Seq::empty()
    } else {
        let prev = ability_slots(body, k - 1);
        let spell = u32_at(body, 18 + 4 * (k - 1)) & 0x00FF_FFFF;
        if spell != 0 && !prev.contains(spell) { prev.push(spell) } else { prev }
    }
}

/// The controlled mover and its abilities, from a pet-spells packet of at least 58 bytes
/// whose mover GUID is nonzero.
pub open spec fn controlled_abilities_of(opcode: u32, body: Seq<u8>) -> Option<(EntityId, Seq<u32>)> {
    if opcode != SMSG_PET_SPELLS || body.len() < 58 || u64_at(body, 0) == 0 {
        None
    } else {
        Some((EntityId(u64_at(body, 0)), ability_slots(body, 10)))
    }
}

/// Read the action bar of a controlled unit or vehicle: GUID, family, duration, a packed
/// react/command word, then ten action-bar values.
pub fn controlled_abilities_observation(opcode: u32, body: &[u8]) -> (r: Option<ProtocolObservation>)
    ensures
        match (r, controlled_abilities_of(opcode, body@)) {
            (Some(ProtocolObservation::ControlledAbilities { mover, spells }), Some((m, s))) => mover == m && spells@ == s,
            (None, None) => true,
            _ => false,
        },
{
    if opcode != SMSG_PET_SPELLS || body.len() < 58 {
        return None;
    }
    let mover = read_u64_at(body, 0).unwrap();
    if mover == 0 {
        return None;
    }
    let mut spells: Vec<u32> = Vec::new();
    let mut k: usize = 0;
    while k < 10
        invariant
            body@.len() >= 58,
            k <= 10,
            spells@ == ability_slots(body@, k as int),
        decreases 10 - k,
    {
        let packed = read_u32_at(body, 18 + 4 * k).unwrap();
        let spell = packed & 0x00FF_FFFFu32;
        if spell != 0 && !contains_u32(&spells, spell) {
            spells.push(spell);
        }
        k = k + 1;
    }
    Some(ProtocolObservation::ControlledAbilities { mover: EntityId(mover), spells })
}

/// Whether `v` holds `x`.
pub fn contains_u32(v: &Vec<u32>, x: u32) -> (r: bool)
    ensures
        r == v@.contains(x),
{
    let mut i: usize = 0;
    while i < v.len()
        invariant
            i <= v@.len(),
            forall|j: int| 0 <= j < i ==> v@[j] != x,
        decreases v@.len() - i,
    {
        if v[i] == x {
            assert(v@[i as int] == x);
            return true;
        }
        i = i + 1;
    }
    false
}

// ----- dispatch -----

/// What the spell, cast, aura, rune, combo-point and corpse packets give with the wall clock
/// at `now_ms`: `r` for a packet of `opcode` with `body`. Other opcodes give nothing.
pub open spec fn maintenance_result(opcode: u32, body: Seq<u8>, now_ms: u64, r: Seq<ProtocolObservation>) -> bool {
    &&& opcode == SMSG_INITIAL_SPELLS ==> r == initial_spells_obs(body)
    &&& opcode == SMSG_LEARNED_SPELL ==> r == learned_spell_obs(body)
    &&& opcode == SMSG_SPELL_COOLDOWN ==> r == cooldown_obs(body, now_ms)
    &&& opcode == SMSG_SPELL_START ==> r == option_seq(spell_start_obs(body, now_ms))
    &&& opcode == SMSG_SPELL_GO ==> r == option_seq(spell_go_obs(body))
    &&& opcode == MSG_CHANNEL_START ==> r == option_seq(channel_start_obs(body, now_ms))
    &&& opcode == MSG_CHANNEL_UPDATE ==> r == option_seq(channel_update_obs(body, now_ms))
    &&& opcode == SMSG_AURA_UPDATE ==> r == option_seq(aura_update_obs(body))
    &&& opcode == SMSG_UPDATE_COMBO_POINTS ==> r == seq![combo_points_obs(body)]
    &&& opcode == MSG_CORPSE_QUERY ==> r == option_seq(corpse_query_obs(body))
    &&& opcode == SMSG_CORPSE_RECLAIM_DELAY ==> r == option_seq(reclaim_delay_obs(body, now_ms))
    &&& opcode == SMSG_AURA_UPDATE_ALL ==> aura_snapshot_result(body, r)
    &&& opcode == SMSG_RESYNC_RUNES ==> runes_result(body, r)
    &&& !maintenance_opcode(opcode) ==> r.len() == 0
}

/// A full aura update gives the aura snapshot of its body, where it has one.
pub open spec fn aura_snapshot_result(body: Seq<u8>, r: Seq<ProtocolObservation>) -> bool {
    match aura_snapshot_of(body) {
        None => r.len() == 0,
        Some((e, s)) => r.len() == 1 && (r[0] matches ProtocolObservation::AuraSnapshot { entity, auras }
            && entity == e && auras@ == s),
    }
}

/// A rune resynchronisation gives the runes of its body, or no runes where it holds none.
pub open spec fn runes_result(body: Seq<u8>, r: Seq<ProtocolObservation>) -> bool {
    r.len() == 1 && (r[0] matches ProtocolObservation::PlayerRunes { runes }
        && match (runes, runes_of(body)) {
            (Some(v), Some(s)) => v@ == s,
            (None, None) => true,
            _ => false,
        })
}

/// Read the spell, cast, aura, rune, combo-point and corpse packets, with the wall clock at
/// `now_ms` (see [`maintenance_result`]).
pub fn maintenance_observations_at(opcode: u32, body: &[u8], now_ms: u64) -> (r: Vec<ProtocolObservation>)
    ensures
        maintenance_result(opcode, body@, now_ms, r@),
{
    let mut out: Vec<ProtocolObservation> = Vec::new();
    if opcode == SMSG_INITIAL_SPELLS {
        return parse_initial_spells(body);
    } else if opcode == SMSG_LEARNED_SPELL {
        if let Some(spell) = read_u32_at(body, 0) {
            out.push(ProtocolObservation::SpellKnown { spell });
        }
    } else if opcode == SMSG_AURA_UPDATE_ALL {
        push_some(&mut out, parse_aura_update_all(body));
    } else if opcode == SMSG_AURA_UPDATE {
        push_some(&mut out, parse_aura_update(body));
    } else if opcode == SMSG_SPELL_COOLDOWN {
        return parse_spell_cooldowns(body, now_ms);
    } else if opcode == SMSG_SPELL_START {
        push_some(&mut out, parse_spell_start(body, now_ms));
    } else if opcode == SMSG_SPELL_GO {
        push_some(&mut out, parse_spell_go(body));
    } else if opcode == MSG_CHANNEL_START {
        push_some(&mut out, parse_channel_start(body, now_ms));
    } else if opcode == MSG_CHANNEL_UPDATE {
        push_some(&mut out, parse_channel_update(body, now_ms));
    } else if opcode == SMSG_RESYNC_RUNES {
        out.push(ProtocolObservation::PlayerRunes { runes: parse_player_runes(body) });
    } else if opcode == SMSG_UPDATE_COMBO_POINTS {
        out.push(parse_combo_points(body));
    } else if opcode == MSG_CORPSE_QUERY {
        push_some(&mut out, parse_corpse_query(body));
    } else if opcode == SMSG_CORPSE_RECLAIM_DELAY {
        push_some(&mut out, parse_reclaim_delay(body, now_ms));
    }
    proof {
        if opcode == SMSG_LEARNED_SPELL {
            assert(out@ =~= learned_spell_obs(body@));
        }
        if opcode == SMSG_UPDATE_COMBO_POINTS {
            assert(out@ =~= seq![combo_points_obs(body@)]);
        }
    }
    out
}

/// Read the spell, cast, aura, rune, combo-point and corpse packets, timing them by the
/// system clock: the result is what [`maintenance_result`] gives for some clock reading, and
/// the packets that carry no time give exactly their observations.
pub fn maintenance_observations(opcode: u32, body: &[u8]) -> (r: Vec<ProtocolObservation>)
    ensures
        exists|now: u64| #[trigger] maintenance_result(opcode, body@, now, r@),
        !maintenance_opcode(opcode) ==> r@.len() == 0,
        opcode == SMSG_INITIAL_SPELLS ==> r@ == initial_spells_obs(body@),
        opcode == SMSG_LEARNED_SPELL ==> r@ == learned_spell_obs(body@),
        opcode == SMSG_SPELL_GO ==> r@ == option_seq(spell_go_obs(body@)),
        opcode == SMSG_AURA_UPDATE ==> r@ == option_seq(aura_update_obs(body@)),
        opcode == SMSG_AURA_UPDATE_ALL ==> aura_snapshot_result(body@, r@),
        opcode == SMSG_RESYNC_RUNES ==> runes_result(body@, r@),
        opcode == SMSG_UPDATE_COMBO_POINTS ==> r@ == seq![combo_points_obs(body@)],
        opcode == MSG_CORPSE_QUERY ==> r@ == option_seq(corpse_query_obs(body@)),
        opcode == SMSG_SPELL_COOLDOWN ==> exists|now: u64| r@ == #[trigger] cooldown_obs(body@, now),
        opcode == SMSG_SPELL_START ==> exists|now: u64| r@ == option_seq(#[trigger] spell_start_obs(body@, now)),
        opcode == MSG_CHANNEL_START ==> exists|now: u64| r@ == option_seq(#[trigger] channel_start_obs(body@, now)),
        opcode == MSG_CHANNEL_UPDATE ==> exists|now: u64| r@ == option_seq(#[trigger] channel_update_obs(body@, now)),
        opcode == SMSG_CORPSE_RECLAIM_DELAY ==> exists|now: u64| r@ == option_seq(#[trigger] reclaim_delay_obs(body@, now)),
{
    let now = wall_clock_now_ms();
    let r = maintenance_observations_at(opcode, body, now);
    assert(maintenance_result(opcode, body@, now, r@));
    r
}

/// The opcodes that `maintenance_observations_at` reads.
pub open spec fn maintenance_opcode(opcode: u32) -> bool {
    opcode == SMSG_INITIAL_SPELLS || opcode == SMSG_LEARNED_SPELL || opcode == SMSG_AURA_UPDATE_ALL
        || opcode == SMSG_AURA_UPDATE || opcode == SMSG_SPELL_COOLDOWN || opcode == SMSG_SPELL_START
        || opcode == SMSG_SPELL_GO || opcode == MSG_CHANNEL_START || opcode == MSG_CHANNEL_UPDATE
        || opcode == SMSG_RESYNC_RUNES || opcode == SMSG_UPDATE_COMBO_POINTS || opcode == MSG_CORPSE_QUERY
        || opcode == SMSG_CORPSE_RECLAIM_DELAY
}

/// The one-element sequence of a present value, or the empty sequence.
pub open spec fn option_seq<T>(o: Option<T>) -> Seq<T> {
    match o {
        Some(x) => seq![x],
        None => Seq::empty(),
    }
}

/// Push a present observation.
pub fn push_some(out: &mut Vec<ProtocolObservation>, o: Option<ProtocolObservation>)
    ensures
        final(out)@ == old(out)@ + option_seq(o),
{
    match o {
        Some(x) => {
            out.push(x);
            assert(final(out)@ =~= old(out)@ + option_seq(Some(x)));
        },
        None => {
            assert(final(out)@ =~= old(out)@ + option_seq(None::<ProtocolObservation>));
        },
    }
}


// ----- quests -----

pub const SMSG_QUESTGIVER_STATUS: u32 = 0x0183;
pub const SMSG_QUESTGIVER_QUEST_LIST: u32 = 0x0185;
pub const SMSG_QUESTGIVER_REQUEST_ITEMS: u32 = 0x018B;
pub const SMSG_QUESTGIVER_OFFER_REWARD: u32 = 0x018D;
pub const SMSG_QUESTGIVER_QUEST_COMPLETE: u32 = 0x018F;
pub const SMSG_QUESTGIVER_STATUS_MULTIPLE: u32 = 0x0418;
pub const SMSG_QUEST_QUERY_RESPONSE: u32 = 0x005D;

/// A questgiver status record at `at`: giver GUID, status byte.
pub open spec fn quest_status_at(body: Seq<u8>, at: int) -> Option<ProtocolObservation> {
    if at < 0 || at + 9 > body.len() {
        None
    } else {
        Some(ProtocolObservation::QuestGiverStatus { giver: EntityId(u64_at(body, at)), status: body[at + 8] })
    }
}

/// Read a questgiver status record at `offset`.
pub fn parse_quest_status_entry(body: &[u8], offset: usize) -> (r: Option<ProtocolObservation>)
    ensures
        r == quest_status_at(body@, offset as int),
{
    if offset > body.len() || body.len() - offset < 9 {
        return None;
    }
    let giver = read_u64_at(body, offset).unwrap();
    Some(ProtocolObservation::QuestGiverStatus { giver: EntityId(giver), status: body[offset + 8] })
}

/// Read a single questgiver status packet.
pub fn parse_single_quest_status(body: &[u8]) -> (r: Option<ProtocolObservation>)
    ensures
        r == quest_status_at(body@, 0),
{
    parse_quest_status_entry(body, 0)
}

/// The statuses of a multiple-status packet: a u32 count, then that many nine-byte
/// records; nothing where the count exceeds 4096 or the records do not fit.
pub open spec fn quest_statuses_of(body: Seq<u8>) -> Seq<ProtocolObservation> {
    if body.len() < 4 {
        Seq::empty()
    } else {
        let count = u32_at(body, 0) as int;
        if count > 4096 || body.len() < 4 + 9 * count {
            Seq::empty()
        } else {
            Seq::new(count as nat, |i: int| ProtocolObservation::QuestGiverStatus {
                giver: EntityId(u64_at(body, 4 + 9 * i)),
                status: body[12 + 9 * i],
            })
        }
    }
}

/// Read a multiple questgiver status packet.
pub fn parse_multiple_quest_status(body: &[u8]) -> (r: Vec<ProtocolObservation>)
    ensures
        r@ == quest_statuses_of(body@),
{
    let mut out: Vec<ProtocolObservation> = Vec::new();
    let count = match read_u32_at(body, 0) {
        Some(c) => c as usize,
        None => return out,
    };
    if count > 4096 || body.len() < 4 + 9 * count {
        return out;
    }
    let mut i: usize = 0;
    while i < count
        invariant
            body@.len() >= 4,
            count == u32_at(body@, 0),
            count <= 4096,
            4 + 9 * count <= body@.len(),
            i <= count,
            out@ == Seq::new(i as nat, |j: int| ProtocolObservation::QuestGiverStatus {
                giver: EntityId(u64_at(body@, 4 + 9 * j)),
                status: body@[12 + 9 * j],
            }),
        decreases count - i,
    {
        let entry = parse_quest_status_entry(body, 4 + 9 * i);
        match entry {
            Some(o) => out.push(o),
            None => return Vec::new(),
        }
        assert(out@ =~= Seq::new((i + 1) as nat, |j: int| ProtocolObservation::QuestGiverStatus {
            giver: EntityId(u64_at(body@, 4 + 9 * j)),
            status: body@[12 + 9 * j],
        }));
        i = i + 1;
    }
    out
}

/// The `k` quest offers of a quest list starting at `at`: quest, icon, level, flags and
/// repeatable flag (17 bytes), then the title; as (quest, icon) pairs.
pub open spec fn quest_offers_from(body: Seq<u8>, at: int, k: nat) -> Option<Seq<(u32, u32)>>
    decreases k,
{
    if k == 0 {
        Some(Seq::empty())
    } else if at < 0 || at + 17 > body.len() {
        None
    } else {
        match text_at(body, at + 17) {
            None => None,
            Some((_, next)) => match quest_offers_from(body, next, (k - 1) as nat) {
                None => None,
                Some(rest) => Some(seq![(u32_at(body, at), u32_at(body, at + 4))] + rest),
            },
        }
    }
}

/// A questgiver's quest list: giver GUID, greeting, emote delay and type, offer count,
/// offers. Gives the list notice followed by one offer per quest, or nothing where the
/// packet is malformed.
pub open spec fn quest_list_obs(body: Seq<u8>) -> Seq<ProtocolObservation> {
    if body.len() < 8 {
        Seq::empty()
    } else {
        let giver = EntityId(u64_at(body, 0));
        match text_at(body, 8) {
            None => Seq::empty(),
            Some((_, o1)) => if o1 + 9 > body.len() {
                Seq::empty()
            } else {
                let count = body[o1 + 8];
                match quest_offers_from(body, o1 + 9, count as nat) {
                    None => Seq::empty(),
                    Some(offers) => seq![ProtocolObservation::QuestGiverListReceived { giver, offer_count: count }]
                        + offers.map_values(|p: (u32, u32)| ProtocolObservation::QuestOffer { giver, quest: p.0, icon: p.1 }),
                }
            },
        }
    }
}

/// Read `k` quest offers from `at`, as (quest, icon) pairs.
fn read_quest_offers(body: &[u8], at: usize, k: u8) -> (r: Option<Vec<(u32, u32)>>)
    requires
        at <= body@.len(),
    ensures
        match r {
            Some(v) => quest_offers_from(body@, at as int, k as nat) == Some(v@),
            None => quest_offers_from(body@, at as int, k as nat) is None,
        },
    decreases k,
{
    if k == 0 {
        let v: Vec<(u32, u32)> = Vec::new();
        assert(v@ =~= Seq::<(u32, u32)>::empty());
        return Some(v);
    }
    if body.len() - at < 17 {
        return None;
    }
    let quest = read_u32_at(body, at).unwrap();
    let icon = read_u32_at(body, at + 4).unwrap();
    let next = match read_cstring(body, at + 17) {
        Some((_, n)) => n,
        None => return None,
    };
    let mut rest = match read_quest_offers(body, next, k - 1) {
        Some(v) => v,
        None => return None,
    };
    let ghost rest_view = rest@;
    let mut v: Vec<(u32, u32)> = Vec::new();
    v.push((quest, icon));
    v.append(&mut rest);
    assert(v@ =~= seq![(quest, icon)] + rest_view);
    Some(v)
}

/// The offer notices of a list of (quest, icon) pairs.
#[verifier::spinoff_prover]
fn offer_notices(giver: EntityId, offers: &Vec<(u32, u32)>, out: &mut Vec<ProtocolObservation>)
    ensures
        final(out)@ == old(out)@ + offers@.map_values(|p: (u32, u32)| ProtocolObservation::QuestOffer { giver, quest: p.0, icon: p.1 }),
{
    let ghost start = out@;
    let mut i: usize = 0;
    while i < offers.len()
        invariant
            i <= offers@.len(),
            out@ == start + offers@.subrange(0, i as int).map_values(|p: (u32, u32)| ProtocolObservation::QuestOffer { giver, quest: p.0, icon: p.1 }),
        decreases offers@.len() - i,
    {
        let (quest, icon) = offers[i];
        out.push(ProtocolObservation::QuestOffer { giver, quest, icon });
        assert(offers@.subrange(0, i + 1) =~= offers@.subrange(0, i as int).push(offers@[i as int]));
        assert(out@ =~= start + offers@.subrange(0, i + 1).map_values(|p: (u32, u32)| ProtocolObservation::QuestOffer { giver, quest: p.0, icon: p.1 }));
        i = i + 1;
    }
    assert(offers@.subrange(0, offers@.len() as int) =~= offers@);
}

/// Read a questgiver quest list.
#[verifier::spinoff_prover]
pub fn parse_quest_list(body: &[u8]) -> (r: Vec<ProtocolObservation>)
    ensures
        r@ == quest_list_obs(body@),
{
    let giver = match read_u64_at(body, 0) {
        Some(g) => EntityId(g),
        None => return Vec::new(),
    };
    let o1 = match read_cstring(body, 8) {
        Some((_, next)) => next,
        None => return Vec::new(),
    };
    if body.len() - o1 < 9 {
        return Vec::new();
    }
    let count = body[o1 + 8];
    let offers = match read_quest_offers(body, o1 + 9, count) {
        Some(v) => v,
        None => return Vec::new(),
    };
    let mut out: Vec<ProtocolObservation> = Vec::new();
    out.push(ProtocolObservation::QuestGiverListReceived { giver, offer_count: count });
    offer_notices(giver, &offers, &mut out);
    out
}

/// A request-items dialog: giver, quest, ... and the completion code 16 bytes from the end
/// (3 means the quest can be completed); at least 28 bytes.
pub open spec fn request_items_obs(body: Seq<u8>) -> Option<ProtocolObservation> {
    if body.len() < 28 {
        None
    } else {
        Some(ProtocolObservation::QuestTurnInDialog {
            quest: u32_at(body, 8),
            dialog: QuestTurnInDialog {
                giver: EntityId(u64_at(body, 0)),
                stage: QuestTurnInStage::RequestItems { can_complete: u32_at(body, body.len() - 16) == 3 },
            },
        })
    }
}

/// Read a request-items dialog.
pub fn parse_quest_request_items(body: &[u8]) -> (r: Option<ProtocolObservation>)
    ensures
        r == request_items_obs(body@),
{
    if body.len() < 28 {
        return None;
    }
    let giver = read_u64_at(body, 0).unwrap();
    let quest = read_u32_at(body, 8).unwrap();
    let code = read_u32_at(body, body.len() - 16).unwrap();
    Some(ProtocolObservation::QuestTurnInDialog {
        quest,
        dialog: QuestTurnInDialog {
            giver: EntityId(giver),
            stage: QuestTurnInStage::RequestItems { can_complete: code == 3 },
        },
    })
}

/// An offer-reward dialog: giver, quest, title, reward text, auto-finish flag, two u32
/// fields, an emote count and that many eight-byte emotes, then the reward choice count.
pub open spec fn offer_reward_obs(body: Seq<u8>) -> Option<ProtocolObservation> {
    if body.len() < 12 {
        None
    } else {
        match text_at(body, 12) {
            None => None,
            Some((_, o1)) => match text_at(body, o1) {
                None => None,
                Some((_, o2)) => {
                    let o3 = o2 + 9;
                    if o3 + 4 > body.len() {
                        None
                    } else {
                        let o4 = o3 + 4 + 8 * (u32_at(body, o3) as int);
                        if o4 + 4 > body.len() {
                            None
                        } else {
                            Some(ProtocolObservation::QuestTurnInDialog {
                                quest: u32_at(body, 8),
                                dialog: QuestTurnInDialog {
                                    giver: EntityId(u64_at(body, 0)),
                                    stage: QuestTurnInStage::OfferReward { reward_choices: u32_at(body, o4) },
                                },
                            })
                        }
                    }
                },
            },
        }
    }
}

/// Read an offer-reward dialog.
pub fn parse_quest_offer_reward(body: &[u8]) -> (r: Option<ProtocolObservation>)
    ensures
        r == offer_reward_obs(body@),
{
    if body.len() < 12 {
        return None;
    }
    let giver = read_u64_at(body, 0).unwrap();
    let quest = read_u32_at(body, 8).unwrap();
    let o1 = match read_cstring(body, 12) {
        Some((_, n)) => n,
        None => return None,
    };
    let o2 = match read_cstring(body, o1) {
        Some((_, n)) => n,
        None => return None,
    };
    if body.len() - o2 < 13 {
        return None;
    }
    let o3 = o2 + 9;
    let emotes = read_u32_at(body, o3).unwrap() as usize;
    if emotes > (body.len() - o3 - 4) / 8 {
        proof {
            assert(o3 + 4 + 8 * emotes > body@.len()) by (nonlinear_arith)
                requires emotes > (body@.len() - o3 - 4) / 8, o3 + 4 <= body@.len();
        }
        return None;
    }
    proof {
        assert(o3 + 4 + 8 * emotes <= body@.len()) by (nonlinear_arith)
            requires emotes <= (body@.len() - o3 - 4) / 8, o3 + 4 <= body@.len();
    }
    let o4 = o3 + 4 + 8 * emotes;
    let choices = match read_u32_at(body, o4) {
        Some(c) => c,
        None => return None,
    };
    Some(ProtocolObservation::QuestTurnInDialog {
        quest,
        dialog: QuestTurnInDialog { giver: EntityId(giver), stage: QuestTurnInStage::OfferReward { reward_choices: choices } },
    })
}


/// The text at `at`, or the empty text (and no advance) where none can be read.
pub open spec fn text_or_empty(body: Seq<u8>, at: int) -> (Seq<u8>, int) {
    match text_at(body, at) {
        Some((t, next)) => (t, next),
        None => (Seq::empty(), at),
    }
}

/// The four objective texts read one after another from `at`.
pub open spec fn objective_texts(body: Seq<u8>, at: int) -> Seq<Seq<u8>> {
    let (t0, p1) = text_or_empty(body, at);
    let (t1, p2) = text_or_empty(body, p1);
    let (t2, p3) = text_or_empty(body, p2);
    let (t3, _) = text_or_empty(body, p3);
    seq![t0, t1, t2, t3]
}

/// The kind and entry of an encoded objective target: the top bit marks a game object.
pub open spec fn target_kind_entry(encoded: u32) -> (QuestTargetKind, u32) {
    if encoded & 0x8000_0000 != 0 {
        (QuestTargetKind::GameObject, encoded & 0x7FFF_FFFF)
    } else {
        (QuestTargetKind::Creature, encoded)
    }
}

/// A target objective as plain values: slot, kind, entry, required count, item drop, text.
pub type TargetModel = (int, QuestTargetKind, u32, u32, u32, Seq<u8>);

/// The target objectives among the first `k` of the four records (16 bytes each from
/// `base`: encoded target, required count, item drop, source count) that name a target and
/// require a nonzero count, each with its slot and its text.
pub open spec fn kept_targets(body: Seq<u8>, base: int, texts: Seq<Seq<u8>>, k: int) -> Seq<TargetModel>
    decreases k,
{
    if k <= 0 {
        Seq::empty()
    } else {
        let prev = kept_targets(body, base, texts, k - 1);
        let at = base + 16 * (k - 1);
        let (kind, entry) = target_kind_entry(u32_at(body, at));
        let required = u32_at(body, at + 4);
        if entry != 0 && required != 0 {
            prev.push((k - 1, kind, entry, required, u32_at(body, at + 8), texts[k - 1]))
        } else {
            prev
        }
    }
}

/// The item objectives among the first `k` of the six (item, count) pairs from `base` whose
/// item and count are both nonzero.
pub open spec fn kept_items(body: Seq<u8>, base: int, k: int) -> Seq<QuestItemObjective>
    decreases k,
{
    if k <= 0 {
        Seq::empty()
    } else {
        let prev = kept_items(body, base, k - 1);
        let item = u32_at(body, base + 8 * (k - 1));
        let required = u32_at(body, base + 8 * (k - 1) + 4);
        if item != 0 && required != 0 { prev.push(QuestItemObjective { item, required }) } else { prev }
    }
}

/// Whether a point of interest is usable: a real map and finite coordinates not both zero.
pub open spec fn poi_valid(map: u32, x: u32, y: u32) -> bool {
    map != u32::MAX && f32_bits_finite(x) && f32_bits_finite(y) && !(f32_bits_zero(x) && f32_bits_zero(y))
}

/// A quest definition as plain values: quest, title, point of interest (map, x, y),
/// targets, items.
pub type QuestDefinitionModel = (u32, Seq<u8>, Option<(u32, u32, u32)>, Seq<TargetModel>, Seq<QuestItemObjective>);

/// A quest query response: 65 four-byte fields (the quest first; the point of interest's
/// map, x and y at fields 61 to 63), five texts (title, objectives, details, area,
/// completion), four target records, six item pairs and four objective texts.
pub open spec fn quest_definition_of(body: Seq<u8>) -> Option<QuestDefinitionModel> {
    if body.len() < 260 {
        None
    } else {
        match leading_texts(body) {
            None => None,
            Some((title, o5)) => if o5 + 112 > body.len() {
                None
            } else {
                let map = u32_at(body, 244);
                let x = u32_at(body, 248);
                let y = u32_at(body, 252);
                Some((
                    u32_at(body, 0),
                    title,
                    if poi_valid(map, x, y) { Some((map, x, y)) } else { None },
                    kept_targets(body, o5, objective_texts(body, o5 + 112), 4),
                    kept_items(body, o5 + 64, 6),
                ))
            },
        }
    }
}

/// The title of a quest query response and the position after its five texts (title,
/// objectives, details, area, completion), which all must be readable.
pub open spec fn leading_texts(body: Seq<u8>) -> Option<(Seq<u8>, int)> {
    match text_at(body, 260) {
        None => None,
        Some((title, o1)) => match text_at(body, o1) {
            None => None,
            Some((_, o2)) => match text_at(body, o2) {
                None => None,
                Some((_, o3)) => match text_at(body, o3) {
                    None => None,
                    Some((_, o4)) => match text_at(body, o4) {
                        None => None,
                        Some((_, o5)) => Some((title, o5)),
                    },
                },
            },
        },
    }
}

/// Read the five leading texts of a quest query response: the title and the position after
/// the fifth text.
fn read_leading_texts(body: &[u8]) -> (r: Option<(String, usize)>)
    requires
        body@.len() >= 260,
    ensures
        match r {
            Some((title, o5)) => leading_texts(body@) == Some((encode_utf8(title@), o5 as int)) && o5 <= body@.len(),
            None => leading_texts(body@) is None,
        },
{
    let (title, o1) = match read_cstring(body, 260) {
        Some(p) => p,
        None => return None,
    };
    let o2 = match read_cstring(body, o1) {
        Some((_, n)) => n,
        None => return None,
    };
    let o3 = match read_cstring(body, o2) {
        Some((_, n)) => n,
        None => return None,
    };
    let o4 = match read_cstring(body, o3) {
        Some((_, n)) => n,
        None => return None,
    };
    let o5 = match read_cstring(body, o4) {
        Some((_, n)) => n,
        None => return None,
    };
    Some((title, o5))
}

/// Whether a target objective holds the plain values of a model.
pub open spec fn target_matches(t: QuestTargetObjective, m: TargetModel) -> bool {
    t.slot == m.0 && t.kind == m.1 && t.entry == m.2 && t.required == m.3 && t.item_drop == m.4
        && encode_utf8(t.text@) == m.5
}

/// Whether a quest definition holds the plain values of a model.
pub open spec fn definition_matches(d: QuestDefinition, m: QuestDefinitionModel) -> bool {
    &&& d.quest == m.0
    &&& encode_utf8(d.title@) == m.1
    &&& d.poi_map == (match m.2 { Some(p) => Some(p.0), None => None::<u32> })
    &&& d.poi_x == (match m.2 { Some(p) => Some(p.1), None => None::<u32> })
    &&& d.poi_y == (match m.2 { Some(p) => Some(p.2), None => None::<u32> })
    &&& d.targets@.len() == m.3.len()
    &&& forall|i: int| 0 <= i < m.3.len() ==> target_matches(#[trigger] d.targets@[i], m.3[i])
    &&& d.items@ == m.4
}

/// Read the text at `at`, or the empty text where none can be read.
fn read_text_or_empty(body: &[u8], at: usize) -> (r: (String, usize))
    ensures
        (encode_utf8(r.0@), r.1 as int) == text_or_empty(body@, at as int),
        at <= r.1,
        at <= body@.len() ==> r.1 <= body@.len(),
{
    match read_cstring(body, at) {
        Some((s, next)) => (s, next),
        None => {
            let s = String::new();
            assert(encode_utf8(s@) =~= Seq::<u8>::empty());
            (s, at)
        },
    }
}

/// Read the four objective texts from `at`.
#[verifier::rlimit(40)]
fn read_objective_texts(body: &[u8], at: usize) -> (r: Vec<String>)
    requires
        at <= body@.len(),
    ensures
        r@.map_values(|t: String| encode_utf8(t@)) == objective_texts(body@, at as int),
        r@.len() == 4,
{
    let (t0, p1) = read_text_or_empty(body, at);
    let (t1, p2) = read_text_or_empty(body, p1);
    let (t2, p3) = read_text_or_empty(body, p2);
    let (t3, _) = read_text_or_empty(body, p3);
    let mut texts: Vec<String> = Vec::new();
    texts.push(t0);
    texts.push(t1);
    texts.push(t2);
    texts.push(t3);
    assert(texts@.map_values(|t: String| encode_utf8(t@)) =~= objective_texts(body@, at as int));
    texts
}

/// Read the four target records from `base`, keeping those that name a target.
fn read_targets(body: &[u8], base: usize, texts: &Vec<String>) -> (r: Vec<QuestTargetObjective>)
    requires
        base + 64 <= body.len(),
        texts@.len() == 4,
    ensures
        r@.len() == kept_targets(body@, base as int, texts@.map_values(|t: String| encode_utf8(t@)), 4).len(),
        forall|j: int| 0 <= j < r@.len() ==> target_matches(#[trigger] r@[j], kept_targets(body@, base as int, texts@.map_values(|t: String| encode_utf8(t@)), 4)[j]),
{
    let ghost tm = texts@.map_values(|t: String| encode_utf8(t@));
    let mut targets: Vec<QuestTargetObjective> = Vec::new();
    let mut i: usize = 0;
    while i < 4
        invariant
            i <= 4,
            base + 64 <= body.len(),
            texts@.len() == 4,
            tm == texts@.map_values(|t: String| encode_utf8(t@)),
            targets@.len() == kept_targets(body@, base as int, tm, i as int).len(),
            forall|j: int| 0 <= j < targets@.len() ==> target_matches(#[trigger] targets@[j], kept_targets(body@, base as int, tm, i as int)[j]),
        decreases 4 - i,
    {
        let at = base + 16 * i;
        let encoded = read_u32_at(body, at).unwrap();
        let required = read_u32_at(body, at + 4).unwrap();
        let item_drop = read_u32_at(body, at + 8).unwrap();
        let (kind, entry) = if encoded & 0x8000_0000u32 != 0 {
            (QuestTargetKind::GameObject, encoded & 0x7FFF_FFFFu32)
        } else {
            (QuestTargetKind::Creature, encoded)
        };
        if entry != 0 && required != 0 {
            let text = texts[i].clone();
            assert(tm[i as int] == encode_utf8(texts@[i as int]@));
            targets.push(QuestTargetObjective { slot: i, kind, entry, required, item_drop, text });
        }
        i = i + 1;
    }
    targets
}

/// Read the six item pairs from `base`, keeping those with an item and a count.
fn read_items(body: &[u8], base: usize) -> (r: Vec<QuestItemObjective>)
    requires
        base + 48 <= body.len(),
    ensures
        r@ == kept_items(body@, base as int, 6),
{
    let mut items: Vec<QuestItemObjective> = Vec::new();
    let mut j: usize = 0;
    while j < 6
        invariant
            j <= 6,
            base + 48 <= body.len(),
            items@ == kept_items(body@, base as int, j as int),
        decreases 6 - j,
    {
        let at = base + 8 * j;
        let item = read_u32_at(body, at).unwrap();
        let required = read_u32_at(body, at + 4).unwrap();
        if item != 0 && required != 0 {
            items.push(QuestItemObjective { item, required });
        }
        j = j + 1;
    }
    items
}

/// Read a quest query response as a quest definition; `None` where it is cut short or a
/// leading text is not UTF-8.
pub fn parse_quest_query_response(body: &[u8]) -> (r: Option<ProtocolObservation>)
    ensures
        match (r, quest_definition_of(body@)) {
            (Some(ProtocolObservation::QuestDefinition { definition }), Some(m)) => definition_matches(definition, m),
            (None, None) => true,
            _ => false,
        },
{
    if body.len() < 260 {
        return None;
    }
    let quest = read_u32_at(body, 0).unwrap();
    let poi_map = read_u32_at(body, 244).unwrap();
    let poi_x = read_u32_at(body, 248).unwrap();
    let poi_y = read_u32_at(body, 252).unwrap();
    let (title, o5) = match read_leading_texts(body) {
        Some(p) => p,
        None => return None,
    };
    if body.len() - o5 < 112 {
        return None;
    }
    let texts = read_objective_texts(body, o5 + 112);
    let targets = read_targets(body, o5, &texts);
    let items = read_items(body, o5 + 64);
    let valid = poi_map != 0xFFFF_FFFFu32 && is_finite_bits(poi_x) && is_finite_bits(poi_y)
        && !(poi_x & 0x7FFF_FFFFu32 == 0 && poi_y & 0x7FFF_FFFFu32 == 0);
    let definition = QuestDefinition {
        quest,
        title,
        poi_map: if valid { Some(poi_map) } else { None },
        poi_x: if valid { Some(poi_x) } else { None },
        poi_y: if valid { Some(poi_y) } else { None },
        targets,
        items,
    };
    Some(ProtocolObservation::QuestDefinition { definition })
}

/// Read the questgiver and quest packets. The quest-complete notice gives nothing: only the
/// quest journal confirms that a quest left it.
pub fn quest_observations(opcode: u32, body: &[u8]) -> (r: Vec<ProtocolObservation>)
    ensures
        opcode == SMSG_QUESTGIVER_STATUS ==> r@ == option_seq(quest_status_at(body@, 0)),
        opcode == SMSG_QUESTGIVER_STATUS_MULTIPLE ==> r@ == quest_statuses_of(body@),
        opcode == SMSG_QUESTGIVER_QUEST_LIST ==> r@ == quest_list_obs(body@),
        opcode == SMSG_QUESTGIVER_REQUEST_ITEMS ==> r@ == option_seq(request_items_obs(body@)),
        opcode == SMSG_QUESTGIVER_OFFER_REWARD ==> r@ == option_seq(offer_reward_obs(body@)),
        opcode == SMSG_QUEST_QUERY_RESPONSE ==> match quest_definition_of(body@) {
            None => r@.len() == 0,
            Some(m) => r@.len() == 1 && (r@[0] matches ProtocolObservation::QuestDefinition { definition }
                && definition_matches(definition, m)),
        },
        !(opcode == SMSG_QUESTGIVER_STATUS || opcode == SMSG_QUESTGIVER_STATUS_MULTIPLE
            || opcode == SMSG_QUESTGIVER_QUEST_LIST || opcode == SMSG_QUESTGIVER_REQUEST_ITEMS
            || opcode == SMSG_QUESTGIVER_OFFER_REWARD || opcode == SMSG_QUEST_QUERY_RESPONSE) ==> r@.len() == 0,
{
    let mut out: Vec<ProtocolObservation> = Vec::new();
    if opcode == SMSG_QUESTGIVER_STATUS {
        push_some(&mut out, parse_single_quest_status(body));
    } else if opcode == SMSG_QUESTGIVER_STATUS_MULTIPLE {
        return parse_multiple_quest_status(body);
    } else if opcode == SMSG_QUESTGIVER_QUEST_LIST {
        return parse_quest_list(body);
    } else if opcode == SMSG_QUESTGIVER_REQUEST_ITEMS {
        push_some(&mut out, parse_quest_request_items(body));
    } else if opcode == SMSG_QUESTGIVER_OFFER_REWARD {
        push_some(&mut out, parse_quest_offer_reward(body));
    } else if opcode == SMSG_QUEST_QUERY_RESPONSE {
        push_some(&mut out, parse_quest_query_response(body));
    }
    out
}

/// A corpse query answer reads the corpse's place from fixed offsets of the body: where a
/// corpse is reported, its map is the 32-bit value at byte 1 and its x, y and z are the
/// single-precision numbers at bytes 5, 9 and 13, with no facing; a first byte of 0 reports
/// that there is no corpse.
pub proof fn law_corpse_place_is_read_from_the_body(body: Seq<u8>)
    ensures
        corpse_query_obs(body) matches Some(ProtocolObservation::CorpseLocation { position: Some(p) }) ==> {
            &&& body.len() >= 17
            &&& body[0] != 0
            &&& p.map == u32_at(body, 1)
            &&& p.point.x == u32_at(body, 5)
            &&& p.point.y == u32_at(body, 9)
            &&& p.point.z == u32_at(body, 13)
            &&& p.orientation == 0
        },
        body.len() > 0 && body[0] == 0 ==> corpse_query_obs(body) == Some(ProtocolObservation::CorpseLocation { position: None }),
        body.len() >= 17 && body[0] != 0 && f32_bits_finite(u32_at(body, 5)) && f32_bits_finite(u32_at(body, 9))
            && f32_bits_finite(u32_at(body, 13)) ==> corpse_query_obs(body) is Some,
{
}

} // verus!
