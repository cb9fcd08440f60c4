//! Encoding of gameplay commands into client packets, and the small client and server packet
//! shapes that the runtime reads around them (cast failures, loot, simple movement).
use vstd::prelude::*;
use crate::bytes::{
    packed_guid_at, packed_guid_bytes, push_packed_guid, push_u16, push_u32, push_u64,
    read_packed_guid, read_u16_at, read_u32_at, read_u64_at, u16_at, u16_bytes, u32_at,
    u32_bytes, u64_at, u64_bytes, law_packed_guid_roundtrip, lemma_u16_roundtrip,
    lemma_u32_roundtrip, lemma_u64_roundtrip,
};
use crate::domain::{GameplayCommand, Vec3, WorldPosition, f32_bits_finite, is_finite_bits};
use crate::ids::EntityId;
use crate::proxy::framing::{ClientFrame, ServerFrame};

verus! {

pub const CMSG_USE_ITEM: u32 = 0x00AB;
pub const CMSG_GAMEOBJ_USE: u32 = 0x00B1;
pub const MSG_MOVE_STOP: u32 = 0x00B7;
pub const MSG_MOVE_SET_FACING: u32 = 0x00DA;
pub const MSG_MOVE_HEARTBEAT: u32 = 0x00EE;
pub const CMSG_CAST_SPELL: u32 = 0x012E;
pub const CMSG_ATTACKSWING: u32 = 0x0141;
pub const CMSG_REPOP_REQUEST: u32 = 0x015A;
pub const CMSG_LOOT: u32 = 0x015D;
pub const CMSG_QUESTGIVER_HELLO: u32 = 0x0184;
pub const CMSG_QUESTGIVER_ACCEPT_QUEST: u32 = 0x0189;
pub const CMSG_QUESTGIVER_COMPLETE_QUEST: u32 = 0x018A;
pub const CMSG_QUESTGIVER_REQUEST_REWARD: u32 = 0x018C;
pub const CMSG_QUESTGIVER_CHOOSE_REWARD: u32 = 0x018E;
pub const CMSG_RECLAIM_CORPSE: u32 = 0x01D2;
pub const MSG_CORPSE_QUERY: u32 = 0x0216;
pub const CMSG_QUESTGIVER_STATUS_MULTIPLE_QUERY: u32 = 0x0417;
pub const CMSG_QUEST_QUERY: u32 = 0x005C;
pub const SMSG_MESSAGECHAT: u16 = 0x0096;

/// Spell target flag naming a unit.
pub const TARGET_FLAG_UNIT: u32 = 0x0000_0002;
/// Spell target flag naming a game object.
pub const TARGET_FLAG_GAMEOBJECT: u32 = 0x0000_0800;
/// Movement flag of forward motion.
pub const MOVEFLAG_FORWARD: u32 = 0x0000_0001;

// ----- cast results and loot -----

/// The fields of a cast-failed packet: cast count, spell and reason.
pub open spec fn cast_failed_fields(body: Seq<u8>) -> Option<(u8, u32, u8)> {
    if body.len() < 6 {
        None
    } else {
        Some((body[0], u32_at(body, 1), body[5]))
    }
}

/// Read a cast-failed packet: `cast_count:u8, spell:u32, reason:u8`.
pub fn parse_cast_failed(body: &[u8]) -> (r: Option<(u8, u32, u8)>)
    ensures
        r == cast_failed_fields(body@),
{
    if body.len() < 6 {
        return None;
    }
    let spell = read_u32_at(body, 1);
    match spell {
        Some(spell) => Some((body[0], spell, body[5])),
        None => None,
    }
}

/// Milliseconds for which a bot cast can still be blamed for a cast failure.
pub const BOT_CAST_ATTRIBUTION_MS: u64 = 5000;

/// Read a cast failure and attribute it to the last bot cast where that cast is of the same
/// spell and at most five seconds old; the pending cast is consumed either way.
pub fn take_bot_cast_failure(
    body: &[u8],
    last_bot_cast: &mut Option<(u32, Option<EntityId>, u64)>,
    now_ms: u64,
) -> (r: Option<(u8, u32, u8, Option<EntityId>)>)
    ensures
        match cast_failed_fields(body@) {
            None => r is None && *final(last_bot_cast) == *old(last_bot_cast),
            Some((count, spell, reason)) => {
                &&& *final(last_bot_cast) is None
                &&& r == Some((count, spell, reason, match *old(last_bot_cast) {
                    Some((pending, target, at)) => if pending == spell && (now_ms as int) - (at as int) < 5000 {
                        target
                    } else {
                        None
                    },
                    None => None,
                }))
            },
        },
{
    let parsed = parse_cast_failed(body);
    match parsed {
        None => None,
        Some((count, spell, reason)) => {
            let pending = last_bot_cast.take();
            let target = match pending {
                Some((pending_spell, target, at)) => {
                    let recent = if now_ms >= at {
                        now_ms - at < BOT_CAST_ATTRIBUTION_MS
                    } else {
                        true
                    };
                    if pending_spell == spell && recent {
                        target
                    } else {
                        None
                    }
                },
                None => None,
            };
            Some((count, spell, reason, target))
        },
    }
}

/// Size of one item record in a loot response.
pub const LOOT_ITEM_RECORD_LEN: usize = 22;

/// Whether `count` complete item records start at byte 14 of a loot response.
pub open spec fn loot_records_fit(body: Seq<u8>, count: int) -> bool {
    14 + 22 * count <= body.len()
}

/// The slot bytes of the first `k` loot item records.
pub open spec fn loot_slots(body: Seq<u8>, k: int) -> Seq<u8> {
    Seq::new(k as nat, |i: int| body[14 + 22 * i])
}

/// Read a loot response: `guid:u64, loot_type:u8, gold:u32, item_count:u8` and then
/// `item_count` records of 22 bytes, each beginning with its slot. Gives the guid, the gold
/// and the slots, or `None` where the body is cut short.
pub fn parse_loot_response(body: &[u8]) -> (r: Option<(u64, u32, Vec<u8>)>)
    ensures
        match r {
            Some((guid, gold, slots)) => body@.len() >= 14
                && loot_records_fit(body@, body@[13] as int)
                && guid == u64_at(body@, 0) && gold == u32_at(body@, 9)
                && slots@ == loot_slots(body@, body@[13] as int),
            None => body@.len() < 14 || !loot_records_fit(body@, body@[13] as int),
        },
{
    if body.len() < 14 {
        return None;
    }
    let guid = match read_u64_at(body, 0) {
        Some(g) => g,
        None => return None,
    };
    let gold = match read_u32_at(body, 9) {
        Some(g) => g,
        None => return None,
    };
    let count = body[13] as usize;
    let mut cursor: usize = 14;
    let mut slots: Vec<u8> = Vec::new();
    let mut i: usize = 0;
    while i < count
        invariant
            i <= count,
            count == body@[13] as int,
            body@.len() >= 14,
            cursor == 14 + 22 * i,
            cursor <= body@.len(),
            slots@ == loot_slots(body@, i as int),
        decreases count - i,
    {
        if body.len() - cursor < LOOT_ITEM_RECORD_LEN {
            return None;
        }
        slots.push(body[cursor]);
        assert(slots@ =~= loot_slots(body@, i + 1));
        cursor = cursor + LOOT_ITEM_RECORD_LEN;
        i = i + 1;
    }
    Some((guid, gold, slots))
}

// ----- client packet bodies -----

/// Bytes of a full (unpacked) GUID.
pub open spec fn raw_guid_bytes(guid: EntityId) -> Seq<u8> {
    u64_bytes(guid.0)
}

/// Body of a cast request: cast count 0, the spell, cast flags 0, then either the target flag
/// and the packed target or an empty target mask.
pub open spec fn cast_spell_bytes(spell: u32, target: Option<EntityId>, target_flag: u32) -> Seq<u8> {
    seq![0u8] + u32_bytes(spell) + seq![0u8] + match target {
        Some(t) => u32_bytes(target_flag) + packed_guid_bytes(t.0),
        None => u32_bytes(0),
    }
}

/// Body of a questgiver request: the giver's GUID, the quest and an optional trailing value.
pub open spec fn questgiver_request_bytes(giver: EntityId, quest: u32, trailing: Option<u32>) -> Seq<u8> {
    raw_guid_bytes(giver) + u32_bytes(quest) + match trailing {
        Some(v) => u32_bytes(v),
        None => Seq::empty(),
    }
}

/// Body of a use-item request from the backpack.
pub open spec fn use_item_bytes(
    item_guid: EntityId,
    backpack_slot: u8,
    spell: u32,
    target: Option<EntityId>,
    cast_count: u8,
) -> Seq<u8> {
    seq![0xffu8, backpack_slot, cast_count] + u32_bytes(spell) + raw_guid_bytes(item_guid)
        + u32_bytes(0) + seq![0u8] + match target {
        Some(t) => u32_bytes(TARGET_FLAG_UNIT) + packed_guid_bytes(t.0),
        None => u32_bytes(0),
    }
}

/// Body of a simple movement packet: packed GUID, flags, no extra flags, time, position,
/// orientation and fall time 0.
pub open spec fn simple_movement_bytes(guid: EntityId, flags: u32, time: u32, point: Vec3, orientation: u32) -> Seq<u8> {
    packed_guid_bytes(guid.0) + u32_bytes(flags) + u16_bytes(0) + u32_bytes(time) + u32_bytes(point.x)
        + u32_bytes(point.y) + u32_bytes(point.z) + u32_bytes(orientation) + u32_bytes(0)
}

/// The eight bytes of a full GUID.
pub fn raw_guid_body(guid: EntityId) -> (r: Vec<u8>)
    ensures
        r@ == raw_guid_bytes(guid),
{
    let mut body: Vec<u8> = Vec::new();
    append_raw_guid(&mut body, guid);
    assert(body@ =~= raw_guid_bytes(guid));
    body
}

/// Append the eight bytes of a full GUID.
pub fn append_raw_guid(body: &mut Vec<u8>, guid: EntityId)
    ensures
        final(body)@ == old(body)@ + raw_guid_bytes(guid),
{
    push_u64(body, guid.0);
}

/// Encode a cast request.
pub fn encode_cast_spell(spell: u32, target: Option<EntityId>, target_flag: u32) -> (r: Vec<u8>)
    ensures
        r@ == cast_spell_bytes(spell, target, target_flag),
{
    let mut body: Vec<u8> = Vec::new();
    body.push(0u8);
    push_u32(&mut body, spell);
    body.push(0u8);
    match target {
        Some(t) => {
            push_u32(&mut body, target_flag);
            push_packed_guid(&mut body, t.0);
        },
        None => {
            push_u32(&mut body, 0);
        },
    }
    assert(body@ =~= cast_spell_bytes(spell, target, target_flag));
    body
}

/// Encode a questgiver request.
pub fn encode_questgiver_request(giver: EntityId, quest: u32, trailing_value: Option<u32>) -> (r: Vec<u8>)
    ensures
        r@ == questgiver_request_bytes(giver, quest, trailing_value),
{
    let mut body: Vec<u8> = Vec::new();
    append_raw_guid(&mut body, giver);
    push_u32(&mut body, quest);
    match trailing_value {
        Some(v) => push_u32(&mut body, v),
        None => {},
    }
    assert(body@ =~= questgiver_request_bytes(giver, quest, trailing_value));
    body
}

/// Encode a use-item request.
pub fn encode_use_item(
    item_guid: EntityId,
    backpack_slot: u8,
    spell: u32,
    target: Option<EntityId>,
    cast_count: u8,
) -> (r: Vec<u8>)
    ensures
        r@ == use_item_bytes(item_guid, backpack_slot, spell, target, cast_count),
{
    let mut body: Vec<u8> = Vec::new();
    body.push(0xffu8);
    body.push(backpack_slot);
    body.push(cast_count);
    push_u32(&mut body, spell);
    append_raw_guid(&mut body, item_guid);
    push_u32(&mut body, 0);
    body.push(0u8);
    match target {
        Some(t) => {
            push_u32(&mut body, TARGET_FLAG_UNIT);
            push_packed_guid(&mut body, t.0);
        },
        None => push_u32(&mut body, 0),
    }
    assert(body@ =~= use_item_bytes(item_guid, backpack_slot, spell, target, cast_count));
    body
}

/// Encode a simple movement packet.
pub fn encode_simple_movement(guid: EntityId, flags: u32, client_time: u32, point: Vec3, orientation: u32) -> (r: Vec<u8>)
    ensures
        r@ == simple_movement_bytes(guid, flags, client_time, point, orientation),
{
    let mut body: Vec<u8> = Vec::new();
    push_packed_guid(&mut body, guid.0);
    push_u32(&mut body, flags);
    push_u16(&mut body, 0);
    push_u32(&mut body, client_time);
    push_u32(&mut body, point.x);
    push_u32(&mut body, point.y);
    push_u32(&mut body, point.z);
    push_u32(&mut body, orientation);
    push_u32(&mut body, 0);
    assert(body@ =~= simple_movement_bytes(guid, flags, client_time, point, orientation));
    body
}

/// The fields of a simple movement packet, where its position and orientation are finite.
pub open spec fn simple_movement_fields(body: Seq<u8>) -> Option<(EntityId, u32, u32, Vec3, u32)> {
    match packed_guid_at(body, 0) {
        None => None,
        Some((g, c)) => if c + 26 > body.len() {
            None
        } else {
            let point = Vec3 { x: u32_at(body, c + 10), y: u32_at(body, c + 14), z: u32_at(body, c + 18) };
            let o = u32_at(body, c + 22);
            if point.finite() && f32_bits_finite(o) {
                Some((EntityId(g), u32_at(body, c), u32_at(body, c + 6), point, o))
            } else {
                None
            }
        },
    }
}

/// Decode a simple movement packet; `None` where it is cut short or its position or
/// orientation is not finite.
pub fn decode_simple_movement(body: &[u8]) -> (r: Option<(EntityId, u32, u32, Vec3, u32)>)
    ensures
        r == simple_movement_fields(body@),
{
    let (g, c) = match read_packed_guid(body, 0) {
        Some(p) => p,
        None => return None,
    };
    if c > body.len() || body.len() - c < 26 {
        return None;
    }
    let flags = read_u32_at(body, c).unwrap();
    let _extra = read_u16_at(body, c + 4);
    let time = read_u32_at(body, c + 6).unwrap();
    let x = read_u32_at(body, c + 10).unwrap();
    let y = read_u32_at(body, c + 14).unwrap();
    let z = read_u32_at(body, c + 18).unwrap();
    let o = read_u32_at(body, c + 22).unwrap();
    let point = Vec3 { x, y, z };
    if !point.is_finite() || !is_finite_bits(o) {
        return None;
    }
    Some((EntityId(g), flags, time, point, o))
}

/// Decoding an encoded simple movement packet gives back what was encoded, where the
/// position and orientation are finite.
pub proof fn law_simple_movement_roundtrip(guid: EntityId, flags: u32, time: u32, point: Vec3, orientation: u32)
    requires
        point.finite(),
        f32_bits_finite(orientation),
    ensures
        simple_movement_fields(simple_movement_bytes(guid, flags, time, point, orientation))
            == Some((guid, flags, time, point, orientation)),
{
    let p = packed_guid_bytes(guid.0);
    let rest = u32_bytes(flags) + u16_bytes(0) + u32_bytes(time) + u32_bytes(point.x)
        + u32_bytes(point.y) + u32_bytes(point.z) + u32_bytes(orientation) + u32_bytes(0);
    let b = simple_movement_bytes(guid, flags, time, point, orientation);
    assert(b =~= p + rest);
    law_packed_guid_roundtrip(guid.0, rest);
    let c = p.len() as int;
    lemma_u32_roundtrip(flags);
    lemma_u32_roundtrip(time);
    lemma_u32_roundtrip(point.x);
    lemma_u32_roundtrip(point.y);
    lemma_u32_roundtrip(point.z);
    lemma_u32_roundtrip(orientation);
    assert(u32_at(b, c) == flags);
    assert(u32_at(b, c + 6) == time);
    assert(u32_at(b, c + 10) == point.x);
    assert(u32_at(b, c + 14) == point.y);
    assert(u32_at(b, c + 18) == point.z);
    assert(u32_at(b, c + 22) == orientation);
}

// ----- movement opcodes -----

/// The client movement opcodes.
pub open spec fn player_movement_opcode(opcode: u32) -> bool {
    ||| opcode == 0x0B5 || opcode == 0x0B6 || opcode == 0x0B7 || opcode == 0x0B8 || opcode == 0x0B9
    ||| opcode == 0x0BA || opcode == 0x0BB || opcode == 0x0BC || opcode == 0x0BD || opcode == 0x0BE
    ||| opcode == 0x0BF || opcode == 0x0C0 || opcode == 0x0C1 || opcode == 0x0C2 || opcode == 0x0C3
    ||| opcode == 0x0C5 || opcode == 0x0C9 || opcode == 0x0CA || opcode == 0x0CB || opcode == 0x0DA
    ||| opcode == 0x0DB || opcode == 0x0EE || opcode == 0x359 || opcode == 0x35A || opcode == 0x3A7
}

/// The movement opcodes that carry direct keyboard or mouse intent (starts and changes);
/// heartbeats, stops, landings and run/walk toggles are feedback.
pub open spec fn explicit_movement_intent(opcode: u32) -> bool {
    ||| opcode == 0x0B5 || opcode == 0x0B6 || opcode == 0x0B8 || opcode == 0x0B9 || opcode == 0x0BB
    ||| opcode == 0x0BC || opcode == 0x0BD || opcode == 0x0BF || opcode == 0x0C0 || opcode == 0x0CA
    ||| opcode == 0x0DA || opcode == 0x0DB || opcode == 0x359 || opcode == 0x3A7
}

/// Whether a client opcode is a player movement packet.
pub fn is_player_movement_opcode(opcode: u32) -> (r: bool)
    ensures
        r == player_movement_opcode(opcode),
{
    opcode == 0x0B5 || opcode == 0x0B6 || opcode == 0x0B7 || opcode == 0x0B8 || opcode == 0x0B9
        || opcode == 0x0BA || opcode == 0x0BB || opcode == 0x0BC || opcode == 0x0BD || opcode == 0x0BE
        || opcode == 0x0BF || opcode == 0x0C0 || opcode == 0x0C1 || opcode == 0x0C2 || opcode == 0x0C3
        || opcode == 0x0C5 || opcode == 0x0C9 || opcode == 0x0CA || opcode == 0x0CB || opcode == 0x0DA
        || opcode == 0x0DB || opcode == 0x0EE || opcode == 0x359 || opcode == 0x35A || opcode == 0x3A7
}

/// Whether a client movement opcode carries direct player intent.
pub fn is_explicit_player_movement_intent(opcode: u32) -> (r: bool)
    ensures
        r == explicit_movement_intent(opcode),
{
    opcode == 0x0B5 || opcode == 0x0B6 || opcode == 0x0B8 || opcode == 0x0B9 || opcode == 0x0BB
        || opcode == 0x0BC || opcode == 0x0BD || opcode == 0x0BF || opcode == 0x0C0 || opcode == 0x0CA
        || opcode == 0x0DA || opcode == 0x0DB || opcode == 0x359 || opcode == 0x3A7
}

/// Every opcode of explicit movement intent is a movement opcode, and heartbeats and stops
/// are not explicit intent.
pub proof fn law_explicit_intent_is_movement(opcode: u32)
    ensures
        explicit_movement_intent(opcode) ==> player_movement_opcode(opcode),
        !explicit_movement_intent(MSG_MOVE_HEARTBEAT),
        !explicit_movement_intent(MSG_MOVE_STOP),
{
}

// ----- gameplay commands -----

/// Which locomotion request failed.
#[derive(Clone, Copy, Debug, PartialEq, Eq, Structural)]
pub enum LocomotionRequest {
    Facing,
    Movement,
    StopMovement,
}

/// Why a gameplay command could not be encoded.
#[derive(Clone, Copy, Debug, PartialEq, Eq, Structural)]
pub enum CommandError {
    /// The player's GUID is not yet known.
    NoPlayerGuid(LocomotionRequest),
    /// The player's position is not yet known.
    NoPosition(LocomotionRequest),
    /// The requested facing is not a finite number.
    InvalidOrientation,
    /// The movement destination is not finite.
    InvalidDestination,
}

impl CommandError {
    /// The error as text.
    pub fn message(&self) -> (r: String)
        ensures
            r@ == (match *self {
                CommandError::NoPlayerGuid(LocomotionRequest::Facing) => "facing requested before player GUID is authoritative"@,
                CommandError::NoPlayerGuid(LocomotionRequest::Movement) => "movement requested before player GUID is authoritative"@,
                CommandError::NoPlayerGuid(LocomotionRequest::StopMovement) => "stop movement requested before player GUID is authoritative"@,
                CommandError::NoPosition(LocomotionRequest::Facing) => "facing requested before canonical position is known"@,
                CommandError::NoPosition(LocomotionRequest::Movement) => "movement requested before canonical position is known"@,
                CommandError::NoPosition(LocomotionRequest::StopMovement) => "stop movement requested before canonical position is known"@,
                CommandError::InvalidOrientation => "facing orientation is invalid"@,
                CommandError::InvalidDestination => "movement destination is invalid"@,
            }),
    {
        match self {
            CommandError::NoPlayerGuid(LocomotionRequest::Facing) => "facing requested before player GUID is authoritative".to_owned(),
            CommandError::NoPlayerGuid(LocomotionRequest::Movement) => "movement requested before player GUID is authoritative".to_owned(),
            CommandError::NoPlayerGuid(LocomotionRequest::StopMovement) => "stop movement requested before player GUID is authoritative".to_owned(),
            CommandError::NoPosition(LocomotionRequest::Facing) => "facing requested before canonical position is known".to_owned(),
            CommandError::NoPosition(LocomotionRequest::Movement) => "movement requested before canonical position is known".to_owned(),
            CommandError::NoPosition(LocomotionRequest::StopMovement) => "stop movement requested before canonical position is known".to_owned(),
            CommandError::InvalidOrientation => "facing orientation is invalid".to_owned(),
            CommandError::InvalidDestination => "movement destination is invalid".to_owned(),
        }
    }
}

/// The movement clock after a step: it wraps and never reads zero.
pub open spec fn advance_movement_time(time: u32, step: u32) -> u32 {
    let t = ((time as int + step as int) % 0x1_0000_0000) as u32;
    if t == 0 { 1 } else { t }
}

/// What the local view of the player becomes after a locomotion packet: position, whether it
/// is moving, its movement flags and the movement clock.
pub type LocomotionUpdate = (WorldPosition, bool, u32, u32);

/// The packet that a command encodes to (opcode and body) and the locomotion update it
/// implies, or why it cannot be encoded. `time` is the movement clock before the command;
/// `heading` is the orientation the command turns to, worked out by the caller (see
/// `encode_gameplay_command`).
pub open spec fn command_encoding(
    command: GameplayCommand,
    player_guid: Option<EntityId>,
    current: Option<WorldPosition>,
    base_flags: u32,
    time: u32,
    heading: u32,
) -> Result<(u32, Seq<u8>, Option<LocomotionUpdate>), CommandError> {
    match command {
        GameplayCommand::Raw { opcode, body } => Ok((opcode, body@, None)),
        GameplayCommand::QueryQuestGivers => Ok((CMSG_QUESTGIVER_STATUS_MULTIPLE_QUERY, Seq::empty(), None)),
        GameplayCommand::QueryQuest { quest } => Ok((CMSG_QUEST_QUERY, u32_bytes(quest), None)),
        GameplayCommand::Interact(e) => Ok((CMSG_QUESTGIVER_HELLO, raw_guid_bytes(e), None)),
        GameplayCommand::UseGameObject(e) => Ok((CMSG_GAMEOBJ_USE, raw_guid_bytes(e), None)),
        GameplayCommand::CastGameObject { spell, target, .. } =>
            Ok((CMSG_CAST_SPELL, cast_spell_bytes(spell, Some(target), TARGET_FLAG_GAMEOBJECT), None)),
        GameplayCommand::UseItemInstance { item_guid, backpack_slot, spell, target, cast_count, .. } =>
            Ok((CMSG_USE_ITEM, use_item_bytes(item_guid, backpack_slot, spell, target, cast_count), None)),
        GameplayCommand::Attack(e) => Ok((CMSG_ATTACKSWING, raw_guid_bytes(e), None)),
        GameplayCommand::Loot(e) => Ok((CMSG_LOOT, raw_guid_bytes(e), None)),
        GameplayCommand::AcceptQuest { quest, giver } =>
            Ok((CMSG_QUESTGIVER_ACCEPT_QUEST, questgiver_request_bytes(giver, quest, Some(0)), None)),
        GameplayCommand::TurnInQuest { quest, giver } =>
            Ok((CMSG_QUESTGIVER_COMPLETE_QUEST, questgiver_request_bytes(giver, quest, None), None)),
        GameplayCommand::RequestQuestReward { quest, giver } =>
            Ok((CMSG_QUESTGIVER_REQUEST_REWARD, questgiver_request_bytes(giver, quest, None), None)),
        GameplayCommand::ChooseQuestReward { quest, giver, reward } =>
            Ok((CMSG_QUESTGIVER_CHOOSE_REWARD, questgiver_request_bytes(giver, quest, Some(reward)), None)),
        GameplayCommand::MaintainBuff { spell, target } =>
            Ok((CMSG_CAST_SPELL, cast_spell_bytes(spell, Some(target), TARGET_FLAG_UNIT), None)),
        GameplayCommand::Cast { spell, target } =>
            Ok((CMSG_CAST_SPELL, cast_spell_bytes(spell, target, TARGET_FLAG_UNIT), None)),
        GameplayCommand::VehicleCast { spell, target } =>
            Ok((CMSG_CAST_SPELL, cast_spell_bytes(spell, target, TARGET_FLAG_UNIT), None)),
        GameplayCommand::FaceDirection { orientation } => match (player_guid, current) {
            (None, _) => Err(CommandError::NoPlayerGuid(LocomotionRequest::Facing)),
            (Some(_), None) => Err(CommandError::NoPosition(LocomotionRequest::Facing)),
            (Some(g), Some(p)) => if !f32_bits_finite(orientation) {
                Err(CommandError::InvalidOrientation)
            } else {
                let t = advance_movement_time(time, 1);
                let flags = base_flags & !MOVEFLAG_FORWARD;
                let pos = WorldPosition { orientation: heading, ..p };
                Ok((MSG_MOVE_SET_FACING, simple_movement_bytes(g, flags, t, pos.point, heading), Some((pos, false, flags, t))))
            },
        },
        GameplayCommand::ReleaseSpirit => Ok((CMSG_REPOP_REQUEST, seq![0u8], None)),
        GameplayCommand::QueryCorpse => Ok((MSG_CORPSE_QUERY, Seq::empty(), None)),
        GameplayCommand::ReclaimCorpse { player } => Ok((CMSG_RECLAIM_CORPSE, raw_guid_bytes(player), None)),
        GameplayCommand::MoveTo(dest) => match (player_guid, current) {
            (None, _) => Err(CommandError::NoPlayerGuid(LocomotionRequest::Movement)),
            (Some(_), None) => Err(CommandError::NoPosition(LocomotionRequest::Movement)),
            (Some(g), Some(p)) => if !dest.finite() {
                Err(CommandError::InvalidDestination)
            } else {
                let t = advance_movement_time(time, 250);
                let flags = base_flags | MOVEFLAG_FORWARD;
                let pos = WorldPosition { map: p.map, point: dest, orientation: heading };
                Ok((MSG_MOVE_HEARTBEAT, simple_movement_bytes(g, flags, t, dest, heading), Some((pos, true, flags, t))))
            },
        },
        GameplayCommand::StopMovement => match (player_guid, current) {
            (None, _) => Err(CommandError::NoPlayerGuid(LocomotionRequest::StopMovement)),
            (Some(_), None) => Err(CommandError::NoPosition(LocomotionRequest::StopMovement)),
            (Some(g), Some(p)) => {
                let t = advance_movement_time(time, 1);
                let flags = base_flags & !MOVEFLAG_FORWARD;
                Ok((MSG_MOVE_STOP, simple_movement_bytes(g, flags, t, p.point, p.orientation), Some((p, false, flags, t))))
            },
        },
    }
}

/// Step the movement clock.
fn advance_time(time: u32, step: u32) -> (r: u32)
    ensures
        r == advance_movement_time(time, step),
{
    let t = time.wrapping_add(step);
    if t == 0 { 1 } else { t }
}

/// Encode a gameplay command as a client packet. Locomotion commands (facing, moving and
/// stopping) need the player's GUID and position, step the movement clock in
/// `movement_time` (by 1 for facing and stopping, by 250 for a movement step, never to 0)
/// and give the locomotion update the caller should apply to its local view.
///
/// `heading` is the orientation, as f32 bits, that the command turns the character to:
/// for `FaceDirection` its orientation reduced into [0, 2π); for `MoveTo` the bearing from
/// the current point to the destination, or the current orientation where the two share
/// their x and y. Other commands ignore it. The result is always `Some` on success.
pub fn encode_gameplay_command(
    command: GameplayCommand,
    player_guid: Option<EntityId>,
    current: Option<WorldPosition>,
    base_movement_flags: u32,
    movement_time: &mut u32,
    heading: u32,
) -> (r: Result<Option<(ClientFrame, Option<LocomotionUpdate>)>, CommandError>)
    ensures
        match (r, command_encoding(command, player_guid, current, base_movement_flags, *old(movement_time), heading)) {
            (Ok(Some((frame, update))), Ok((opcode, body, expected))) => {
                &&& frame.opcode == opcode
                &&& frame.body@ == body
                &&& update == expected
                &&& *final(movement_time) == match expected {
                    Some((_, _, _, t)) => t,
                    None => *old(movement_time),
                }
            },
            (Err(e), Err(expected)) => e == expected && *final(movement_time) == *old(movement_time),
            _ => false,
        },
{
    match command {
        GameplayCommand::Raw { opcode, body } => Ok(Some((ClientFrame { opcode, body }, None))),
        GameplayCommand::QueryQuestGivers => Ok(Some((ClientFrame { opcode: CMSG_QUESTGIVER_STATUS_MULTIPLE_QUERY, body: Vec::new() }, None))),
        GameplayCommand::QueryQuest { quest } => {
            let mut body: Vec<u8> = Vec::new();
            push_u32(&mut body, quest);
            assert(body@ =~= u32_bytes(quest));
            Ok(Some((ClientFrame { opcode: CMSG_QUEST_QUERY, body }, None)))
        },
        GameplayCommand::Interact(e) => Ok(Some((ClientFrame { opcode: CMSG_QUESTGIVER_HELLO, body: raw_guid_body(e) }, None))),
        GameplayCommand::UseGameObject(e) => Ok(Some((ClientFrame { opcode: CMSG_GAMEOBJ_USE, body: raw_guid_body(e) }, None))),
        GameplayCommand::CastGameObject { spell, target, .. } => Ok(Some((
            ClientFrame { opcode: CMSG_CAST_SPELL, body: encode_cast_spell(spell, Some(target), TARGET_FLAG_GAMEOBJECT) },
            None,
        ))),
        GameplayCommand::UseItemInstance { item: _, item_guid, backpack_slot, spell, target, cast_count } => Ok(Some((
            ClientFrame { opcode: CMSG_USE_ITEM, body: encode_use_item(item_guid, backpack_slot, spell, target, cast_count) },
            None,
        ))),
        GameplayCommand::Attack(e) => Ok(Some((ClientFrame { opcode: CMSG_ATTACKSWING, body: raw_guid_body(e) }, None))),
        GameplayCommand::Loot(e) => Ok(Some((ClientFrame { opcode: CMSG_LOOT, body: raw_guid_body(e) }, None))),
        GameplayCommand::AcceptQuest { quest, giver } => Ok(Some((
            ClientFrame { opcode: CMSG_QUESTGIVER_ACCEPT_QUEST, body: encode_questgiver_request(giver, quest, Some(0)) },
            None,
        ))),
        GameplayCommand::TurnInQuest { quest, giver } => Ok(Some((
            ClientFrame { opcode: CMSG_QUESTGIVER_COMPLETE_QUEST, body: encode_questgiver_request(giver, quest, None) },
            None,
        ))),
        GameplayCommand::RequestQuestReward { quest, giver } => Ok(Some((
            ClientFrame { opcode: CMSG_QUESTGIVER_REQUEST_REWARD, body: encode_questgiver_request(giver, quest, None) },
            None,
        ))),
        GameplayCommand::ChooseQuestReward { quest, giver, reward } => Ok(Some((
            ClientFrame { opcode: CMSG_QUESTGIVER_CHOOSE_REWARD, body: encode_questgiver_request(giver, quest, Some(reward)) },
            None,
        ))),
        GameplayCommand::MaintainBuff { spell, target } => Ok(Some((
            ClientFrame { opcode: CMSG_CAST_SPELL, body: encode_cast_spell(spell, Some(target), TARGET_FLAG_UNIT) },
            None,
        ))),
        GameplayCommand::Cast { spell, target } => Ok(Some((
            ClientFrame { opcode: CMSG_CAST_SPELL, body: encode_cast_spell(spell, target, TARGET_FLAG_UNIT) },
            None,
        ))),
        GameplayCommand::VehicleCast { spell, target } => Ok(Some((
            ClientFrame { opcode: CMSG_CAST_SPELL, body: encode_cast_spell(spell, target, TARGET_FLAG_UNIT) },
            None,
        ))),
        GameplayCommand::FaceDirection { orientation } => {
            let guid = match player_guid {
                Some(g) => g,
                None => return Err(CommandError::NoPlayerGuid(LocomotionRequest::Facing)),
            };
            let position = match current {
                Some(p) => p,
                None => return Err(CommandError::NoPosition(LocomotionRequest::Facing)),
            };
            if !is_finite_bits(orientation) {
                return Err(CommandError::InvalidOrientation);
            }
            let position = WorldPosition { map: position.map, point: position.point, orientation: heading };
            *movement_time = advance_time(*movement_time, 1);
            let flags = base_movement_flags & !MOVEFLAG_FORWARD;
            let body = encode_simple_movement(guid, flags, *movement_time, position.point, heading);
            Ok(Some((ClientFrame { opcode: MSG_MOVE_SET_FACING, body }, Some((position, false, flags, *movement_time)))))
        },
        GameplayCommand::ReleaseSpirit => {
            let body: Vec<u8> = vec![0u8];
            assert(body@ =~= seq![0u8]);
            Ok(Some((ClientFrame { opcode: CMSG_REPOP_REQUEST, body }, None)))
        },
        GameplayCommand::QueryCorpse => Ok(Some((ClientFrame { opcode: MSG_CORPSE_QUERY, body: Vec::new() }, None))),
        GameplayCommand::ReclaimCorpse { player } => Ok(Some((ClientFrame { opcode: CMSG_RECLAIM_CORPSE, body: raw_guid_body(player) }, None))),
        GameplayCommand::MoveTo(destination) => {
            let guid = match player_guid {
                Some(g) => g,
                None => return Err(CommandError::NoPlayerGuid(LocomotionRequest::Movement)),
            };
            let position = match current {
                Some(p) => p,
                None => return Err(CommandError::NoPosition(LocomotionRequest::Movement)),
            };
            if !destination.is_finite() {
                return Err(CommandError::InvalidDestination);
            }
            let position = WorldPosition { map: position.map, point: destination, orientation: heading };
            *movement_time = advance_time(*movement_time, 250);
            let flags = base_movement_flags | MOVEFLAG_FORWARD;
            let body = encode_simple_movement(guid, flags, *movement_time, destination, heading);
            Ok(Some((ClientFrame { opcode: MSG_MOVE_HEARTBEAT, body }, Some((position, true, flags, *movement_time)))))
        },
        GameplayCommand::StopMovement => {
            let guid = match player_guid {
                Some(g) => g,
                None => return Err(CommandError::NoPlayerGuid(LocomotionRequest::StopMovement)),
            };
            let position = match current {
                Some(p) => p,
                None => return Err(CommandError::NoPosition(LocomotionRequest::StopMovement)),
            };
            *movement_time = advance_time(*movement_time, 1);
            let flags = base_movement_flags & !MOVEFLAG_FORWARD;
            let body = encode_simple_movement(guid, flags, *movement_time, position.point, position.orientation);
            Ok(Some((ClientFrame { opcode: MSG_MOVE_STOP, body }, Some((position, false, flags, *movement_time)))))
        },
    }
}

// ----- bot notices -----

/// Body of a system chat message carrying `text` (its UTF-8 bytes).
pub open spec fn bot_notice_bytes(text: Seq<u8>) -> Seq<u8> {
    seq![0u8] + u32_bytes(0) + u64_bytes(0) + u32_bytes(0) + u64_bytes(0)
        + u32_bytes(notice_length(text.len())) + text + seq![0u8, 0u8]
}

/// The length field of a notice: the text and its terminator, saturated at the 32-bit range.
pub open spec fn notice_length(n: nat) -> u32 {
    if n + 1 > u32::MAX { u32::MAX } else { (n + 1) as u32 }
}

/// The system chat frame that tells the player about the bot; `text` is the message's
/// UTF-8 bytes.
pub fn bot_notice_frame(text: &[u8]) -> (r: ServerFrame)
    ensures
        r.opcode == SMSG_MESSAGECHAT,
        r.body@ == bot_notice_bytes(text@),
{
    let mut body: Vec<u8> = Vec::new();
    body.push(0u8);
    push_u32(&mut body, 0);
    push_u64(&mut body, 0);
    push_u32(&mut body, 0);
    push_u64(&mut body, 0);
    let length: u32 = if text.len() >= 0xFFFF_FFFF { 0xFFFF_FFFFu32 } else { (text.len() + 1) as u32 };
    push_u32(&mut body, length);
    crate::bytes::extend_bytes(&mut body, text);
    body.push(0u8);
    body.push(0u8);
    assert(body@ =~= bot_notice_bytes(text@));
    ServerFrame { opcode: SMSG_MESSAGECHAT, body }
}

/// The quest-giver requests carry the giver's raw 64-bit GUID, then the quest, all little
/// endian; choosing a reward adds the requested reward index, accepting a quest adds a zero
/// word, and turning in or asking for the reward add nothing. Reading the body back gives the
/// command's own values, for every giver, quest and reward; the opcodes are accept 0x0189,
/// turn in 0x018A, request reward 0x018C and choose reward 0x018E.
pub proof fn law_questgiver_bodies_carry_the_command(
    quest: u32,
    giver: EntityId,
    reward: u32,
    player_guid: Option<EntityId>,
    current: Option<WorldPosition>,
    base_flags: u32,
    time: u32,
    heading: u32,
)
    ensures
        ({
            let r = command_encoding(GameplayCommand::ChooseQuestReward { quest, giver, reward }, player_guid, current, base_flags, time, heading);
            &&& r matches Ok((op, body, update)) && op == 0x018E && update is None && body.len() == 16
                && u64_at(body, 0) == giver.0 && u32_at(body, 8) == quest && u32_at(body, 12) == reward
        }),
        ({
            let r = command_encoding(GameplayCommand::AcceptQuest { quest, giver }, player_guid, current, base_flags, time, heading);
            &&& r matches Ok((op, body, update)) && op == 0x0189 && update is None && body.len() == 16
                && u64_at(body, 0) == giver.0 && u32_at(body, 8) == quest && u32_at(body, 12) == 0
        }),
        ({
            let r = command_encoding(GameplayCommand::TurnInQuest { quest, giver }, player_guid, current, base_flags, time, heading);
            &&& r matches Ok((op, body, update)) && op == 0x018A && update is None && body.len() == 12
                && u64_at(body, 0) == giver.0 && u32_at(body, 8) == quest
        }),
        ({
            let r = command_encoding(GameplayCommand::RequestQuestReward { quest, giver }, player_guid, current, base_flags, time, heading);
            &&& r matches Ok((op, body, update)) && op == 0x018C && update is None && body.len() == 12
                && u64_at(body, 0) == giver.0 && u32_at(body, 8) == quest
        }),
{
    lemma_u64_roundtrip(giver.0);
    lemma_u32_roundtrip(quest);
    lemma_u32_roundtrip(reward);
    lemma_u32_roundtrip(0);
    let a = questgiver_request_bytes(giver, quest, Some(0));
    assert(a.subrange(0, 8) =~= u64_bytes(giver.0));
    let b = questgiver_request_bytes(giver, quest, Some(reward));
    assert(b.subrange(0, 8) =~= u64_bytes(giver.0));
    let c = questgiver_request_bytes(giver, quest, None);
    assert(c.subrange(0, 8) =~= u64_bytes(giver.0));
}

} // verus!
