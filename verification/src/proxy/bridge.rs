//! Decisions of the player world bridge, which relays frames between the player's client
//! and the upstream world server while the bot acts on the same character: which client
//! movement is the player's own intent and which only echoes the bot, what bot commands
//! send and show, and how the bot takes its own loot. The caller reads and writes the
//! frames, and carries out what each step returns.
use vstd::prelude::*;
use crate::bytes::{push_u64, read_u32_at, read_u64_at, u32_at, u64_at, u64_bytes};
use crate::domain::{GameplayCommand, WorldPosition};
use crate::ids::EntityId;
use crate::proxy::framing::{ClientFrame, ServerFrame};
use crate::proxy::gameplay::{
    command_encoding, decode_simple_movement, encode_gameplay_command, explicit_movement_intent,
    is_explicit_player_movement_intent, is_player_movement_opcode, parse_loot_response, player_movement_opcode,
    simple_movement_fields, take_bot_cast_failure, cast_failed_fields, loot_records_fit, loot_slots, CommandError,
    CMSG_LOOT,
};
use crate::proxy::runtime::{bot_targeted_cast, gameplay_movement_context, targeted_cast_of};
use crate::adapter::packets::{login_verify_world, verify_world_obs};
use crate::state::inventory::LootOwnership;
use crate::state::observation::ProtocolObservation;

verus! {

/// The client's login of a character.
pub const CMSG_PLAYER_LOGIN: u32 = 0x003D;
/// The client's answer to a time synchronisation: counter and client time.
pub const CMSG_TIME_SYNC_RESP: u32 = 0x0391;
/// The client closes a loot window.
pub const CMSG_LOOT_RELEASE: u32 = 0x015F;
/// The client takes the money of a loot window.
pub const CMSG_LOOT_MONEY: u32 = 0x015E;
/// The client takes one loot slot.
pub const CMSG_AUTOSTORE_LOOT_ITEM: u32 = 0x0108;
/// The client reports the use of a game object.
pub const CMSG_GAMEOBJ_REPORT_USE: u32 = 0x0481;
/// A loot window's contents.
pub const SMSG_LOOT_RESPONSE: u16 = 0x0160;
/// A loot window closed.
pub const SMSG_LOOT_RELEASE_RESPONSE: u16 = 0x0161;
/// A loot slot was taken.
pub const SMSG_LOOT_REMOVED: u16 = 0x0162;
/// A loot window's money was taken.
pub const SMSG_LOOT_CLEAR_MONEY: u16 = 0x0163;
/// A cast failed.
pub const SMSG_CAST_FAILED: u16 = 0x0130;
/// The character entered the world.
pub const SMSG_LOGIN_VERIFY_WORLD: u16 = 0x0236;
/// How long after a bot movement the client's movement packets may only echo it.
pub const BOT_ECHO_WINDOW_MS: u64 = 1250;

/// What the bridge knows of the character: its GUID, its position and movement flags as the
/// player's client and the bot moved it, the unit it controls, the movement clock, the
/// bot's last visual movement (position, opcode, time), the corpse or object the bot is
/// looting, and the bot's last targeted cast (spell, target, time).
#[derive(Clone, Copy, Debug)]
pub struct WorldBridge {
    pub player_guid: Option<EntityId>,
    pub canonical_position: Option<WorldPosition>,
    pub canonical_flags: u32,
    pub controlled_mover: Option<EntityId>,
    pub controlled_position: Option<WorldPosition>,
    pub controlled_flags: u32,
    pub movement_time: u32,
    pub last_bot_visual: Option<(WorldPosition, u32, u64)>,
    pub bot_loot_target: Option<EntityId>,
    pub last_bot_cast: Option<(u32, Option<EntityId>, u64)>,
}

/// A bridge that knows nothing yet.
pub open spec fn fresh_bridge() -> WorldBridge {
    WorldBridge {
        player_guid: None,
        canonical_position: None,
        canonical_flags: 0,
        controlled_mover: None,
        controlled_position: None,
        controlled_flags: 0,
        movement_time: 0,
        last_bot_visual: None,
        bot_loot_target: None,
        last_bot_cast: None,
    }
}

/// What to do with a frame from the player's client.
#[derive(Debug)]
pub struct ClientFrameOutcome {
    /// Whether the frame goes on upstream.
    pub forward: bool,
    /// The character the client logged in with.
    pub player_login: Option<EntityId>,
    /// Whether the player took locomotion from the bot with this frame.
    pub player_movement: bool,
    /// What the frame tells the session.
    pub observation: Option<ProtocolObservation>,
}

/// Whether the bot moved the character within the echo window before `now`.
pub open spec fn bot_locomotion_recent(b: WorldBridge, now: u64) -> bool {
    b.last_bot_visual matches Some((_, _, at)) && (now as int) - (at as int) < BOT_ECHO_WINDOW_MS
}

/// A movement of the player's own character to a decoded position: it moves the known
/// position (where one is known) and the movement clock, and is reported.
pub open spec fn player_position_update(b: WorldBridge, decoded: Option<(EntityId, u32, u32, crate::domain::Vec3, u32)>) -> (WorldBridge, Option<ProtocolObservation>) {
    match decoded {
        Some((g, flags, t, point, orientation)) =>
            if (b.player_guid is None || b.player_guid == Some(g)) && b.canonical_position is Some {
                let p = WorldPosition { point, orientation, ..b.canonical_position->0 };
                (
                    WorldBridge { canonical_position: Some(p), canonical_flags: flags, movement_time: t, ..b },
                    Some(ProtocolObservation::PlayerPosition { position: p, moving: flags != 0, flags, client_time: t }),
                )
            } else {
                (b, None)
            },
        None => (b, None),
    }
}

/// A frame from the player's client, given whether its movement (if it is one) matches the
/// bot's last visual movement: a time synchronisation sets the movement clock; a login
/// names the character. A movement that echoes the bot's recent movement, or passive
/// movement feedback while the bot moves, is held back; explicit movement intent takes
/// locomotion from the bot; movement that goes on moves the character. A loot request of
/// the player supersedes the bot's pending loot of that target; loot requests and releases
/// are reported as the player's.
pub open spec fn client_frame_spec(b: WorldBridge, opcode: u32, body: Seq<u8>, now: u64, echo_matches: bool) -> (WorldBridge, ClientFrameOutcome) {
    let b1 = if opcode == CMSG_TIME_SYNC_RESP && body.len() >= 8 { WorldBridge { movement_time: u32_at(body, 4), ..b } } else { b };
    let login = if opcode == CMSG_PLAYER_LOGIN && body.len() >= 8 { Some(EntityId(u64_at(body, 0))) } else { None };
    let b2 = match login {
        Some(g) => WorldBridge { player_guid: Some(g), ..b1 },
        None => b1,
    };
    if player_movement_opcode(opcode) {
        let decoded = simple_movement_fields(body);
        let recent = bot_locomotion_recent(b2, now);
        let echo = recent && decoded is Some && echo_matches;
        let explicit = explicit_movement_intent(opcode);
        let intent = !echo && explicit;
        let suppress = echo || (!explicit && recent);
        let b3 = if intent { WorldBridge { last_bot_visual: None, ..b2 } } else { b2 };
        let (b4, obs) = if suppress { (b3, None) } else { player_position_update(b3, decoded) };
        (b4, ClientFrameOutcome { forward: !suppress, player_login: login, player_movement: intent, observation: obs })
    } else if opcode == CMSG_LOOT && body.len() >= 8 {
        let g = EntityId(u64_at(body, 0));
        let b3 = if b2.bot_loot_target == Some(g) { WorldBridge { bot_loot_target: None, ..b2 } } else { b2 };
        (b3, ClientFrameOutcome {
            forward: true,
            player_login: login,
            player_movement: false,
            observation: Some(ProtocolObservation::LootOpened { target: g, ownership: LootOwnership::Player }),
        })
    } else if opcode == CMSG_LOOT_RELEASE {
        (b2, ClientFrameOutcome {
            forward: true,
            player_login: login,
            player_movement: false,
            observation: Some(ProtocolObservation::LootClosed { ownership: LootOwnership::Player }),
        })
    } else {
        (b2, ClientFrameOutcome { forward: true, player_login: login, player_movement: false, observation: None })
    }
}

/// What a bot command sends and shows.
#[derive(Debug)]
pub struct BotCommandOutcome {
    /// The frames to send upstream, in order.
    pub upstream: Vec<ClientFrame>,
    /// The movement to show the player's client, where the command moved the character.
    pub downstream: Option<ServerFrame>,
    /// What the command tells the session of the character's movement.
    pub observation: Option<ProtocolObservation>,
    /// Why the command could not be encoded.
    pub error: Option<CommandError>,
}

/// The bridge after noting a bot command: a loot command names the bot's loot target, and a
/// targeted cast is remembered with its time.
pub open spec fn noted_command(b: WorldBridge, command: GameplayCommand, now: u64) -> WorldBridge {
    let b1 = match command {
        GameplayCommand::Loot(t) => WorldBridge { bot_loot_target: Some(t), ..b },
        _ => b,
    };
    match targeted_cast_of(command) {
        Some((spell, target)) => WorldBridge { last_bot_cast: Some((spell, target, now)), ..b1 },
        None => b1,
    }
}

/// The game object whose use a command asks to report.
pub open spec fn report_use_target(command: GameplayCommand) -> Option<EntityId> {
    match command {
        GameplayCommand::CastGameObject { target, report_use, .. } => if report_use { Some(target) } else { None },
        _ => None,
    }
}

/// The unit a bot command moves: the controlled unit, else the character.
pub open spec fn command_mover(b: WorldBridge) -> Option<EntityId> {
    if b.controlled_mover is Some { b.controlled_mover } else { b.player_guid }
}

/// The position a bot command moves from: the controlled unit's, else the character's.
pub open spec fn command_position(b: WorldBridge) -> Option<WorldPosition> {
    if b.controlled_position is Some { b.controlled_position } else { b.canonical_position }
}

/// The movement flags a bot command keeps: the controlled unit's, else the character's.
pub open spec fn command_flags(b: WorldBridge) -> u32 {
    if b.controlled_mover is Some { b.controlled_flags } else { b.canonical_flags }
}

/// The encoding of a bot command in the bridge's movement context.
pub open spec fn bridge_encoding(b: WorldBridge, command: GameplayCommand, heading: u32) -> Result<(u32, Seq<u8>, Option<crate::proxy::gameplay::LocomotionUpdate>), CommandError> {
    command_encoding(command, command_mover(b), command_position(b), command_flags(b), b.movement_time, heading)
}

/// The bridge after a bot command: where the command moved the character (or the
/// controlled unit), the new position, the movement clock and the bot's visual movement.
pub open spec fn bot_command_state(b: WorldBridge, command: GameplayCommand, now: u64, heading: u32) -> WorldBridge {
    let b1 = noted_command(b, command, now);
    match bridge_encoding(b1, command, heading) {
        Ok((opcode, _, Some((pos, _, _, t)))) => {
            let b2 = WorldBridge { movement_time: t, last_bot_visual: Some((pos, opcode, now)), ..b1 };
            if b1.controlled_mover is Some {
                WorldBridge { controlled_position: Some(pos), ..b2 }
            } else {
                WorldBridge { canonical_position: Some(pos), ..b2 }
            }
        },
        _ => b1,
    }
}

/// Whether an outcome is what a bot command sends and shows: the encoded frame, then the
/// report of a game object's use where asked; for a movement, its observation (of the
/// controlled unit where there is one, else of the character) and the same frame shown to
/// the player's client; the error where the command cannot be encoded.
pub open spec fn bot_command_reported(b: WorldBridge, command: GameplayCommand, now: u64, heading: u32, r: BotCommandOutcome) -> bool {
    let b1 = noted_command(b, command, now);
    match bridge_encoding(b1, command, heading) {
        Err(e) => r.error == Some(e) && r.upstream@.len() == 0 && r.downstream is None && r.observation is None,
        Ok((opcode, body, expected)) => {
            &&& r.error is None
            &&& r.upstream@.len() == (if report_use_target(command) is Some { 2int } else { 1int })
            &&& r.upstream@[0].opcode == opcode
            &&& r.upstream@[0].body@ == body
            &&& (report_use_target(command) matches Some(t) ==> r.upstream@[1].opcode == CMSG_GAMEOBJ_REPORT_USE
                && r.upstream@[1].body@ == u64_bytes(t.0))
            &&& match expected {
                None => r.observation is None && r.downstream is None,
                Some((pos, moving, flags, t)) => {
                    &&& r.observation == Some(if b1.controlled_mover is Some {
                        ProtocolObservation::ControlledMover { mover: b1.controlled_mover, position: Some(pos), flags }
                    } else {
                        ProtocolObservation::PlayerPosition { position: pos, moving, flags, client_time: t }
                    })
                    &&& if opcode < 0x10000 {
                        r.downstream matches Some(f) && f.opcode == opcode && f.body@ == body
                    } else {
                        r.downstream is None
                    }
                },
            }
        },
    }
}

/// What to do with a frame from the upstream world server.
#[derive(Debug)]
pub struct ServerFrameOutcome {
    /// Whether the frame goes on to the player's client.
    pub forward: bool,
    /// Frames to send upstream, in order: the bot collecting its loot.
    pub upstream: Vec<ClientFrame>,
    /// What the frame tells the session.
    pub observation: Option<ProtocolObservation>,
    /// The map and character of a world entry, which the object tracker must learn; the
    /// bot's movement is then stopped.
    pub entered_world: Option<(u32, EntityId)>,
    /// Whether the session now has authoritative world state.
    pub world_authoritative: bool,
}

/// A loot response's target, money and slots, where the body holds its records.
pub open spec fn loot_response_of(body: Seq<u8>) -> Option<(u64, u32, Seq<u8>)> {
    if body.len() >= 14 && loot_records_fit(body, body[13] as int) {
        Some((u64_at(body, 0), u32_at(body, 9), loot_slots(body, body[13] as int)))
    } else {
        None
    }
}

/// The frames with which the bot collects a loot window: the money where there is any,
/// each slot in order, then the release of the window.
pub open spec fn loot_collection(guid: u64, gold: u32, slots: Seq<u8>) -> Seq<(u32, Seq<u8>)> {
    (if gold > 0 { seq![(CMSG_LOOT_MONEY, Seq::<u8>::empty())] } else { Seq::empty() })
        + slots.map_values(|s: u8| (CMSG_AUTOSTORE_LOOT_ITEM, seq![s]))
        + seq![(CMSG_LOOT_RELEASE, u64_bytes(guid))]
}

/// Whether frames are the given (opcode, body) pairs.
pub open spec fn frames_are(v: Seq<ClientFrame>, s: Seq<(u32, Seq<u8>)>) -> bool {
    &&& v.len() == s.len()
    &&& forall|i: int| 0 <= i < v.len() ==> (#[trigger] v[i]).opcode == s[i].0 && v[i].body@ == s[i].1
}

/// The cast failure a cast-failed packet reports: its target is the bot's pending cast's
/// target where the spell is the same and the cast was sent less than five seconds before.
pub open spec fn cast_failure_of(b: WorldBridge, spell: u32, reason: u8, now: u64) -> ProtocolObservation {
    ProtocolObservation::CastFailed {
        spell,
        reason,
        target: match b.last_bot_cast {
            Some((pending, target, at)) => if pending == spell && (now as int) - (at as int) < 5000 { target } else { None },
            None => None,
        },
    }
}

/// A frame from the upstream world server at `now`: the contents of the window the bot is
/// looting are taken by the bot and not shown; the other answers to the bot's loot are not
/// shown either, and the release ends the bot's loot; a cast failure is reported with the
/// bot's pending cast's target and ends it; the world entry of the known character sets
/// its position, names the map to the object tracker and makes the session authoritative.
pub open spec fn server_frame_state(b: WorldBridge, opcode: u16, body: Seq<u8>, now: u64) -> WorldBridge {
    if opcode == SMSG_LOOT_RESPONSE {
        b
    } else if (opcode == SMSG_LOOT_RELEASE_RESPONSE || opcode == SMSG_LOOT_REMOVED || opcode == SMSG_LOOT_CLEAR_MONEY)
        && b.bot_loot_target is Some {
        if opcode == SMSG_LOOT_RELEASE_RESPONSE { WorldBridge { bot_loot_target: None, ..b } } else { b }
    } else if opcode == SMSG_CAST_FAILED {
        if cast_failed_fields(body) is Some { WorldBridge { last_bot_cast: None, ..b } } else { b }
    } else if opcode == SMSG_LOGIN_VERIFY_WORLD {
        match b.player_guid {
            Some(g) => match verify_world_obs(body, g.0) {
                Some(ProtocolObservation::EnteredWorld { position: Some(p), .. }) =>
                    WorldBridge { canonical_position: Some(p), canonical_flags: 0, ..b },
                _ => b,
            },
            None => b,
        }
    } else {
        b
    }
}

/// Whether an outcome is what a server frame leads to (see [`server_frame_state`]).
pub open spec fn server_frame_reported(b: WorldBridge, opcode: u16, body: Seq<u8>, now: u64, r: ServerFrameOutcome) -> bool {
    if opcode == SMSG_LOOT_RESPONSE {
        match loot_response_of(body) {
            Some((guid, gold, slots)) => if b.bot_loot_target == Some(EntityId(guid)) {
                &&& !r.forward
                &&& frames_are(r.upstream@, loot_collection(guid, gold, slots))
                &&& r.observation == Some(ProtocolObservation::LootOpened { target: EntityId(guid), ownership: LootOwnership::Bot })
                &&& r.entered_world is None && !r.world_authoritative
            } else {
                r.forward && r.upstream@.len() == 0 && r.observation is None && r.entered_world is None && !r.world_authoritative
            },
            None => r.forward && r.upstream@.len() == 0 && r.observation is None && r.entered_world is None && !r.world_authoritative,
        }
    } else if (opcode == SMSG_LOOT_RELEASE_RESPONSE || opcode == SMSG_LOOT_REMOVED || opcode == SMSG_LOOT_CLEAR_MONEY)
        && b.bot_loot_target is Some {
        &&& !r.forward
        &&& r.upstream@.len() == 0
        &&& r.observation == (if opcode == SMSG_LOOT_RELEASE_RESPONSE {
            Some(ProtocolObservation::LootClosed { ownership: LootOwnership::Bot })
        } else {
            None
        })
        &&& r.entered_world is None && !r.world_authoritative
    } else if opcode == SMSG_CAST_FAILED {
        &&& r.forward && r.upstream@.len() == 0 && r.entered_world is None && !r.world_authoritative
        &&& r.observation == match cast_failed_fields(body) {
            Some((_, spell, reason)) => Some(cast_failure_of(b, spell, reason, now)),
            None => None,
        }
    } else if opcode == SMSG_LOGIN_VERIFY_WORLD {
        &&& r.forward && r.upstream@.len() == 0
        &&& match b.player_guid {
            Some(g) => match verify_world_obs(body, g.0) {
                Some(obs) => {
                    &&& r.observation == Some(obs)
                    &&& r.world_authoritative
                    &&& r.entered_world == match obs {
                        ProtocolObservation::EnteredWorld { position: Some(p), .. } => Some((p.map, g)),
                        _ => None,
                    }
                },
                None => r.observation is None && r.entered_world is None && !r.world_authoritative,
            },
            None => r.observation is None && r.entered_world is None && !r.world_authoritative,
        }
    } else {
        r.forward && r.upstream@.len() == 0 && r.observation is None && r.entered_world is None && !r.world_authoritative
    }
}

/// The frames with which the bot collects a loot window (see [`loot_collection`]).
pub fn loot_collection_frames(guid: u64, gold: u32, slots: &Vec<u8>) -> (r: Vec<ClientFrame>)
    ensures
        frames_are(r@, loot_collection(guid, gold, slots@)),
{
    let mut out: Vec<ClientFrame> = Vec::new();
    let ghost head: Seq<(u32, Seq<u8>)> = if gold > 0 { seq![(CMSG_LOOT_MONEY, Seq::<u8>::empty())] } else { Seq::empty() };
    if gold > 0 {
        out.push(ClientFrame { opcode: CMSG_LOOT_MONEY, body: Vec::new() });
    }
    proof {
        assert(frames_are(out@, head));
    }
    let mut i: usize = 0;
    while i < slots.len()
        invariant
            i <= slots@.len(),
            frames_are(out@, head + slots@.subrange(0, i as int).map_values(|s: u8| (CMSG_AUTOSTORE_LOOT_ITEM, seq![s]))),
        decreases slots@.len() - i,
    {
        let ghost before = out@;
        let mut body: Vec<u8> = Vec::new();
        body.push(slots[i]);
        out.push(ClientFrame { opcode: CMSG_AUTOSTORE_LOOT_ITEM, body });
        proof {
            let prev = head + slots@.subrange(0, i as int).map_values(|s: u8| (CMSG_AUTOSTORE_LOOT_ITEM, seq![s]));
            let next = head + slots@.subrange(0, i + 1).map_values(|s: u8| (CMSG_AUTOSTORE_LOOT_ITEM, seq![s]));
            assert(next =~= prev.push((CMSG_AUTOSTORE_LOOT_ITEM, seq![slots@[i as int]])));
            assert forall|j: int| 0 <= j < out@.len() implies (#[trigger] out@[j]).opcode == next[j].0 && out@[j].body@ == next[j].1 by {
                if j < before.len() {
                    assert(out@[j] == before[j]);
                } else {
                    assert(out@[j].body@ =~= seq![slots@[i as int]]);
                }
            }
        }
        i = i + 1;
    }
    let ghost before = out@;
    let mut release: Vec<u8> = Vec::new();
    push_u64(&mut release, guid);
    out.push(ClientFrame { opcode: CMSG_LOOT_RELEASE, body: release });
    proof {
        assert(slots@.subrange(0, slots@.len() as int) =~= slots@);
        let mid = head + slots@.map_values(|s: u8| (CMSG_AUTOSTORE_LOOT_ITEM, seq![s]));
        let all = loot_collection(guid, gold, slots@);
        assert(all =~= mid.push((CMSG_LOOT_RELEASE, u64_bytes(guid))));
        assert forall|j: int| 0 <= j < out@.len() implies (#[trigger] out@[j]).opcode == all[j].0 && out@[j].body@ == all[j].1 by {
            if j < before.len() {
                assert(out@[j] == before[j]);
            } else {
                assert(out@[j].body@ =~= u64_bytes(guid));
            }
        }
    }
    out
}

/// Movement from the player's client while the bot moves the character: an echo of the
/// bot's own movement, and passive movement feedback, are held back and do not take
/// locomotion from the bot; explicit movement intent that is no echo takes locomotion and
/// forgets the bot's visual movement.
pub proof fn law_bot_movement_echo_is_not_player_intent(b: WorldBridge, opcode: u32, body: Seq<u8>, now: u64, echo_matches: bool)
    requires
        player_movement_opcode(opcode),
        bot_locomotion_recent(b, now),
    ensures
        ({
            let (b1, r) = client_frame_spec(b, opcode, body, now, echo_matches);
            &&& (simple_movement_fields(body) is Some && echo_matches) ==> !r.forward && !r.player_movement
            &&& !explicit_movement_intent(opcode) ==> !r.forward && !r.player_movement
            &&& (explicit_movement_intent(opcode) && !(simple_movement_fields(body) is Some && echo_matches))
                ==> r.forward && r.player_movement && b1.last_bot_visual is None
        }),
{
}

/// The bot's loot: the window of the target the bot loots is collected in full (money,
/// every slot, release) and never shown to the player; a loot request of the player for
/// that target supersedes the bot's loot.
pub proof fn law_bot_loot_is_collected_and_hidden(b: WorldBridge, guid: u64, body: Seq<u8>, now: u64, echo: bool)
    requires
        b.bot_loot_target == Some(EntityId(guid)),
    ensures
        match loot_response_of(body) {
            Some((g, gold, slots)) => g == guid ==> {
                &&& server_frame_state(b, SMSG_LOOT_RESPONSE, body, now) == b
                &&& forall|r: ServerFrameOutcome| server_frame_reported(b, SMSG_LOOT_RESPONSE, body, now, r)
                    ==> !r.forward && frames_are(r.upstream@, loot_collection(guid, gold, slots))
            },
            None => true,
        },
        ({
            let loot = u64_bytes(guid);
            client_frame_spec(b, CMSG_LOOT, loot, now, echo).0.bot_loot_target is None
        }),
{
    crate::bytes::lemma_u64_roundtrip(guid);
    assert(u64_bytes(guid).subrange(0, 8) =~= u64_bytes(guid));
}

impl WorldBridge {
    /// A bridge that knows nothing yet.
    pub fn new() -> (r: Self)
        ensures
            r == fresh_bridge(),
    {
        WorldBridge {
            player_guid: None,
            canonical_position: None,
            canonical_flags: 0,
            controlled_mover: None,
            controlled_position: None,
            controlled_flags: 0,
            movement_time: 0,
            last_bot_visual: None,
            bot_loot_target: None,
            last_bot_cast: None,
        }
    }

    /// Decide on a frame from the player's client (see [`client_frame_spec`]).
    /// `echo_matches` says whether the frame's movement, where it is one, matches the bot's
    /// last visual movement in point, facing and opcode.
    pub fn client_frame(&mut self, opcode: u32, body: &[u8], now: u64, echo_matches: bool) -> (r: ClientFrameOutcome)
        ensures
            (*final(self), r) == client_frame_spec(*old(self), opcode, body@, now, echo_matches),
    {
        if opcode == CMSG_TIME_SYNC_RESP && body.len() >= 8 {
            self.movement_time = read_u32_at(body, 4).unwrap();
        }
        let login = if opcode == CMSG_PLAYER_LOGIN && body.len() >= 8 {
            Some(EntityId(read_u64_at(body, 0).unwrap()))
        } else {
            None
        };
        match login {
            Some(g) => {
                self.player_guid = Some(g);
            },
            None => {},
        }
        if is_player_movement_opcode(opcode) {
            let decoded = decode_simple_movement(body);
            let recent = match self.last_bot_visual {
                Some((_, _, at)) => at >= now || now - at < BOT_ECHO_WINDOW_MS,
                None => false,
            };
            let echo = recent && decoded.is_some() && echo_matches;
            let explicit = is_explicit_player_movement_intent(opcode);
            let intent = !echo && explicit;
            let suppress = echo || (!explicit && recent);
            if intent {
                self.last_bot_visual = None;
            }
            let mut observation: Option<ProtocolObservation> = None;
            if !suppress {
                match decoded {
                    Some((g, flags, t, point, orientation)) => {
                        let mine = match self.player_guid {
                            Some(p) => p == g,
                            None => true,
                        };
                        if mine {
                            match self.canonical_position {
                                Some(cur) => {
                                    let p = WorldPosition { point, orientation, ..cur };
                                    self.canonical_position = Some(p);
                                    self.canonical_flags = flags;
                                    self.movement_time = t;
                                    observation = Some(ProtocolObservation::PlayerPosition {
                                        position: p,
                                        moving: flags != 0,
                                        flags,
                                        client_time: t,
                                    });
                                },
                                None => {},
                            }
                        }
                    },
                    None => {},
                }
            }
            ClientFrameOutcome { forward: !suppress, player_login: login, player_movement: intent, observation }
        } else if opcode == CMSG_LOOT && body.len() >= 8 {
            let g = EntityId(read_u64_at(body, 0).unwrap());
            let same = match self.bot_loot_target {
                Some(t) => t == g,
                None => false,
            };
            if same {
                self.bot_loot_target = None;
            }
            ClientFrameOutcome {
                forward: true,
                player_login: login,
                player_movement: false,
                observation: Some(ProtocolObservation::LootOpened { target: g, ownership: LootOwnership::Player }),
            }
        } else if opcode == CMSG_LOOT_RELEASE {
            ClientFrameOutcome {
                forward: true,
                player_login: login,
                player_movement: false,
                observation: Some(ProtocolObservation::LootClosed { ownership: LootOwnership::Player }),
            }
        } else {
            ClientFrameOutcome { forward: true, player_login: login, player_movement: false, observation: None }
        }
    }
    /// Send a bot command (see [`bot_command_state`] and [`bot_command_reported`]).
    /// `heading` is the orientation the command turns to (see `encode_gameplay_command`).
    pub fn bot_command(&mut self, command: GameplayCommand, now: u64, heading: u32) -> (r: BotCommandOutcome)
        ensures
            *final(self) == bot_command_state(*old(self), command, now, heading),
            bot_command_reported(*old(self), command, now, heading, r),
    {
        match command {
            GameplayCommand::Loot(t) => {
                self.bot_loot_target = Some(t);
            },
            _ => {},
        }
        match bot_targeted_cast(&command) {
            Some((spell, target)) => {
                self.last_bot_cast = Some((spell, target, now));
            },
            None => {},
        }
        let report = match &command {
            GameplayCommand::CastGameObject { target, report_use, .. } => if *report_use { Some(*target) } else { None },
            _ => None,
        };
        let ghost b1 = *self;
        let ghost spec_command = command;
        let context = gameplay_movement_context(
            self.controlled_mover,
            self.controlled_position,
            self.controlled_flags,
            self.player_guid,
            self.canonical_position,
            self.canonical_flags,
        );
        let mut time = self.movement_time;
        match encode_gameplay_command(command, context.mover, context.position, context.flags, &mut time, heading) {
            Ok(Some((frame, movement))) => {
                let mut upstream: Vec<ClientFrame> = Vec::new();
                let opcode = frame.opcode;
                let ghost body = frame.body@;
                let mut visual_body: Vec<u8> = Vec::new();
                crate::bytes::extend_bytes(&mut visual_body, frame.body.as_slice());
                proof {
                    assert(visual_body@ =~= body);
                }
                upstream.push(frame);
                match report {
                    Some(target) => {
                        let mut report_body: Vec<u8> = Vec::new();
                        push_u64(&mut report_body, target.0);
                        proof {
                            assert(report_body@ =~= u64_bytes(target.0));
                        }
                        upstream.push(ClientFrame { opcode: CMSG_GAMEOBJ_REPORT_USE, body: report_body });
                    },
                    None => {},
                }
                match movement {
                    Some((position, moving, flags, client_time)) => {
                        self.movement_time = time;
                        self.last_bot_visual = Some((position, opcode, now));
                        let observation = if self.controlled_mover.is_some() {
                            self.controlled_position = Some(position);
                            ProtocolObservation::ControlledMover { mover: self.controlled_mover, position: Some(position), flags }
                        } else {
                            self.canonical_position = Some(position);
                            ProtocolObservation::PlayerPosition { position, moving, flags, client_time }
                        };
                        let downstream = if opcode < 0x10000 {
                            Some(ServerFrame { opcode: opcode as u16, body: visual_body })
                        } else {
                            None
                        };
                        BotCommandOutcome { upstream, downstream, observation: Some(observation), error: None }
                    },
                    None => {
                        BotCommandOutcome { upstream, downstream: None, observation: None, error: None }
                    },
                }
            },
            Ok(None) => {
                BotCommandOutcome { upstream: Vec::new(), downstream: None, observation: None, error: None }
            },
            Err(e) => {
                BotCommandOutcome { upstream: Vec::new(), downstream: None, observation: None, error: Some(e) }
            },
        }
    }
    /// Decide on a frame from the upstream world server at `now` (see
    /// [`server_frame_state`] and [`server_frame_reported`]).
    pub fn server_frame(&mut self, opcode: u16, body: &[u8], now: u64) -> (r: ServerFrameOutcome)
        ensures
            *final(self) == server_frame_state(*old(self), opcode, body@, now),
            server_frame_reported(*old(self), opcode, body@, now, r),
    {
        let quiet = ServerFrameOutcome { forward: true, upstream: Vec::new(), observation: None, entered_world: None, world_authoritative: false };
        if opcode == SMSG_LOOT_RESPONSE {
            match parse_loot_response(body) {
                Some((guid, gold, slots)) => {
                    let mine = match self.bot_loot_target {
                        Some(t) => t.0 == guid,
                        None => false,
                    };
                    if mine {
                        ServerFrameOutcome {
                            forward: false,
                            upstream: loot_collection_frames(guid, gold, &slots),
                            observation: Some(ProtocolObservation::LootOpened { target: EntityId(guid), ownership: LootOwnership::Bot }),
                            entered_world: None,
                            world_authoritative: false,
                        }
                    } else {
                        quiet
                    }
                },
                None => quiet,
            }
        } else if (opcode == SMSG_LOOT_RELEASE_RESPONSE || opcode == SMSG_LOOT_REMOVED || opcode == SMSG_LOOT_CLEAR_MONEY)
            && self.bot_loot_target.is_some() {
            let observation = if opcode == SMSG_LOOT_RELEASE_RESPONSE {
                self.bot_loot_target = None;
                Some(ProtocolObservation::LootClosed { ownership: LootOwnership::Bot })
            } else {
                None
            };
            ServerFrameOutcome { forward: false, upstream: Vec::new(), observation, entered_world: None, world_authoritative: false }
        } else if opcode == SMSG_CAST_FAILED {
            match take_bot_cast_failure(body, &mut self.last_bot_cast, now) {
                Some((_, spell, reason, target)) => ServerFrameOutcome {
                    forward: true,
                    upstream: Vec::new(),
                    observation: Some(ProtocolObservation::CastFailed { spell, reason, target }),
                    entered_world: None,
                    world_authoritative: false,
                },
                None => quiet,
            }
        } else if opcode == SMSG_LOGIN_VERIFY_WORLD {
            match self.player_guid {
                Some(g) => match login_verify_world(body, g.0) {
                    Some(observation) => {
                        let entered_world = match observation {
                            ProtocolObservation::EnteredWorld { position: Some(p), .. } => {
                                self.canonical_position = Some(p);
                                self.canonical_flags = 0;
                                Some((p.map, g))
                            },
                            _ => None,
                        };
                        ServerFrameOutcome {
                            forward: true,
                            upstream: Vec::new(),
                            observation: Some(observation),
                            entered_world,
                            world_authoritative: true,
                        }
                    },
                    None => quiet,
                },
                None => quiet,
            }
        } else {
            quiet
        }
    }

    /// Learn the controlled unit from the object tracker's report of it.
    pub fn object_observation(&mut self, observation: &ProtocolObservation)
        ensures
            *final(self) == match *observation {
                ProtocolObservation::ControlledMover { mover, position, flags } =>
                    WorldBridge { controlled_mover: mover, controlled_position: position, controlled_flags: flags, ..*old(self) },
                _ => *old(self),
            },
    {
        match observation {
            ProtocolObservation::ControlledMover { mover, position, flags } => {
                self.controlled_mover = *mover;
                self.controlled_position = *position;
                self.controlled_flags = *flags;
            },
            _ => {},
        }
    }
}

} // verus!
