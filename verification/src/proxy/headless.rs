//! Decisions of the headless world session, which plays a configured character with no
//! player's client attached: the character list and login, world transfers, the bot's
//! commands, its loot and cast failures, and world entry. The caller reads and writes the
//! frames, runs the Warden exchange and the keepalive, and carries out what each step
//! returns.
use vstd::prelude::*;
use crate::domain::{GameplayCommand, is_locomotion};
use crate::ids::EntityId;
use crate::proxy::bridge::{
    CMSG_TIME_SYNC_RESP,
    bridge_encoding, cast_failure_of, command_mover, command_position, command_flags, frames_are,
    loot_collection, loot_response_of, WorldBridge, SMSG_CAST_FAILED, SMSG_LOGIN_VERIFY_WORLD,
    SMSG_LOOT_RELEASE_RESPONSE, SMSG_LOOT_RESPONSE,
};
use crate::proxy::framing::ClientFrame;
use crate::proxy::gameplay::{cast_failed_fields, encode_gameplay_command, CommandError};
use crate::proxy::runtime::{bot_targeted_cast, chosen_character, gameplay_movement_context, select_wrath_character, targeted_cast_of, wanted_view};
use crate::adapter::packets::verify_world_obs;
use crate::bytes::{push_u32, push_u64, read_u32_at, u32_at, u32_bytes, u64_bytes};
use crate::state::observation::ProtocolObservation;

verus! {

/// The server starts a transfer to another world.
pub const SMSG_TRANSFER_PENDING: u16 = 0x003F;
/// The server has the character enter a new world.
pub const SMSG_NEW_WORLD: u16 = 0x003E;
/// The server accepted the session's authentication.
pub const SMSG_AUTH_RESPONSE: u16 = 0x01EE;
/// The server's character list.
pub const SMSG_CHAR_ENUM: u16 = 0x003B;
/// The client asks for the character list.
pub const CMSG_CHAR_ENUM: u32 = 0x0037;
/// The client logs a character in.
pub const CMSG_PLAYER_LOGIN: u32 = 0x003D;
/// The client acknowledges a world transfer.
pub const MSG_MOVE_WORLDPORT_ACK: u32 = 0x00DC;
/// The server asks for the client's movement clock.
pub const SMSG_TIME_SYNC_REQ: u16 = 0x0390;

/// The headless session: what the bridge knows of the character, whether a world transfer
/// is under way, and whether the character list and the login have been asked for.
#[derive(Clone, Copy, Debug)]
pub struct HeadlessSession {
    pub bridge: WorldBridge,
    pub world_transfer_pending: bool,
    pub char_enum_requested: bool,
    pub player_login_requested: bool,
}

/// What a bot command sends and tells in the headless session.
#[derive(Debug)]
pub struct HeadlessCommandOutcome {
    /// The frame to send upstream; none where a locomotion command was dropped during a
    /// world transfer or the command cannot be encoded.
    pub upstream: Option<ClientFrame>,
    /// What the command tells the session of the character's movement.
    pub observation: Option<ProtocolObservation>,
    /// Why the command could not be encoded.
    pub error: Option<CommandError>,
}

/// The headless session after a bot command at `now`: locomotion during a world transfer
/// is dropped; an encoded command notes the bot's cast and loot target; a movement moves
/// the controlled unit (where there is one) or the character, with its flags, and the
/// movement clock.
pub open spec fn headless_command_state(h: HeadlessSession, command: GameplayCommand, now: u64, heading: u32) -> HeadlessSession {
    let b = h.bridge;
    if h.world_transfer_pending && is_locomotion(command) {
        h
    } else {
        match bridge_encoding(b, command, heading) {
            Err(_) => h,
            Ok((_, _, expected)) => {
                let b1 = match targeted_cast_of(command) {
                    Some((spell, target)) => WorldBridge { last_bot_cast: Some((spell, target, now)), ..b },
                    None => b,
                };
                let b2 = match command {
                    GameplayCommand::Loot(t) => WorldBridge { bot_loot_target: Some(t), ..b1 },
                    _ => b1,
                };
                let b3 = match expected {
                    Some((pos, _, flags, t)) => if b.controlled_mover is Some {
                        WorldBridge { controlled_position: Some(pos), movement_time: t, ..b2 }
                    } else {
                        WorldBridge { canonical_position: Some(pos), canonical_flags: flags, movement_time: t, ..b2 }
                    },
                    None => b2,
                };
                HeadlessSession { bridge: b3, ..h }
            },
        }
    }
}

/// Whether an outcome is what a bot command sends and tells in the headless session.
pub open spec fn headless_command_reported(h: HeadlessSession, command: GameplayCommand, heading: u32, r: HeadlessCommandOutcome) -> bool {
    let b = h.bridge;
    if h.world_transfer_pending && is_locomotion(command) {
        r.upstream is None && r.observation is None && r.error is None
    } else {
        match bridge_encoding(b, command, heading) {
            Err(e) => r.upstream is None && r.observation is None && r.error == Some(e),
            Ok((opcode, body, expected)) => {
                &&& r.error is None
                &&& r.upstream matches Some(f) && f.opcode == opcode && f.body@ == body
                &&& r.observation == match expected {
                    Some((pos, moving, flags, t)) => Some(if b.controlled_mover is Some {
                        ProtocolObservation::ControlledMover { mover: b.controlled_mover, position: Some(pos), flags }
                    } else {
                        ProtocolObservation::PlayerPosition { position: pos, moving, flags, client_time: t }
                    }),
                    None => None,
                }
            },
        }
    }
}

/// What to do after a server frame in the headless session.
#[derive(Debug)]
pub struct HeadlessFrameOutcome {
    /// Frames to send upstream, in order.
    pub upstream: Vec<ClientFrame>,
    /// What the frame tells the session.
    pub observation: Option<ProtocolObservation>,
    /// The character the object tracker must learn.
    pub set_player: Option<EntityId>,
    /// The map and character of a world entry, which the object tracker must learn.
    pub entered_world: Option<(u32, EntityId)>,
    /// Whether the session now has authoritative world state.
    pub world_authoritative: bool,
    /// Whether to install the default quest mission and turn the bot on.
    pub start_questing: bool,
    /// Whether the configured character is missing from the character list: the session
    /// ends with an error.
    pub missing_character: bool,
    /// Whether the frame is used up here and goes to no object or protocol observer.
    pub consumed: bool,
}

/// The headless session after a server frame at `now`, for the configured character name:
/// a transfer notice starts a world transfer; the first authentication answer asks for the
/// character list and the first character list logs in the chosen character; the bot's
/// loot and cast failures go as in the player bridge; a new world moves the character,
/// forgets the controlled unit and ends the transfer; the world entry sets the position.
pub open spec fn headless_frame_state(h: HeadlessSession, opcode: u16, body: Seq<u8>, now: u64, wanted: Option<Seq<char>>) -> HeadlessSession {
    let h1 = if opcode == SMSG_TRANSFER_PENDING { HeadlessSession { world_transfer_pending: true, ..h } } else { h };
    let b = h1.bridge;
    if opcode == SMSG_AUTH_RESPONSE && !h1.char_enum_requested {
        HeadlessSession { char_enum_requested: true, ..h1 }
    } else if opcode == SMSG_CHAR_ENUM && !h1.player_login_requested {
        match chosen_character(body, wanted) {
            Some((g, _)) => HeadlessSession {
                bridge: WorldBridge { player_guid: Some(EntityId(g)), ..b },
                player_login_requested: true,
                ..h1
            },
            None => h1,
        }
    } else if opcode == SMSG_LOOT_RELEASE_RESPONSE && b.bot_loot_target is Some {
        HeadlessSession { bridge: WorldBridge { bot_loot_target: None, ..b }, ..h1 }
    } else if opcode == SMSG_CAST_FAILED && cast_failed_fields(body) is Some {
        HeadlessSession { bridge: WorldBridge { last_bot_cast: None, ..b }, ..h1 }
    } else if opcode == SMSG_NEW_WORLD {
        let b1 = match b.player_guid {
            Some(g) => match verify_world_obs(body, g.0) {
                Some(ProtocolObservation::EnteredWorld { position: Some(p), .. }) => WorldBridge {
                    canonical_position: Some(p),
                    canonical_flags: 0,
                    controlled_mover: None,
                    controlled_position: None,
                    controlled_flags: 0,
                    ..b
                },
                _ => b,
            },
            None => b,
        };
        HeadlessSession { bridge: b1, world_transfer_pending: false, ..h1 }
    } else if opcode == SMSG_LOGIN_VERIFY_WORLD {
        match b.player_guid {
            Some(g) => match verify_world_obs(body, g.0) {
                Some(ProtocolObservation::EnteredWorld { position: Some(p), .. }) =>
                    HeadlessSession { bridge: WorldBridge { canonical_position: Some(p), canonical_flags: 0, ..b }, ..h1 },
                _ => h1,
            },
            None => h1,
        }
    } else {
        h1
    }
}

/// Whether an outcome holds nothing but `upstream` frames and `consumed`.
pub open spec fn plain_outcome(r: HeadlessFrameOutcome) -> bool {
    &&& r.observation is None
    &&& r.set_player is None
    &&& r.entered_world is None
    &&& !r.world_authoritative
    &&& !r.start_questing
    &&& !r.missing_character
}

/// Whether an outcome is what a server frame leads to in the headless session (see
/// [`headless_frame_state`]).
pub open spec fn headless_frame_reported(h: HeadlessSession, opcode: u16, body: Seq<u8>, now: u64, wanted: Option<Seq<char>>, r: HeadlessFrameOutcome) -> bool {
    let b = h.bridge;
    if opcode == SMSG_AUTH_RESPONSE && !h.char_enum_requested {
        plain_outcome(r) && r.consumed && frames_are(r.upstream@, seq![(CMSG_CHAR_ENUM, Seq::<u8>::empty())])
    } else if opcode == SMSG_CHAR_ENUM && !h.player_login_requested {
        match chosen_character(body, wanted) {
            Some((g, _)) => {
                &&& r.consumed
                &&& frames_are(r.upstream@, seq![(CMSG_PLAYER_LOGIN, u64_bytes(g))])
                &&& r.set_player == Some(EntityId(g))
                &&& r.observation is None && r.entered_world is None && !r.world_authoritative && !r.start_questing
                &&& !r.missing_character
            },
            None => r.consumed && r.missing_character && r.upstream@.len() == 0 && r.observation is None
                && r.set_player is None && r.entered_world is None && !r.world_authoritative && !r.start_questing,
        }
    } else if opcode == SMSG_LOOT_RESPONSE {
        &&& !r.consumed
        &&& match loot_response_of(body) {
            Some((guid, gold, slots)) => if b.bot_loot_target == Some(EntityId(guid)) {
                &&& frames_are(r.upstream@, loot_collection(guid, gold, slots))
                &&& r.observation == Some(ProtocolObservation::LootOpened {
                    target: EntityId(guid),
                    ownership: crate::state::inventory::LootOwnership::Bot,
                })
                &&& r.set_player is None && r.entered_world is None && !r.world_authoritative
                &&& !r.start_questing && !r.missing_character
            } else {
                plain_outcome(r) && r.upstream@.len() == 0
            },
            None => plain_outcome(r) && r.upstream@.len() == 0,
        }
    } else if opcode == SMSG_LOOT_RELEASE_RESPONSE && b.bot_loot_target is Some {
        &&& !r.consumed && r.upstream@.len() == 0
        &&& r.observation == Some(ProtocolObservation::LootClosed { ownership: crate::state::inventory::LootOwnership::Bot })
        &&& r.set_player is None && r.entered_world is None && !r.world_authoritative
        &&& !r.start_questing && !r.missing_character
    } else if opcode == SMSG_CAST_FAILED {
        &&& !r.consumed && r.upstream@.len() == 0
        &&& r.observation == match cast_failed_fields(body) {
            Some((_, spell, reason)) => Some(cast_failure_of(b, spell, reason, now)),
            None => None,
        }
        &&& r.set_player is None && r.entered_world is None && !r.world_authoritative
        &&& !r.start_questing && !r.missing_character
    } else if opcode == SMSG_NEW_WORLD {
        &&& !r.consumed
        &&& frames_are(r.upstream@, seq![(MSG_MOVE_WORLDPORT_ACK, Seq::<u8>::empty())])
        &&& r.set_player is None && !r.world_authoritative && !r.start_questing && !r.missing_character
        &&& match b.player_guid {
            Some(g) => match verify_world_obs(body, g.0) {
                Some(ProtocolObservation::EnteredWorld { position: Some(p), .. }) => {
                    &&& r.observation == Some(ProtocolObservation::EnteredWorld { character_guid: g.0, position: Some(p) })
                    &&& r.entered_world == Some((p.map, g))
                },
                _ => r.observation is None && r.entered_world is None,
            },
            None => r.observation is None && r.entered_world is None,
        }
    } else if opcode == SMSG_LOGIN_VERIFY_WORLD {
        &&& !r.consumed && r.upstream@.len() == 0 && r.set_player is None && !r.missing_character
        &&& match b.player_guid {
            Some(g) => match verify_world_obs(body, g.0) {
                Some(obs) => {
                    &&& r.observation == Some(obs)
                    &&& r.world_authoritative && r.start_questing
                    &&& r.entered_world == match obs {
                        ProtocolObservation::EnteredWorld { position: Some(p), .. } => Some((p.map, g)),
                        _ => None,
                    }
                },
                None => r.observation is None && r.entered_world is None && !r.world_authoritative && !r.start_questing,
            },
            None => r.observation is None && r.entered_world is None && !r.world_authoritative && !r.start_questing,
        }
    } else {
        plain_outcome(r) && !r.consumed && r.upstream@.len() == 0
    }
}

/// During a world transfer, locomotion commands are dropped: nothing is sent and nothing
/// changes; the transfer lasts from the transfer notice to the new world.
pub proof fn law_transfer_drops_locomotion(h: HeadlessSession, body: Seq<u8>, now: u64, wanted: Option<Seq<char>>, command: GameplayCommand, heading: u32)
    requires
        is_locomotion(command),
    ensures
        headless_frame_state(h, SMSG_TRANSFER_PENDING, body, now, wanted).world_transfer_pending,
        ({
            let t = headless_frame_state(h, SMSG_TRANSFER_PENDING, body, now, wanted);
            &&& headless_command_state(t, command, now, heading) == t
            &&& forall|r: HeadlessCommandOutcome| headless_command_reported(t, command, heading, r)
                ==> r.upstream is None && r.observation is None && r.error is None
        }),
        !headless_frame_state(h, SMSG_NEW_WORLD, body, now, wanted).world_transfer_pending,
{
}

/// The character list is asked for once, and a character is logged in once: a second
/// authentication answer, or a second character list after the login, sends nothing.
pub proof fn law_login_is_requested_once(h: HeadlessSession, body: Seq<u8>, now: u64, wanted: Option<Seq<char>>)
    ensures
        ({
            let a = headless_frame_state(h, SMSG_AUTH_RESPONSE, body, now, wanted);
            forall|r: HeadlessFrameOutcome| headless_frame_reported(a, SMSG_AUTH_RESPONSE, body, now, wanted, r) ==> r.upstream@.len() == 0
        }),
        chosen_character(body, wanted) is Some || h.player_login_requested ==> {
            let c = headless_frame_state(h, SMSG_CHAR_ENUM, body, now, wanted);
            forall|r: HeadlessFrameOutcome| headless_frame_reported(c, SMSG_CHAR_ENUM, body, now, wanted, r) ==> r.upstream@.len() == 0
        },
{
}

/// An outcome holding only upstream frames.
fn frames_only(upstream: Vec<ClientFrame>, consumed: bool) -> (r: HeadlessFrameOutcome)
    ensures
        plain_outcome(r),
        r.upstream == upstream,
        r.consumed == consumed,
{
    HeadlessFrameOutcome {
        upstream,
        observation: None,
        set_player: None,
        entered_world: None,
        world_authoritative: false,
        start_questing: false,
        missing_character: false,
        consumed,
    }
}

impl HeadlessSession {
    /// A session that has asked for nothing yet.
    pub fn new() -> (r: Self)
        ensures
            r.bridge == crate::proxy::bridge::fresh_bridge(),
            !r.world_transfer_pending,
            !r.char_enum_requested,
            !r.player_login_requested,
    {
        HeadlessSession { bridge: WorldBridge::new(), world_transfer_pending: false, char_enum_requested: false, player_login_requested: false }
    }

    /// The answer to a time-synchronisation request: the request's counter and the
    /// movement clock; `None` where the body is too short to hold the counter.
    pub fn time_sync_reply(&self, body: &[u8]) -> (r: Option<ClientFrame>)
        ensures
            body@.len() < 4 <==> r is None,
            r matches Some(f) ==> f.opcode == CMSG_TIME_SYNC_RESP && f.body@ == u32_bytes(u32_at(body@, 0))
                + u32_bytes(self.bridge.movement_time),
    {
        match read_u32_at(body, 0) {
            Some(counter) => {
                let mut reply: Vec<u8> = Vec::new();
                push_u32(&mut reply, counter);
                push_u32(&mut reply, self.bridge.movement_time);
                assert(reply@ =~= u32_bytes(u32_at(body@, 0)) + u32_bytes(self.bridge.movement_time));
                Some(ClientFrame { opcode: CMSG_TIME_SYNC_RESP, body: reply })
            },
            None => None,
        }
    }

    /// Send a bot command (see [`headless_command_state`] and [`headless_command_reported`]).
    pub fn bot_command(&mut self, command: GameplayCommand, now: u64, heading: u32) -> (r: HeadlessCommandOutcome)
        ensures
            *final(self) == headless_command_state(*old(self), command, now, heading),
            headless_command_reported(*old(self), command, heading, r),
    {
        if self.world_transfer_pending && command.locomotion() {
            return HeadlessCommandOutcome { upstream: None, observation: None, error: None };
        }
        let cast = bot_targeted_cast(&command);
        let loot = match &command {
            GameplayCommand::Loot(t) => Some(*t),
            _ => None,
        };
        let b = self.bridge;
        let context = gameplay_movement_context(
            b.controlled_mover,
            b.controlled_position,
            b.controlled_flags,
            b.player_guid,
            b.canonical_position,
            b.canonical_flags,
        );
        let mut time = b.movement_time;
        match encode_gameplay_command(command, context.mover, context.position, context.flags, &mut time, heading) {
            Ok(Some((frame, movement))) => {
                match cast {
                    Some((spell, target)) => {
                        self.bridge.last_bot_cast = Some((spell, target, now));
                    },
                    None => {},
                }
                match loot {
                    Some(t) => {
                        self.bridge.bot_loot_target = Some(t);
                    },
                    None => {},
                }
                let observation = match movement {
                    Some((position, moving, flags, client_time)) => {
                        self.bridge.movement_time = time;
                        if b.controlled_mover.is_some() {
                            self.bridge.controlled_position = Some(position);
                            Some(ProtocolObservation::ControlledMover { mover: b.controlled_mover, position: Some(position), flags })
                        } else {
                            self.bridge.canonical_position = Some(position);
                            self.bridge.canonical_flags = flags;
                            Some(ProtocolObservation::PlayerPosition { position, moving, flags, client_time })
                        }
                    },
                    None => None,
                };
                HeadlessCommandOutcome { upstream: Some(frame), observation, error: None }
            },
            Ok(None) => HeadlessCommandOutcome { upstream: None, observation: None, error: None },
            Err(e) => HeadlessCommandOutcome { upstream: None, observation: None, error: Some(e) },
        }
    }

    /// Decide on a server frame at `now`, for the configured character name (see
    /// [`headless_frame_state`] and [`headless_frame_reported`]).
    pub fn server_frame(&mut self, opcode: u16, body: &[u8], now: u64, configured: Option<&str>) -> (r: HeadlessFrameOutcome)
        ensures
            *final(self) == headless_frame_state(*old(self), opcode, body@, now, wanted_view(configured)),
            headless_frame_reported(*old(self), opcode, body@, now, wanted_view(configured), r),
    {
        if opcode == SMSG_TRANSFER_PENDING {
            self.world_transfer_pending = true;
        }
        if opcode == SMSG_AUTH_RESPONSE && !self.char_enum_requested {
            self.char_enum_requested = true;
            let mut upstream: Vec<ClientFrame> = Vec::new();
            upstream.push(ClientFrame { opcode: CMSG_CHAR_ENUM, body: Vec::new() });
            proof {
                assert(upstream@[0].body@ =~= Seq::<u8>::empty());
            }
            return frames_only(upstream, true);
        }
        if opcode == SMSG_CHAR_ENUM && !self.player_login_requested {
            return match select_wrath_character(body, configured) {
                Some((guid, _)) => {
                    self.bridge.player_guid = Some(EntityId(guid));
                    self.player_login_requested = true;
                    let mut login: Vec<u8> = Vec::new();
                    push_u64(&mut login, guid);
                    proof {
                        assert(login@ =~= u64_bytes(guid));
                    }
                    let mut upstream: Vec<ClientFrame> = Vec::new();
                    upstream.push(ClientFrame { opcode: CMSG_PLAYER_LOGIN, body: login });
                    HeadlessFrameOutcome {
                        upstream,
                        observation: None,
                        set_player: Some(EntityId(guid)),
                        entered_world: None,
                        world_authoritative: false,
                        start_questing: false,
                        missing_character: false,
                        consumed: true,
                    }
                },
                None => HeadlessFrameOutcome {
                    upstream: Vec::new(),
                    observation: None,
                    set_player: None,
                    entered_world: None,
                    world_authoritative: false,
                    start_questing: false,
                    missing_character: true,
                    consumed: true,
                },
            };
        }
        if opcode == SMSG_LOOT_RESPONSE {
            return match crate::proxy::gameplay::parse_loot_response(body) {
                Some((guid, gold, slots)) => {
                    let mine = match self.bridge.bot_loot_target {
                        Some(t) => t.0 == guid,
                        None => false,
                    };
                    if mine {
                        HeadlessFrameOutcome {
                            upstream: crate::proxy::bridge::loot_collection_frames(guid, gold, &slots),
                            observation: Some(ProtocolObservation::LootOpened {
                                target: EntityId(guid),
                                ownership: crate::state::inventory::LootOwnership::Bot,
                            }),
                            set_player: None,
                            entered_world: None,
                            world_authoritative: false,
                            start_questing: false,
                            missing_character: false,
                            consumed: false,
                        }
                    } else {
                        frames_only(Vec::new(), false)
                    }
                },
                None => frames_only(Vec::new(), false),
            };
        }
        if opcode == SMSG_LOOT_RELEASE_RESPONSE && self.bridge.bot_loot_target.is_some() {
            self.bridge.bot_loot_target = None;
            return HeadlessFrameOutcome {
                upstream: Vec::new(),
                observation: Some(ProtocolObservation::LootClosed { ownership: crate::state::inventory::LootOwnership::Bot }),
                set_player: None,
                entered_world: None,
                world_authoritative: false,
                start_questing: false,
                missing_character: false,
                consumed: false,
            };
        }
        if opcode == SMSG_CAST_FAILED {
            let observation = match crate::proxy::gameplay::take_bot_cast_failure(body, &mut self.bridge.last_bot_cast, now) {
                Some((_, spell, reason, target)) => Some(ProtocolObservation::CastFailed { spell, reason, target }),
                None => None,
            };
            return HeadlessFrameOutcome {
                upstream: Vec::new(),
                observation,
                set_player: None,
                entered_world: None,
                world_authoritative: false,
                start_questing: false,
                missing_character: false,
                consumed: false,
            };
        }
        if opcode == SMSG_NEW_WORLD {
            let mut entered_world: Option<(u32, EntityId)> = None;
            let mut observation: Option<ProtocolObservation> = None;
            match self.bridge.player_guid {
                Some(g) => match crate::adapter::packets::login_verify_world(body, g.0) {
                    Some(ProtocolObservation::EnteredWorld { position: Some(p), .. }) => {
                        self.bridge.canonical_position = Some(p);
                        self.bridge.canonical_flags = 0;
                        self.bridge.controlled_mover = None;
                        self.bridge.controlled_position = None;
                        self.bridge.controlled_flags = 0;
                        entered_world = Some((p.map, g));
                        observation = Some(ProtocolObservation::EnteredWorld { character_guid: g.0, position: Some(p) });
                    },
                    _ => {},
                },
                None => {},
            }
            self.world_transfer_pending = false;
            let mut upstream: Vec<ClientFrame> = Vec::new();
            upstream.push(ClientFrame { opcode: MSG_MOVE_WORLDPORT_ACK, body: Vec::new() });
            proof {
                assert(upstream@[0].body@ =~= Seq::<u8>::empty());
            }
            return HeadlessFrameOutcome {
                upstream,
                observation,
                set_player: None,
                entered_world,
                world_authoritative: false,
                start_questing: false,
                missing_character: false,
                consumed: false,
            };
        }
        if opcode == SMSG_LOGIN_VERIFY_WORLD {
            return match self.bridge.player_guid {
                Some(g) => match crate::adapter::packets::login_verify_world(body, g.0) {
                    Some(observation) => {
                        let entered_world = match observation {
                            ProtocolObservation::EnteredWorld { position: Some(p), .. } => {
                                self.bridge.canonical_position = Some(p);
                                self.bridge.canonical_flags = 0;
                                Some((p.map, g))
                            },
                            _ => None,
                        };
                        HeadlessFrameOutcome {
                            upstream: Vec::new(),
                            observation: Some(observation),
                            set_player: None,
                            entered_world,
                            world_authoritative: true,
                            start_questing: true,
                            missing_character: false,
                            consumed: false,
                        }
                    },
                    None => frames_only(Vec::new(), false),
                },
                None => frames_only(Vec::new(), false),
            };
        }
        frames_only(Vec::new(), false)
    }
}

/// The first reconnection delay of a headless session, and the one after it gave way to a
/// player.
pub const HEADLESS_RETRY_START_MS: u64 = 1000;
/// The longest reconnection delay of a headless session.
pub const HEADLESS_RETRY_MAX_MS: u64 = 15000;

/// When a headless session that ended reconnects.
#[derive(Clone, Copy, Debug, PartialEq, Eq, Structural)]
pub struct HeadlessReconnect {
    /// The delay before the next reconnection.
    pub retry_ms: u64,
}

/// The delay after the one given: doubled, up to the longest.
pub open spec fn next_retry(retry_ms: u64) -> u64 {
    if 2 * retry_ms >= HEADLESS_RETRY_MAX_MS { HEADLESS_RETRY_MAX_MS } else { (2 * retry_ms) as u64 }
}

impl HeadlessReconnect {
    /// A policy that waits one second before the first reconnection.
    pub fn new() -> (r: Self)
        ensures
            r.retry_ms == HEADLESS_RETRY_START_MS,
    {
        HeadlessReconnect { retry_ms: HEADLESS_RETRY_START_MS }
    }

    /// A session ended. Where it gave way to a player (the session is no longer enabled)
    /// nothing is awaited and the delay starts over; otherwise the current delay is to be
    /// awaited before reconnecting, and the next one doubles, up to fifteen seconds.
    pub fn session_ended(&mut self, still_enabled: bool) -> (r: Option<u64>)
        ensures
            !still_enabled ==> r is None && final(self).retry_ms == HEADLESS_RETRY_START_MS,
            still_enabled ==> r == Some(old(self).retry_ms) && final(self).retry_ms == next_retry(old(self).retry_ms),
    {
        if !still_enabled {
            self.retry_ms = HEADLESS_RETRY_START_MS;
            return None;
        }
        let wait = self.retry_ms;
        self.retry_ms = if wait >= HEADLESS_RETRY_MAX_MS / 2 { HEADLESS_RETRY_MAX_MS } else { wait * 2 };
        Some(wait)
    }
}

/// Reconnection delays stay between one and fifteen seconds.
pub proof fn law_reconnect_delay_bounded(p: HeadlessReconnect, still_enabled: bool)
    requires
        HEADLESS_RETRY_START_MS <= p.retry_ms <= HEADLESS_RETRY_MAX_MS,
    ensures
        HEADLESS_RETRY_START_MS <= (if still_enabled { next_retry(p.retry_ms) } else { HEADLESS_RETRY_START_MS })
            <= HEADLESS_RETRY_MAX_MS,
{
}

} // verus!
