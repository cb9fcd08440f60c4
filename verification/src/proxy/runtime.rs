//! Decisions of the proxy runtime around the world connection: chat extraction, cast
//! correlation, the movement context of bot commands, the headless keepalive and player
//! world handoff.
use vstd::prelude::*;
use std::collections::BTreeSet;
use crate::bytes::{push_u32, read_u32_at, read_u64_at, u32_at, u32_bytes, u64_at};
use crate::domain::{GameplayCommand, WorldPosition};
use crate::ids::EntityId;
use crate::proxy::commands::chat::ChatFamily;
use crate::proxy::framing::ClientFrame;
use crate::text::{eq_ignore_case, read_cstring, str_eq_ignore_case, text_at, trim, trim_of};
use vstd::utf8::{decode_utf8, encode_utf8};

verus! {

broadcast use vstd::std_specs::btree::group_btree_axioms;

// ----- chat -----

/// The chat family of a chat type.
pub open spec fn family_of(chat_type: u32) -> ChatFamily {
    if chat_type == 1 || chat_type == 17 || chat_type == 23 || chat_type == 24 {
        ChatFamily::Say
    } else if chat_type == 2 || chat_type == 51 {
        ChatFamily::Party
    } else if chat_type == 3 || chat_type == 39 {
        ChatFamily::Raid
    } else if chat_type == 4 || chat_type == 5 {
        ChatFamily::Guild
    } else if chat_type == 6 {
        ChatFamily::Yell
    } else if chat_type == 7 {
        ChatFamily::Whisper
    } else if chat_type == 10 {
        ChatFamily::Emote
    } else if chat_type == 40 {
        ChatFamily::RaidWarning
    } else if chat_type == 44 || chat_type == 45 {
        ChatFamily::Battleground
    } else {
        ChatFamily::Other
    }
}

/// The chat types whose message follows directly.
pub open spec fn direct_chat(chat_type: u32) -> bool {
    chat_type == 1 || chat_type == 2 || chat_type == 3 || chat_type == 4 || chat_type == 5 || chat_type == 6
        || chat_type == 10 || chat_type == 23 || chat_type == 24 || chat_type == 39 || chat_type == 40
        || chat_type == 44 || chat_type == 45 || chat_type == 51
}

/// The chat types whose message follows a target or channel name (whisper and channel).
pub open spec fn addressed_chat(chat_type: u32) -> bool {
    chat_type == 7 || chat_type == 17
}

/// The message bytes of a client chat packet: chat type, language, then the message (for
/// whispers and channels after the target or channel name).
pub open spec fn chat_message_of(body: Seq<u8>) -> Option<(ChatFamily, Seq<u8>)> {
    if body.len() < 4 {
        None
    } else {
        let t = u32_at(body, 0);
        if direct_chat(t) {
            match text_at(body, 8) {
                Some((m, _)) => Some((family_of(t), m)),
                None => None,
            }
        } else if addressed_chat(t) {
            match text_at(body, 8) {
                Some((_, n)) => match text_at(body, n) {
                    Some((m, _)) => Some((family_of(t), m)),
                    None => None,
                },
                None => None,
            }
        } else {
            None
        }
    }
}

fn chat_family(chat_type: u32) -> (r: ChatFamily)
    ensures
        r == family_of(chat_type),
{
    if chat_type == 1 || chat_type == 17 || chat_type == 23 || chat_type == 24 {
        ChatFamily::Say
    } else if chat_type == 2 || chat_type == 51 {
        ChatFamily::Party
    } else if chat_type == 3 || chat_type == 39 {
        ChatFamily::Raid
    } else if chat_type == 4 || chat_type == 5 {
        ChatFamily::Guild
    } else if chat_type == 6 {
        ChatFamily::Yell
    } else if chat_type == 7 {
        ChatFamily::Whisper
    } else if chat_type == 10 {
        ChatFamily::Emote
    } else if chat_type == 40 {
        ChatFamily::RaidWarning
    } else if chat_type == 44 || chat_type == 45 {
        ChatFamily::Battleground
    } else {
        ChatFamily::Other
    }
}

/// The family and message of a client chat packet.
pub fn proxy_chat(body: &[u8]) -> (r: Option<(ChatFamily, String)>)
    ensures
        match (r, chat_message_of(body@)) {
            (Some((f, m)), Some((g, bytes))) => f == g && encode_utf8(m@) == bytes,
            (None, None) => true,
            _ => false,
        },
{
    let chat_type = match read_u32_at(body, 0) {
        Some(t) => t,
        None => return None,
    };
    let family = chat_family(chat_type);
    let direct = chat_type == 1 || chat_type == 2 || chat_type == 3 || chat_type == 4 || chat_type == 5
        || chat_type == 6 || chat_type == 10 || chat_type == 23 || chat_type == 24 || chat_type == 39
        || chat_type == 40 || chat_type == 44 || chat_type == 45 || chat_type == 51;
    if direct {
        match read_cstring(body, 8) {
            Some((m, _)) => Some((family, m)),
            None => None,
        }
    } else if chat_type == 7 || chat_type == 17 {
        let n = match read_cstring(body, 8) {
            Some((_, n)) => n,
            None => return None,
        };
        match read_cstring(body, n) {
            Some((m, _)) => Some((family, m)),
            None => None,
        }
    } else {
        None
    }
}

// ----- casts and movement context -----

/// The spell and target of a bot command that casts at a target, for correlating a later
/// cast failure.
pub open spec fn targeted_cast_of(c: GameplayCommand) -> Option<(u32, Option<EntityId>)> {
    match c {
        GameplayCommand::Cast { spell, target } => Some((spell, target)),
        GameplayCommand::VehicleCast { spell, target } => Some((spell, target)),
        GameplayCommand::MaintainBuff { spell, target } => Some((spell, Some(target))),
        GameplayCommand::CastGameObject { spell, target, .. } => Some((spell, Some(target))),
        GameplayCommand::UseItemInstance { spell, target, .. } => if spell != 0 { Some((spell, target)) } else { None },
        _ => None,
    }
}

/// The spell and target of a bot command that casts.
pub fn bot_targeted_cast(command: &GameplayCommand) -> (r: Option<(u32, Option<EntityId>)>)
    ensures
        r == targeted_cast_of(*command),
{
    match command {
        GameplayCommand::Cast { spell, target } => Some((*spell, *target)),
        GameplayCommand::VehicleCast { spell, target } => Some((*spell, *target)),
        GameplayCommand::MaintainBuff { spell, target } => Some((*spell, Some(*target))),
        GameplayCommand::CastGameObject { spell, target, .. } => Some((*spell, Some(*target))),
        GameplayCommand::UseItemInstance { spell, target, .. } => if *spell != 0 { Some((*spell, *target)) } else { None },
        _ => None,
    }
}

/// What bot movement acts on: the controlled mover where there is one, else the player.
#[derive(Clone, Copy, Debug, PartialEq, Eq, Structural)]
pub struct GameplayMovementContext {
    pub mover: Option<EntityId>,
    pub position: Option<WorldPosition>,
    pub flags: u32,
}

/// The movement context: the controlled mover and its position take precedence, each
/// falling back to the player's; the flags are the mover's where there is a mover.
pub fn gameplay_movement_context(
    controlled_mover: Option<EntityId>,
    controlled_position: Option<WorldPosition>,
    controlled_flags: u32,
    player_guid: Option<EntityId>,
    player_position: Option<WorldPosition>,
    player_flags: u32,
) -> (r: GameplayMovementContext)
    ensures
        r.mover == (if controlled_mover is Some { controlled_mover } else { player_guid }),
        r.position == (if controlled_position is Some { controlled_position } else { player_position }),
        r.flags == (if controlled_mover is Some { controlled_flags } else { player_flags }),
{
    GameplayMovementContext {
        mover: match controlled_mover {
            Some(m) => Some(m),
            None => player_guid,
        },
        position: match controlled_position {
            Some(p) => Some(p),
            None => player_position,
        },
        flags: if controlled_mover.is_some() { controlled_flags } else { player_flags },
    }
}

// ----- keepalive -----

/// The client ping opcode.
pub const CMSG_PING: u32 = 0x01DC;
/// The server's answer to a ping.
pub const SMSG_PONG: u16 = 0x01DD;

/// The keepalive ping of a headless session: sequence, then latency.
pub fn make_headless_ping(sequence: u32, latency_ms: u32) -> (r: ClientFrame)
    ensures
        r.opcode == CMSG_PING,
        r.body@ == u32_bytes(sequence) + u32_bytes(latency_ms),
{
    let mut body: Vec<u8> = Vec::new();
    push_u32(&mut body, sequence);
    push_u32(&mut body, latency_ms);
    ClientFrame { opcode: CMSG_PING, body }
}

/// The sequence of a pong.
pub fn parse_headless_pong(body: &[u8]) -> (r: Option<u32>)
    ensures
        r == (if body@.len() >= 4 { Some(u32_at(body@, 0)) } else { None::<u32> }),
{
    read_u32_at(body, 0)
}

/// A ping answered by its pong carries the same sequence.
pub proof fn law_pong_answers_ping(sequence: u32, latency_ms: u32)
    ensures
        ({
            let body = u32_bytes(sequence) + u32_bytes(latency_ms);
            body.len() >= 4 && u32_at(body, 0) == sequence
        }),
{
    crate::bytes::lemma_u32_roundtrip(sequence);
    let body = u32_bytes(sequence) + u32_bytes(latency_ms);
    assert(body[0] == u32_bytes(sequence)[0] && body[1] == u32_bytes(sequence)[1]);
    assert(body[2] == u32_bytes(sequence)[2] && body[3] == u32_bytes(sequence)[3]);
}

// ----- player world handoff -----

/// The player world connections of an account. While any is open the headless session
/// stays off.
#[derive(Clone, Debug)]
pub struct PlayerWorlds {
    pub next_id: u64,
    pub active: BTreeSet<u64>,
}

impl PlayerWorlds {
    /// No connection yet.
    pub fn new() -> (r: Self)
        ensures
            r.next_id == 0,
            r.active@ == Set::<u64>::empty(),
    {
        PlayerWorlds { next_id: 0, active: BTreeSet::new() }
    }

    /// A player world connection opens: it gets the next identifier and the headless
    /// session must stop. Identifiers are never reused.
    pub fn begin(&mut self) -> (connection: u64)
        requires
            old(self).next_id < u64::MAX,
        ensures
            connection == old(self).next_id + 1,
            final(self).next_id == connection,
            final(self).active@ == old(self).active@.insert(connection),
    {
        self.next_id = self.next_id + 1;
        let connection = self.next_id;
        self.active.insert(connection);
        connection
    }

    /// A player world connection closes; gives whether the headless session may resume,
    /// that is whether no player connection remains.
    pub fn end(&mut self, connection: u64) -> (headless: bool)
        ensures
            final(self).next_id == old(self).next_id,
            final(self).active@ == old(self).active@.remove(connection),
            headless == final(self).active@.is_empty(),
    {
        self.active.remove(&connection);
        self.active.is_empty()
    }
}

/// The headless session resumes only when the last of overlapping player connections
/// closes.
pub proof fn law_headless_waits_for_last_connection(active: Set<u64>, a: u64, b: u64)
    requires
        active.contains(a),
        active.contains(b),
        a != b,
    ensures
        !active.remove(a).is_empty(),
{
    assert(active.remove(a).contains(b));
}

// ----- character selection -----

/// The bytes of a character-list entry after the name: gender through the equipment.
pub const CHARACTER_TAIL: usize = 261;

/// The character chosen from the entries of a character list from `at`, `left` entries
/// remaining: each entry is a GUID, a name and a fixed tail. The first entry whose name
/// equals the wanted name ignoring ASCII case is chosen at once; with no wanted name (or a
/// blank one) the first entry is chosen once the list has been read; a malformed list, or
/// a wanted name that no entry has, chooses none.
pub open spec fn pick_character(
    body: Seq<u8>,
    at: int,
    left: nat,
    wanted: Option<Seq<char>>,
    first: Option<(u64, Seq<char>)>,
) -> Option<(u64, Seq<char>)>
    decreases left,
{
    if left == 0 {
        match wanted {
            None => first,
            Some(w) => if trim_of(w).len() == 0 { first } else { None },
        }
    } else if at + 8 > body.len() {
        None
    } else {
        let guid = u64_at(body, at);
        match text_at(body, at + 8) {
            None => None,
            Some((t, next)) => {
                let name = decode_utf8(t);
                let first2 = match first {
                    None => Some((guid, name)),
                    Some(f) => Some(f),
                };
                if wanted matches Some(w) && eq_ignore_case(name, w) {
                    Some((guid, name))
                } else if next + CHARACTER_TAIL > body.len() {
                    None
                } else {
                    pick_character(body, next + CHARACTER_TAIL, (left - 1) as nat, wanted, first2)
                }
            },
        }
    }
}

/// The character a character list (count, entries) chooses for a wanted name.
pub open spec fn chosen_character(body: Seq<u8>, wanted: Option<Seq<char>>) -> Option<(u64, Seq<char>)> {
    if body.len() == 0 {
        None
    } else {
        pick_character(body, 1, body[0] as nat, wanted, None)
    }
}

/// A name option as characters.
pub open spec fn wanted_view(configured: Option<&str>) -> Option<Seq<char>> {
    match configured {
        Some(s) => Some(s@),
        None => None,
    }
}

/// A chosen character as values.
pub open spec fn pick_view(p: Option<(u64, String)>) -> Option<(u64, Seq<char>)> {
    match p {
        Some((g, s)) => Some((g, s@)),
        None => None,
    }
}

/// Whether the wanted name is absent or blank.
fn no_wanted_name(configured: Option<&str>) -> (r: bool)
    ensures
        r == match wanted_view(configured) {
            None => true,
            Some(w) => trim_of(w).len() == 0,
        },
{
    match configured {
        Some(w) => trim(w).unicode_len() == 0,
        None => true,
    }
}

/// The character chosen from the entries from `at` (see [`pick_character`]).
fn pick_from(body: &[u8], at: usize, left: u8, configured: Option<&str>, first: Option<(u64, String)>) -> (r: Option<(u64, String)>)
    requires
        at <= body@.len(),
    ensures
        pick_view(r) == pick_character(body@, at as int, left as nat, wanted_view(configured), pick_view(first)),
    decreases left,
{
    if left == 0 {
        return if no_wanted_name(configured) { first } else { None };
    }
    if body.len() - at < 8 {
        return None;
    }
    let guid = match read_u64_at(body, at) {
        Some(g) => g,
        None => return None,
    };
    let (name, next) = match read_cstring(body, at + 8) {
        Some(p) => p,
        None => return None,
    };
    proof {
        vstd::utf8::encode_utf8_decode_utf8(name@);
    }
    let matched = match configured {
        Some(w) => str_eq_ignore_case(name.as_str(), w),
        None => false,
    };
    let first2 = match first {
        Some(f) => Some(f),
        None => Some((guid, name.clone())),
    };
    if matched {
        return Some((guid, name));
    }
    if body.len() - next < CHARACTER_TAIL {
        return None;
    }
    pick_from(body, next + CHARACTER_TAIL, left - 1, configured, first2)
}

/// Choose the character to enter the world with from a character list (see
/// [`chosen_character`]): its GUID and name.
pub fn select_wrath_character(body: &[u8], configured: Option<&str>) -> (r: Option<(u64, String)>)
    ensures
        pick_view(r) == chosen_character(body@, wanted_view(configured)),
{
    if body.len() == 0 {
        return None;
    }
    pick_from(body, 1, body[0], configured, None)
}

} // verus!
