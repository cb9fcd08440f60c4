//! `.bot` commands: switching the bot on and off, and giving it missions.
use vstd::prelude::*;
use vstd::string::StrSliceExecFns;
use crate::domain::{
    GroupRole, Mission, MissionIntent, PERMISSION_COMBAT, PERMISSION_GROUP, PERMISSION_LOOT,
    PERMISSION_MAINTENANCE, PERMISSION_MOVE,
};
use crate::ids::MissionId;
use crate::text::{
    eq_ignore_case, lower_code, starts_with_ignore_case, str_eq_ignore_case, str_starts_with_ignore_case,
    strip_quotes, strip_quotes_of, trim, trim_of, trim_start, trim_start_of, unicode_whitespace,
};

verus! {

/// A `.bot` command.
#[derive(Clone, Debug, PartialEq, Eq)]
pub enum BotCommand {
    On,
    Off,
    Status,
    Mission(Mission),
}

/// Why a `.bot` command could not be parsed.
#[derive(Clone, Debug, PartialEq, Eq)]
pub enum BotCommandError {
    /// A party or raid mission named a role that does not exist.
    UnsupportedRole(String),
}

impl BotCommandError {
    /// The error as text.
    pub fn message(&self) -> (r: String)
        ensures
            r@ == (match *self {
                BotCommandError::UnsupportedRole(role) => "unsupported group role: "@ + role@,
            }),
    {
        match self {
            BotCommandError::UnsupportedRole(role) => {
                let mut m = String::new();
                m.append("unsupported group role: ");
                m.append(role.as_str());
                assert(m@ =~= "unsupported group role: "@ + role@);
                m
            },
        }
    }
}

/// The permissions of a party or raid mission: move, fight, group, loot and maintain.
pub const GROUP_MISSION_PERMISSIONS: u32 = PERMISSION_MOVE | PERMISSION_COMBAT | PERMISSION_GROUP | PERMISSION_LOOT | PERMISSION_MAINTENANCE;

/// The first whitespace position at or after `i`.
pub open spec fn first_whitespace_from(s: Seq<char>, i: int) -> Option<int>
    decreases s.len() - i,
{
    if i < 0 || i >= s.len() {
        None
    } else if unicode_whitespace(s[i]) {
        Some(i)
    } else {
        first_whitespace_from(s, i + 1)
    }
}

/// The argument of `<command> <argument>` in `rest`: the first word must equal `command`
/// ignoring ASCII case; the argument is the rest, trimmed, without surrounding double
/// quotes, trimmed again, and must not be empty.
pub open spec fn command_arg_of(rest: Seq<char>, command: Seq<char>) -> Option<Seq<char>> {
    match first_whitespace_from(rest, 0) {
        None => None,
        Some(k) => if !eq_ignore_case(rest.subrange(0, k), command) {
            None
        } else {
            let v = trim_of(strip_quotes_of(trim_of(trim_start_of(rest.subrange(k, rest.len() as int)))));
            if v.len() == 0 { None } else { Some(v) }
        },
    }
}

fn first_whitespace(s: &str) -> (r: Option<usize>)
    ensures
        match r {
            Some(k) => first_whitespace_from(s@, 0) == Some(k as int) && k < s@.len(),
            None => first_whitespace_from(s@, 0) is None,
        },
{
    let n = s.unicode_len();
    let mut i: usize = 0;
    while i < n
        invariant
            n == s@.len(),
            i <= n,
            first_whitespace_from(s@, 0) == first_whitespace_from(s@, i as int),
        decreases n - i,
    {
        if crate::text::is_whitespace(s.get_char(i)) {
            return Some(i);
        }
        i = i + 1;
    }
    None
}

/// The argument of `<command> <argument>` in `rest`, if `rest` is that command with a
/// nonempty argument.
pub fn command_arg<'a>(rest: &'a str, command: &str) -> (r: Option<&'a str>)
    ensures
        match (r, command_arg_of(rest@, command@)) {
            (Some(v), Some(w)) => v@ == w,
            (None, None) => true,
            _ => false,
        },
{
    let split = match first_whitespace(rest) {
        Some(k) => k,
        None => return None,
    };
    let head = rest.substring_char(0, split);
    let tail = trim_start(rest.substring_char(split, rest.unicode_len()));
    if !str_eq_ignore_case(head, command) {
        return None;
    }
    let value = trim(strip_quotes(trim(tail)));
    if value.unicode_len() == 0 {
        None
    } else {
        Some(value)
    }
}

/// The group role a word names, ignoring ASCII case.
pub open spec fn role_of(v: Seq<char>) -> Option<GroupRole> {
    if eq_ignore_case(v, "tank"@) {
        Some(GroupRole::Tank)
    } else if eq_ignore_case(v, "healer"@) || eq_ignore_case(v, "heal"@) {
        Some(GroupRole::Healer)
    } else if eq_ignore_case(v, "melee"@) {
        Some(GroupRole::Melee)
    } else if eq_ignore_case(v, "ranged"@) {
        Some(GroupRole::Ranged)
    } else if eq_ignore_case(v, "support"@) {
        Some(GroupRole::Support)
    } else {
        None
    }
}

/// The group role a word names.
pub fn parse_role(value: &str) -> (r: Result<GroupRole, BotCommandError>)
    ensures
        match role_of(value@) {
            Some(role) => r == Ok::<GroupRole, BotCommandError>(role),
            None => r matches Err(BotCommandError::UnsupportedRole(s)) && s@ == value@,
        },
{
    if str_eq_ignore_case(value, "tank") {
        Ok(GroupRole::Tank)
    } else if str_eq_ignore_case(value, "healer") || str_eq_ignore_case(value, "heal") {
        Ok(GroupRole::Healer)
    } else if str_eq_ignore_case(value, "melee") {
        Ok(GroupRole::Melee)
    } else if str_eq_ignore_case(value, "ranged") {
        Ok(GroupRole::Ranged)
    } else if str_eq_ignore_case(value, "support") {
        Ok(GroupRole::Support)
    } else {
        Err(BotCommandError::UnsupportedRole(value.to_owned()))
    }
}

/// A party (or raid) mission in the named role, with the group-mission permissions.
pub fn role_mission(id: MissionId, value: &str, raid: bool) -> (r: Result<Mission, BotCommandError>)
    ensures
        match role_of(value@) {
            Some(role) => r == Ok::<Mission, BotCommandError>(Mission {
                id,
                intent: if raid { MissionIntent::Raid { role } } else { MissionIntent::Party { role } },
                permissions: Some(GROUP_MISSION_PERMISSIONS),
            }),
            None => r matches Err(BotCommandError::UnsupportedRole(s)) && s@ == value@,
        },
{
    let role = match parse_role(value) {
        Ok(role) => role,
        Err(e) => return Err(e),
    };
    let intent = if raid { MissionIntent::Raid { role } } else { MissionIntent::Party { role } };
    Ok(Mission { id, intent, permissions: Some(GROUP_MISSION_PERMISSIONS) })
}

/// The text after `.bot`, trimmed, where the trimmed text begins with `.bot` ignoring
/// ASCII case.
pub open spec fn bot_rest_of(text: Seq<char>) -> Option<Seq<char>> {
    let t = trim_of(text);
    if starts_with_ignore_case(t, ".bot"@) { Some(trim_of(t.subrange(4, t.len() as int))) } else { None }
}

/// Whether a mission with text argument `v` is the one of `kind` (0 gather, 1 grind,
/// 2 goal) with id `id` and default permissions.
pub open spec fn text_mission_matches(m: Mission, id: MissionId, kind: int, v: Seq<char>) -> bool {
    &&& m.id == id
    &&& m.permissions is None
    &&& match m.intent {
        MissionIntent::Gather { resource } => kind == 0 && resource@ == v,
        MissionIntent::Grind { target } => kind == 1 && target@ == v,
        MissionIntent::Goal { goal } => kind == 2 && goal@ == v,
        _ => false,
    }
}

/// Whether `r` is what a party or raid command with role word `v` gives.
pub open spec fn role_outcome(v: Seq<char>, id: MissionId, raid: bool, r: Result<Option<BotCommand>, BotCommandError>) -> bool {
    match role_of(v) {
        Some(role) => r == Ok::<Option<BotCommand>, BotCommandError>(Some(BotCommand::Mission(Mission {
            id,
            intent: if raid { MissionIntent::Raid { role } } else { MissionIntent::Party { role } },
            permissions: Some(GROUP_MISSION_PERMISSIONS),
        }))),
        None => r matches Err(BotCommandError::UnsupportedRole(s)) && s@ == v,
    }
}

/// Whether `r` is what `.bot` parsing gives for `text`: nothing unless the text is a
/// `.bot` command; then `on`, `off`, `status` and `quest`, then the `gather`, `grind`,
/// `goal`, `party` and `raid` commands with their argument, in that order; nothing for
/// anything else.
pub open spec fn bot_parse_matches(text: Seq<char>, id: MissionId, r: Result<Option<BotCommand>, BotCommandError>) -> bool {
    match bot_rest_of(text) {
        None => r == Ok::<Option<BotCommand>, BotCommandError>(None),
        Some(rest) => if eq_ignore_case(rest, "on"@) {
            r == Ok::<Option<BotCommand>, BotCommandError>(Some(BotCommand::On))
        } else if eq_ignore_case(rest, "off"@) {
            r == Ok::<Option<BotCommand>, BotCommandError>(Some(BotCommand::Off))
        } else if eq_ignore_case(rest, "status"@) {
            r == Ok::<Option<BotCommand>, BotCommandError>(Some(BotCommand::Status))
        } else if eq_ignore_case(rest, "quest"@) {
            r == Ok::<Option<BotCommand>, BotCommandError>(Some(BotCommand::Mission(Mission { id, intent: MissionIntent::Quest, permissions: None })))
        } else if let Some(v) = command_arg_of(rest, "gather"@) {
            r matches Ok(Some(BotCommand::Mission(m))) && text_mission_matches(m, id, 0, v)
        } else if let Some(v) = command_arg_of(rest, "grind"@) {
            r matches Ok(Some(BotCommand::Mission(m))) && text_mission_matches(m, id, 1, v)
        } else if let Some(v) = command_arg_of(rest, "goal"@) {
            r matches Ok(Some(BotCommand::Mission(m))) && text_mission_matches(m, id, 2, v)
        } else if let Some(v) = command_arg_of(rest, "party"@) {
            role_outcome(v, id, false, r)
        } else if let Some(v) = command_arg_of(rest, "raid"@) {
            role_outcome(v, id, true, r)
        } else {
            r == Ok::<Option<BotCommand>, BotCommandError>(None)
        },
    }
}

fn wrap_role(m: Result<Mission, BotCommandError>) -> (r: Result<Option<BotCommand>, BotCommandError>)
    ensures
        match m {
            Ok(x) => r == Ok::<Option<BotCommand>, BotCommandError>(Some(BotCommand::Mission(x))),
            Err(e) => r == Err::<Option<BotCommand>, BotCommandError>(e),
        },
{
    match m {
        Ok(x) => Ok(Some(BotCommand::Mission(x))),
        Err(e) => Err(e),
    }
}

/// Recognise a `.bot` command; `mission_id` names a mission it starts.
pub fn parse(text: &str, mission_id: MissionId) -> (r: Result<Option<BotCommand>, BotCommandError>)
    ensures
        bot_parse_matches(text@, mission_id, r),
{
    let trimmed = trim(text);
    if !str_starts_with_ignore_case(trimmed, ".bot") {
        return Ok(None);
    }
    proof {
        reveal_strlit(".bot");
    }
    let rest = trim(trimmed.substring_char(4, trimmed.unicode_len()));
    if str_eq_ignore_case(rest, "on") {
        return Ok(Some(BotCommand::On));
    }
    if str_eq_ignore_case(rest, "off") {
        return Ok(Some(BotCommand::Off));
    }
    if str_eq_ignore_case(rest, "status") {
        return Ok(Some(BotCommand::Status));
    }
    if str_eq_ignore_case(rest, "quest") {
        return Ok(Some(BotCommand::Mission(Mission { id: mission_id, intent: MissionIntent::Quest, permissions: None })));
    }
    if let Some(arg) = command_arg(rest, "gather") {
        return Ok(Some(BotCommand::Mission(Mission {
            id: mission_id,
            intent: MissionIntent::Gather { resource: arg.to_owned() },
            permissions: None,
        })));
    }
    if let Some(arg) = command_arg(rest, "grind") {
        return Ok(Some(BotCommand::Mission(Mission {
            id: mission_id,
            intent: MissionIntent::Grind { target: arg.to_owned() },
            permissions: None,
        })));
    }
    if let Some(arg) = command_arg(rest, "goal") {
        return Ok(Some(BotCommand::Mission(Mission {
            id: mission_id,
            intent: MissionIntent::Goal { goal: arg.to_owned() },
            permissions: None,
        })));
    }
    if let Some(arg) = command_arg(rest, "party") {
        return wrap_role(role_mission(mission_id, arg, false));
    }
    if let Some(arg) = command_arg(rest, "raid") {
        return wrap_role(role_mission(mission_id, arg, true));
    }
    Ok(None)
}

/// The word that names a group role in a `.bot` command.
pub open spec fn role_word(r: GroupRole) -> Seq<char> {
    match r {
        GroupRole::Tank => "tank"@,
        GroupRole::Healer => "healer"@,
        GroupRole::Melee => "melee"@,
        GroupRole::Ranged => "ranged"@,
        GroupRole::Support => "support"@,
    }
}

/// Each role word names the role of the same name: the word of a role, in any ASCII case,
/// is read as that role, and so is `heal` for the healer. No other word names a role unless
/// it is one of these.
pub proof fn law_role_words_name_their_roles(r: GroupRole, v: Seq<char>)
    ensures
        eq_ignore_case(v, role_word(r)) ==> role_of(v) == Some(r),
        eq_ignore_case(v, "heal"@) ==> role_of(v) == Some(GroupRole::Healer),
        role_of(v) == Some(r) ==> eq_ignore_case(v, role_word(r))
            || (r == GroupRole::Healer && eq_ignore_case(v, "heal"@)),
{
    reveal_strlit("tank");
    reveal_strlit("healer");
    reveal_strlit("heal");
    reveal_strlit("melee");
    reveal_strlit("ranged");
    reveal_strlit("support");
    assert("tank"@.len() == 4 && "tank"@[0] == 't');
    assert("heal"@.len() == 4 && "heal"@[0] == 'h');
    assert("healer"@.len() == 6 && "healer"@[0] == 'h');
    assert("melee"@.len() == 5 && "melee"@[0] == 'm');
    assert("ranged"@.len() == 6 && "ranged"@[0] == 'r');
    assert("support"@.len() == 7 && "support"@[0] == 's');
    assert(lower_code('t') == 116 && lower_code('h') == 104 && lower_code('r') == 114);
    if v.len() > 0 {
        let c = lower_code(v[0]);
        assert(eq_ignore_case(v, "tank"@) ==> c == 116);
        assert(eq_ignore_case(v, "heal"@) ==> c == 104);
        assert(eq_ignore_case(v, "healer"@) ==> c == 104);
        assert(eq_ignore_case(v, "ranged"@) ==> c == 114);
    }
}

} // verus!
