//! Local chat commands: `.bot ...` and `.log ...` typed by the player on a configured
//! account are handled by the proxy instead of reaching the server.
use vstd::prelude::*;
use crate::ids::MissionId;

pub mod bot;
pub mod chat;
pub mod log;

verus! {

/// A recognised local command.
#[derive(Clone, Debug, PartialEq, Eq)]
pub enum LocalCommand {
    Bot(bot::BotCommand),
    Log(log::LogCommand),
}

/// Recognise a local command in chat text. Only configured accounts, and only chat
/// families that carry local commands, have them; a log command takes precedence over a
/// bot command; anything else passes through (`Ok(None)`).
pub fn parse_local(
    text: &str,
    family: chat::ChatFamily,
    configured_account: bool,
    mission_id: MissionId,
) -> (r: Result<Option<LocalCommand>, bot::BotCommandError>)
    ensures
        !configured_account || family == chat::ChatFamily::Other ==> r == Ok::<Option<LocalCommand>, bot::BotCommandError>(None),
        configured_account && family != chat::ChatFamily::Other ==> match log::log_command_of(text@) {
            Some(c) => r matches Ok(Some(LocalCommand::Log(l))) && log::log_matches(l, c),
            None => bot::bot_parse_matches(text@, mission_id, match r {
                Ok(Some(LocalCommand::Bot(b))) => Ok(Some(b)),
                Ok(Some(LocalCommand::Log(_))) => Ok(None),
                Ok(None) => Ok(None),
                Err(e) => Err(e),
            }) && !(r matches Ok(Some(LocalCommand::Log(_)))),
        },
{
    if !configured_account || !family.supports_local_commands() {
        return Ok(None);
    }
    if let Some(c) = log::parse(text) {
        return Ok(Some(LocalCommand::Log(c)));
    }
    match bot::parse(text, mission_id) {
        Ok(Some(c)) => Ok(Some(LocalCommand::Bot(c))),
        Ok(None) => Ok(None),
        Err(e) => Err(e),
    }
}

} // verus!
