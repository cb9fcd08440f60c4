//! Chat families and the local-command namespace.
use vstd::prelude::*;
use crate::text::{eq_ignore_case, starts_with_ignore_case, str_eq_ignore_case, str_starts_with_ignore_case, trim_start, trim_start_of};

verus! {

/// The chat channel a message came through.
#[derive(Clone, Copy, Debug, PartialEq, Eq, Structural)]
pub enum ChatFamily {
    Say,
    Yell,
    Party,
    Raid,
    Guild,
    Whisper,
    Emote,
    RaidWarning,
    Battleground,
    Other,
}

impl ChatFamily {
    /// Whether messages of this family can carry local commands: all but `Other`.
    pub fn supports_local_commands(self) -> (r: bool)
        ensures
            r == (self != ChatFamily::Other),
    {
        !matches!(self, ChatFamily::Other)
    }
}

/// Whether text, after leading whitespace and ignoring ASCII case, is `.bot` or `.log`
/// alone or followed by a space.
pub open spec fn local_namespace(text: Seq<char>) -> bool {
    let t = trim_start_of(text);
    ||| starts_with_ignore_case(t, ".bot "@)
    ||| eq_ignore_case(t, ".bot"@)
    ||| starts_with_ignore_case(t, ".log "@)
    ||| eq_ignore_case(t, ".log"@)
}

/// Whether text is in the local-command namespace.
pub fn is_local_namespace(text: &str) -> (r: bool)
    ensures
        r == local_namespace(text@),
{
    let t = trim_start(text);
    str_starts_with_ignore_case(t, ".bot ") || str_eq_ignore_case(t, ".bot")
        || str_starts_with_ignore_case(t, ".log ") || str_eq_ignore_case(t, ".log")
}

} // verus!
