//! `.log` commands: action logging control.
use vstd::prelude::*;
use vstd::string::StrSliceExecFns;
use crate::text::{drop_trailing_whitespace, eq_ignore_case, lower_code, skip_whitespace, starts_with_ignore_case, str_eq_ignore_case, str_starts_with_ignore_case, trim, trim_of, trim_start_of};
use crate::proxy::commands::chat::local_namespace;

verus! {

/// An action-logging command.
#[derive(Clone, Debug, PartialEq, Eq)]
pub enum LogCommand {
    Start,
    Stop,
    Status,
    /// Write a marker, with an optional label.
    Mark(Option<String>),
}

/// What a `.log` command asks for, with the marker label as characters.
pub open spec fn log_command_of(text: Seq<char>) -> Option<(int, Option<Seq<char>>)> {
    let t = trim_of(text);
    if eq_ignore_case(t, ".log start"@) {
        Some((0, None))
    } else if eq_ignore_case(t, ".log stop"@) {
        Some((1, None))
    } else if eq_ignore_case(t, ".log status"@) {
        Some((2, None))
    } else if eq_ignore_case(t, ".log mark"@) {
        Some((3, None))
    } else if starts_with_ignore_case(t, ".log mark "@) {
        Some((3, Some(trim_of(t.subrange(10, t.len() as int)))))
    } else {
        None
    }
}

/// Whether a command is the one described.
pub open spec fn log_matches(c: LogCommand, d: (int, Option<Seq<char>>)) -> bool {
    match c {
        LogCommand::Start => d.0 == 0,
        LogCommand::Stop => d.0 == 1,
        LogCommand::Status => d.0 == 2,
        LogCommand::Mark(label) => d.0 == 3 && match (label, d.1) {
            (None, None) => true,
            (Some(s), Some(t)) => s@ == t,
            _ => false,
        },
    }
}

/// Recognise a `.log` command (trimmed, ASCII case ignored): `start`, `stop`, `status`,
/// `mark` or `mark <label>`.
pub fn parse(text: &str) -> (r: Option<LogCommand>)
    ensures
        match (r, log_command_of(text@)) {
            (Some(c), Some(d)) => log_matches(c, d),
            (None, None) => true,
            _ => false,
        },
{
    let t = trim(text);
    if str_eq_ignore_case(t, ".log start") {
        Some(LogCommand::Start)
    } else if str_eq_ignore_case(t, ".log stop") {
        Some(LogCommand::Stop)
    } else if str_eq_ignore_case(t, ".log status") {
        Some(LogCommand::Status)
    } else if str_eq_ignore_case(t, ".log mark") {
        Some(LogCommand::Mark(None))
    } else if str_starts_with_ignore_case(t, ".log mark ") {
        proof {
            reveal_strlit(".log mark ");
        }
        let label = trim(t.substring_char(10, t.unicode_len()));
        Some(LogCommand::Mark(Some(label.to_owned())))
    } else {
        None
    }
}

proof fn lemma_skip_bounds(s: Seq<char>, i: int)
    requires
        0 <= i <= s.len(),
    ensures
        i <= skip_whitespace(s, i) <= s.len(),
    decreases s.len() - i,
{
    if i < s.len() && crate::text::unicode_whitespace(s[i]) {
        lemma_skip_bounds(s, i + 1);
    }
}

proof fn lemma_drop_bounds(s: Seq<char>, j: int)
    requires
        0 <= j <= s.len(),
    ensures
        0 <= drop_trailing_whitespace(s, j) <= j,
    decreases j,
{
    if j > 0 && crate::text::unicode_whitespace(s[j - 1]) {
        lemma_drop_bounds(s, j - 1);
    }
}

/// Text whose trimmed form begins, ignoring ASCII case, with `.log ` is in the local
/// namespace.
proof fn lemma_trimmed_log_prefix(text: Seq<char>)
    requires
        trim_of(text).len() >= 5,
        forall|i: int| 0 <= i < 5 ==> lower_code(#[trigger] trim_of(text)[i]) == lower_code(".log "@[i]),
    ensures
        local_namespace(text),
{
    reveal_strlit(".log ");
    let a = skip_whitespace(text, 0);
    let b = drop_trailing_whitespace(text, text.len() as int);
    lemma_skip_bounds(text, 0);
    lemma_drop_bounds(text, text.len() as int);
    let t = trim_of(text);
    let ts = trim_start_of(text);
    assert(b > a);
    assert forall|i: int| 0 <= i < 5 implies lower_code(#[trigger] ts.subrange(0, 5)[i]) == lower_code(".log "@[i]) by {
        assert(ts.subrange(0, 5)[i] == text[a + i]);
        assert(t[i] == text[a + i]);
    }
    assert(starts_with_ignore_case(ts, ".log "@));
}

/// A recognised `.log` command is in the local-command namespace.
pub proof fn law_log_commands_are_local(text: Seq<char>)
    ensures
        log_command_of(text) is Some ==> local_namespace(text),
{
    reveal_strlit(".log ");
    reveal_strlit(".log start");
    reveal_strlit(".log stop");
    reveal_strlit(".log status");
    reveal_strlit(".log mark");
    reveal_strlit(".log mark ");
    let t = trim_of(text);
    if log_command_of(text) is Some {
        if starts_with_ignore_case(t, ".log mark "@) && !eq_ignore_case(t, ".log mark"@) && !eq_ignore_case(t, ".log status"@)
            && !eq_ignore_case(t, ".log stop"@) && !eq_ignore_case(t, ".log start"@) {
            assert forall|i: int| 0 <= i < 5 implies lower_code(#[trigger] t[i]) == lower_code(".log "@[i]) by {
                assert(t.subrange(0, 10)[i] == t[i]);
            }
        }
        lemma_trimmed_log_prefix(text);
    }
}

} // verus!
