use crate::analysis::{now_timestamp, Message, MessageLevel, Timestamp};
use crate::text::{
    append_chars, chars_of, join, join_chars, string_from_chars,
};
use crate::tool::command_error::{output_tail_text, ToolCommandError};
use crate::tool::install_failure::message_ty_text;
use vstd::prelude::*;

verus! {

/// An error as a chain of causes, outermost first, each as it is
/// displayed, with the command error found in the chain if there is one.
#[derive(Debug)]
pub struct ErrorReport {
    pub causes: Vec<String>,
    pub command_error: Option<ToolCommandError>,
}

/// The causes of `e` as text, outermost first.
pub open spec fn causes_text(e: &ErrorReport) -> Seq<Seq<char>> {
    e.causes@.map_values(|s: String| s@)
}

/// The details of an installation failure: the error and the tail of the
/// failed command's output when there is one, else the whole cause chain.
pub open spec fn install_error_details_text(
    causes: Seq<Seq<char>>,
    command_error: Option<ToolCommandError>,
) -> Seq<char> {
    match command_error {
        Some(c) if output_tail_text(c.stdout@, c.stderr@).len() > 0 => causes[0] + "\n\n"@
            + output_tail_text(c.stdout@, c.stderr@),
        _ => join(causes, ": "@),
    }
}

/// The headline of an installation failure of tool `name`.
pub open spec fn install_error_headline(name: Seq<char>, command_error: Option<ToolCommandError>) -> Seq<char> {
    match command_error {
        Some(c) if c.failure is Some => "Error installing tool "@ + name + ": "@
            + c.failure->0.summary@,
        _ => "Error installing tool "@ + name,
    }
}

/// The message type of an installation failure.
pub open spec fn install_error_ty(command_error: Option<ToolCommandError>) -> Seq<char> {
    match command_error {
        Some(c) if c.failure is Some => message_ty_text(c.failure->0.kind),
        _ => "executor.install.error"@,
    }
}

/// The value an optional reference points to.
pub open spec fn deref_opt(c: Option<&ToolCommandError>) -> Option<ToolCommandError> {
    match c {
        Some(r) => Some(*r),
        None => None,
    }
}

/// The details reported for a failed installation.
pub fn install_error_details(error: &ErrorReport, command_error: Option<&ToolCommandError>) -> (d:
    String)
    requires
        error.causes@.len() > 0,
    ensures
        d@ == install_error_details_text(causes_text(error), deref_opt(command_error)),
{
    let ghost causes = causes_text(error);
    if let Some(c) = command_error {
        let tail = c.output_tail();
        let tail_chars = chars_of(tail.as_str());
        if tail_chars.len() > 0 {
            let mut out = chars_of(error.causes[0].as_str());
            let sep = chars_of("\n\n");
            append_chars(&mut out, sep.as_slice());
            append_chars(&mut out, tail_chars.as_slice());
            return string_from_chars(out.as_slice());
        }
    }
    let mut parts: Vec<Vec<char>> = Vec::new();
    let mut i: usize = 0;
    while i < error.causes.len()
        invariant
            i <= error.causes@.len(),
            causes == causes_text(error),
            parts@.map_values(|v: Vec<char>| v@) == causes.take(i as int),
        decreases error.causes@.len() - i,
    {
        let p = chars_of(error.causes[i].as_str());
        let ghost before = parts@;
        parts.push(p);
        assert(parts@.map_values(|v: Vec<char>| v@) =~= before.map_values(|v: Vec<char>| v@).push(causes[i as int]));
        assert(causes.take(i + 1) =~= causes.take(i as int).push(causes[i as int]));
        i = i + 1;
    }
    assert(causes.take(error.causes@.len() as int) =~= causes);
    let sep = chars_of(": ");
    let joined = join_chars(parts.as_slice(), sep.as_slice());
    string_from_chars(joined.as_slice())
}

/// The message reported when tool `name` failed to install with `error`:
/// a headline that carries the recognised failure's summary, its message
/// type, and the details of the error.
pub fn install_error_message(name: &str, error: &ErrorReport) -> (m: Message)
    requires
        error.causes@.len() > 0,
    ensures
        m.module@ == "qlty_check::executor"@,
        m.level == MessageLevel::Error,
        m.timestamp is Some,
        m.message@ == install_error_headline(name@, error.command_error),
        m.ty@ == install_error_ty(error.command_error),
        m.details@ == install_error_details_text(causes_text(error), error.command_error),
{
    let command_error = error.command_error.as_ref();
    let mut message = chars_of("Error installing tool ");
    let n = chars_of(name);
    append_chars(&mut message, n.as_slice());
    let details = install_error_details(error, command_error);
    let mut ty = chars_of("executor.install.error");
    if let Some(c) = command_error {
        if let Some(failure) = &c.failure {
            let sep = chars_of(": ");
            append_chars(&mut message, sep.as_slice());
            let summary = chars_of(failure.summary.as_str());
            append_chars(&mut message, summary.as_slice());
            ty = chars_of(failure.kind.message_ty());
        }
    }
    let timestamp: Timestamp = now_timestamp();
    Message {
        timestamp: Some(timestamp),
        module: string_from_chars(chars_of("qlty_check::executor").as_slice()),
        ty: string_from_chars(ty.as_slice()),
        level: MessageLevel::Error,
        message: string_from_chars(message.as_slice()),
        details,
    }
}

} // verus!
