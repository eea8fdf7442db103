//! The textual commands that clients send to the service.

use vstd::prelude::*;
use vstd::string::*;

verus! {

/// One command of a client.
#[derive(Clone, Debug, PartialEq, Eq)]
pub enum Command {
    /// `debug=on`: log more.
    DebugOn,
    /// `debug=off`: log less.
    DebugOff,
    /// `reset_custom_colors`: switch every key off.
    ResetCustomColors,
    /// `set_led_animation=` and the animation as JSON.
    SetLedAnimation(String),
    /// `set_custom_colors=` and the color table as JSON.
    SetCustomColors(String),
    /// Anything else; it is ignored.
    Invalid,
}

/// The mathematical value of a [`Command`].
pub enum CommandView {
    DebugOn,
    DebugOff,
    ResetCustomColors,
    SetLedAnimation(Seq<char>),
    SetCustomColors(Seq<char>),
    Invalid,
}

impl View for Command {
    type V = CommandView;

    open spec fn view(&self) -> CommandView {
        match self {
            Command::DebugOn => CommandView::DebugOn,
            Command::DebugOff => CommandView::DebugOff,
            Command::ResetCustomColors => CommandView::ResetCustomColors,
            Command::SetLedAnimation(json) => CommandView::SetLedAnimation(json@),
            Command::SetCustomColors(json) => CommandView::SetCustomColors(json@),
            Command::Invalid => CommandView::Invalid,
        }
    }
}

/// The command that a message holds. A message is told by how it begins;
/// what follows the name of a command without parameters is ignored, and
/// what follows the `=` of one with parameters is its JSON text.
pub open spec fn command_of(msg: Seq<char>) -> CommandView {
    if "debug=on"@.is_prefix_of(msg) {
        CommandView::DebugOn
    } else if "debug=off"@.is_prefix_of(msg) {
        CommandView::DebugOff
    } else if "reset_custom_colors"@.is_prefix_of(msg) {
        CommandView::ResetCustomColors
    } else if "set_led_animation="@.is_prefix_of(msg) {
        CommandView::SetLedAnimation(msg.skip("set_led_animation="@.len() as int))
    } else if "set_custom_colors="@.is_prefix_of(msg) {
        CommandView::SetCustomColors(msg.skip("set_custom_colors="@.len() as int))
    } else {
        CommandView::Invalid
    }
}

/// What follows `prefix` in `text`, if `text` begins with `prefix`.
pub fn strip_prefix<'a>(text: &'a str, prefix: &str) -> (rest: Option<&'a str>)
    ensures
        match rest {
            Some(rest) => prefix@.is_prefix_of(text@) && rest@ == text@.skip(prefix@.len() as int),
            None => !prefix@.is_prefix_of(text@),
        },
{
    let text_len = text.unicode_len();
    let prefix_len = prefix.unicode_len();
    if prefix_len > text_len {
        return None;
    }
    let mut i: usize = 0;
    while i < prefix_len
        invariant
            i <= prefix_len <= text_len,
            prefix_len == prefix@.len(),
            text_len == text@.len(),
            forall|k: int| 0 <= k < i ==> prefix@[k] == text@[k],
        decreases prefix_len - i,
    {
        if text.get_char(i) != prefix.get_char(i) {
            assert(text@.subrange(0, prefix@.len() as int)[i as int] != prefix@[i as int]);
            return None;
        }
        i += 1;
    }
    assert(prefix@ =~= text@.subrange(0, prefix@.len() as int));
    let rest = text.substring_char(prefix_len, text_len);
    assert(rest@ =~= text@.skip(prefix@.len() as int));
    Some(rest)
}

/// Tell which command a message holds.
pub fn parse_command(msg: &str) -> (command: Command)
    ensures
        command@ == command_of(msg@),
{
    if strip_prefix(msg, "debug=on").is_some() {
        return Command::DebugOn;
    }
    if strip_prefix(msg, "debug=off").is_some() {
        return Command::DebugOff;
    }
    if strip_prefix(msg, "reset_custom_colors").is_some() {
        return Command::ResetCustomColors;
    }
    if let Some(params) = strip_prefix(msg, "set_led_animation=") {
        return Command::SetLedAnimation(String::from_str(params));
    }
    if let Some(params) = strip_prefix(msg, "set_custom_colors=") {
        return Command::SetCustomColors(String::from_str(params));
    }
    Command::Invalid
}

} // verus!
