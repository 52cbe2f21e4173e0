//! Commands the user types, one per line.

use vstd::prelude::*;
use vstd::string::*;
use crate::text::{trim, trimmed};

verus! {

/// Milliseconds that one seek command moves the position by.
pub const SEEK_STEP_MS: u32 = 10_000;

/// A parsed line of user input.
#[derive(Clone, Debug, PartialEq, Eq)]
pub enum Command {
    /// Pause if playing, play otherwise.
    TogglePause,
    /// Seek forward by this many milliseconds.
    SeekForward(u32),
    /// Seek backward by this many milliseconds.
    SeekBackward(u32),
    /// Stop the player.
    Quit,
    /// Anything else; holds the line without surrounding white space.
    Unknown(String),
}

/// A command with its text as a sequence of characters.
pub enum CommandView {
    TogglePause,
    SeekForward(u32),
    SeekBackward(u32),
    Quit,
    Unknown(Seq<char>),
}

impl View for Command {
    type V = CommandView;

    open spec fn view(&self) -> CommandView {
        match self {
            Command::TogglePause => CommandView::TogglePause,
            Command::SeekForward(d) => CommandView::SeekForward(*d),
            Command::SeekBackward(d) => CommandView::SeekBackward(*d),
            Command::Quit => CommandView::Quit,
            Command::Unknown(t) => CommandView::Unknown(t@),
        }
    }
}

/// The command that a non-empty trimmed line `t` selects by its first
/// character, whatever follows it.
pub open spec fn command_of(t: Seq<char>) -> CommandView
    recommends
        t.len() > 0,
{
    let c = t[0];
    if c == 'p' || c == 'P' {
        CommandView::TogglePause
    } else if c == 's' || c == 'S' {
        CommandView::SeekForward(SEEK_STEP_MS)
    } else if c == 'r' || c == 'R' {
        CommandView::SeekBackward(SEEK_STEP_MS)
    } else if c == 'q' || c == 'Q' {
        CommandView::Quit
    } else {
        CommandView::Unknown(t)
    }
}

/// What a line of input means: nothing if it is blank, else the command
/// that its first character after the leading white space selects.
pub open spec fn spec_parse(line: Seq<char>) -> Option<CommandView> {
    let t = trimmed(line);
    if t.len() == 0 {
        None
    } else {
        Some(command_of(t))
    }
}

/// The view of an optional command.
pub open spec fn option_command_view(c: Option<Command>) -> Option<CommandView> {
    match c {
        Some(c) => Some(c@),
        None => None,
    }
}

/// Parses one line of input. A blank line gives `None`.
pub fn parse_command(line: &str) -> (r: Option<Command>)
    ensures
        option_command_view(r) == spec_parse(line@),
{
    let t: &str = trim(line);
    if t.unicode_len() == 0 {
        return None;
    }
    let c: char = t.get_char(0);
    let cmd: Command = if c == 'p' || c == 'P' {
        Command::TogglePause
    } else if c == 's' || c == 'S' {
        Command::SeekForward(SEEK_STEP_MS)
    } else if c == 'r' || c == 'R' {
        Command::SeekBackward(SEEK_STEP_MS)
    } else if c == 'q' || c == 'Q' {
        Command::Quit
    } else {
        Command::Unknown(String::from_str(t))
    };
    Some(cmd)
}

} // verus!
