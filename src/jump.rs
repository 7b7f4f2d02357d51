//! Key handling while jump mode is active.
use vstd::prelude::*;

verus! {

/// A key press, as the input layer reports it.
#[derive(Clone, Copy, Debug, PartialEq, Eq, Structural)]
pub enum Key {
    Backspace,
    Left,
    Right,
    Up,
    Down,
    Home,
    End,
    PageUp,
    PageDown,
    Delete,
    Insert,
    Esc,
    Tab,
    Enter,
    Char(char),
    Ctrl(char),
}

/// The commands that jump mode can issue.
#[derive(Clone, Copy, Debug, PartialEq, Eq, Structural)]
pub enum Command {
    /// Leave jump mode for normal mode.
    SwitchToNormalMode,
    /// Add the typed character to the jump search.
    PushSearchChar,
    /// Suspend the application.
    Suspend,
    /// Exit the application.
    Exit,
}

/// State of jump mode: the jump search typed so far.
pub struct JumpMode {
    pub input: String,
}

/// The command that each key issues in jump mode, if any.
pub open spec fn jump_command(k: Key) -> Option<Command> {
    match k {
        Key::Esc => Some(Command::SwitchToNormalMode),
        Key::Char(_) => Some(Command::PushSearchChar),
        Key::Ctrl(c) => if c == 'z' {
            Some(Command::Suspend)
        } else if c == 'c' {
            Some(Command::Exit)
        } else {
            None
        },
        _ => None,
    }
}

/// Maps a key press in jump mode to the command it issues; the mode itself
/// is left as it is.
pub fn handle(mode: &mut JumpMode, input: Key) -> (r: Option<Command>)
    ensures
        r == jump_command(input),
        final(mode).input@ == old(mode).input@,
{
    match input {
        Key::Esc => Some(Command::SwitchToNormalMode),
        Key::Char(_) => Some(Command::PushSearchChar),
        Key::Ctrl(c) => {
            if c == 'z' {
                Some(Command::Suspend)
            } else if c == 'c' {
                Some(Command::Exit)
            } else {
                None
            }
        },
        _ => None,
    }
}

} // verus!
