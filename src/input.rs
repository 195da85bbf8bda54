//! The two key bindings of the timer and the commands they stand for.

use vstd::prelude::*;

verus! {

/// How long one poll for input may wait, in milliseconds.
pub const POLL_TIMEOUT_MS: u64 = 100;

/// What the user asked for during one poll.
#[derive(Clone, Copy, Debug, PartialEq, Eq, Structural)]
pub enum Command {
    Quit,
    TogglePause,
    Idle,
}

/// A key event, as far as the bindings look at it.
#[derive(Clone, Copy, Debug, PartialEq, Eq, Structural)]
pub struct KeyInput {
    /// The character of the key, `None` for a key that types none.
    pub ch: Option<char>,
    /// No modifier key was held and the event carries no extra state.
    pub plain: bool,
    /// The key went down (as opposed to repeating or being released).
    pub press: bool,
}

/// An event read from the terminal.
#[derive(Clone, Copy, Debug, PartialEq, Eq, Structural)]
pub enum InputEvent {
    Key(KeyInput),
    /// Focus, mouse, paste and resize events.
    Other,
}

/// The command that a plain press of `ch` gives.
pub open spec fn binding(ch: char) -> Command {
    if ch == 'q' {
        Command::Quit
    } else if ch == 'p' {
        Command::TogglePause
    } else {
        Command::Idle
    }
}

/// The command that one poll yields: `q` quits, `p` toggles the pause, any
/// other key, any other event and an empty poll do nothing.
pub open spec fn command_of(ev: Option<InputEvent>) -> Command {
    match ev {
        Some(InputEvent::Key(k)) => {
            if k.plain && k.press && k.ch is Some {
                binding(k.ch->Some_0)
            } else {
                Command::Idle
            }
        },
        _ => Command::Idle,
    }
}

/// The command for the event that one poll returned, if any.
pub fn command_for(ev: Option<InputEvent>) -> (r: Command)
    ensures
        r == command_of(ev),
{
    match ev {
        Some(InputEvent::Key(k)) => {
            if k.plain && k.press {
                match k.ch {
                    Some('q') => Command::Quit,
                    Some('p') => Command::TogglePause,
                    _ => Command::Idle,
                }
            } else {
                Command::Idle
            }
        },
        _ => Command::Idle,
    }
}

} // verus!
