//! Interprets user key presses and command line flags as playback
//! commands.

use vstd::prelude::*;
use vstd::string::*;

verus! {

/// What one command line argument asks for.
#[derive(PartialEq, Eq, Structural, Clone, Copy, Debug)]
pub enum ArgKind {
    /// `--help`: print the usage text and exit
    Help,
    /// `--version`: print the version and exit
    Version,
    /// Any other argument starting with `-`: an error, then usage text
    UnknownFlag,
    /// An input file or directory path
    Path,
}

/// The kind of a command line argument: the two recognized flags, an
/// unrecognized flag, or a plain path.
pub open spec fn spec_arg_kind(arg: Seq<char>) -> ArgKind {
    if arg == "--help"@ {
        ArgKind::Help
    } else if arg == "--version"@ {
        ArgKind::Version
    } else if arg.len() > 0 && arg[0] == '-' {
        ArgKind::UnknownFlag
    } else {
        ArgKind::Path
    }
}

/// Classifies one command line argument.
pub fn classify_arg(arg: &String) -> (r: ArgKind)
    ensures
        r == spec_arg_kind(arg@),
{
    let help: String = "--help".to_owned();
    let version: String = "--version".to_owned();
    if *arg == help {
        ArgKind::Help
    } else if *arg == version {
        ArgKind::Version
    } else {
        let s = arg.as_str();
        if s.unicode_len() > 0 && s.get_char(0) == '-' {
            ArgKind::UnknownFlag
        } else {
            ArgKind::Path
        }
    }
}

/// A single key press as delivered by the terminal input source.
/// Reading the raw key codes happens outside the library; only the
/// interpretation of a key is done here.
#[derive(PartialEq, Eq, Structural, Clone, Copy, Debug)]
pub enum Key {
    Char(char),
    Left,
    Right,
    Up,
    Down,
    Other,
}

/// Valid user actions the main program needs to act on.
#[derive(PartialEq, Eq, Structural, Clone, Copy, Debug)]
pub enum UserInput {
    Mute,
    Pause,
    Stop,
    Next,
    Prev,
    SeekBackward,
    SeekForward,
}

/// The action a key press stands for, or `None` for an unrecognized key.
pub open spec fn spec_user_input(key: Key) -> Option<UserInput> {
    match key {
        Key::Char(c) => if c == 'm' {
            Some(UserInput::Mute)
        } else if c == ' ' {
            Some(UserInput::Pause)
        } else if c == 'q' {
            Some(UserInput::Stop)
        } else if c == 'h' {
            Some(UserInput::SeekBackward)
        } else if c == 'j' {
            Some(UserInput::Next)
        } else if c == 'k' {
            Some(UserInput::Prev)
        } else if c == 'l' {
            Some(UserInput::SeekForward)
        } else {
            None
        },
        Key::Left => Some(UserInput::SeekBackward),
        Key::Down => Some(UserInput::Next),
        Key::Up => Some(UserInput::Prev),
        Key::Right => Some(UserInput::SeekForward),
        Key::Other => None,
    }
}

/// Interprets a user key press as a `UserInput` variant.
/// Unrecognized keys are ignored by returning `None`.
pub fn handle_user_input(key: Key) -> (r: Option<UserInput>)
    ensures
        r == spec_user_input(key),
{
    match key {
        Key::Char(c) => match c {
            'm' => Some(UserInput::Mute),
            ' ' => Some(UserInput::Pause),
            'q' => Some(UserInput::Stop),
            'h' => Some(UserInput::SeekBackward),
            'j' => Some(UserInput::Next),
            'k' => Some(UserInput::Prev),
            'l' => Some(UserInput::SeekForward),
            _ => None,
        },
        Key::Left => Some(UserInput::SeekBackward),
        Key::Down => Some(UserInput::Next),
        Key::Up => Some(UserInput::Prev),
        Key::Right => Some(UserInput::SeekForward),
        Key::Other => None,
    }
}

} // verus!
