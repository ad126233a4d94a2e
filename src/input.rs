//! The mapping from key presses to commands: arrow keys or h/j/k/l steer,
//! with Control for a double move; space pauses, `b` boosts, `n` or Enter
//! starts a new game and `q` quits.

use vstd::prelude::*;
use crate::game::Command;

verus! {

/// A pressed key, as far as the game tells keys apart.
#[derive(PartialEq, Eq, Structural, Debug, Clone, Copy)]
pub enum Key {
    Char(char),
    Up,
    Down,
    Left,
    Right,
    Enter,
    Other,
}

/// The command that a key gives, with or without Control (and no other
/// modifier) held.
pub open spec fn key_command(key: Key, control: bool) -> Option<Command> {
    match key {
        Key::Char('q') => Some(Command::Quit),
        Key::Char('n') | Key::Enter => Some(Command::NewGame),
        Key::Char('k') | Key::Up => Some(
            if control { Command::MoveUpDouble } else { Command::MoveUp },
        ),
        Key::Char('j') | Key::Down => Some(
            if control { Command::MoveDownDouble } else { Command::MoveDown },
        ),
        Key::Char('h') | Key::Left => Some(
            if control { Command::MoveLeftDouble } else { Command::MoveLeft },
        ),
        Key::Char('l') | Key::Right => Some(
            if control { Command::MoveRightDouble } else { Command::MoveRight },
        ),
        Key::Char(' ') => Some(Command::TogglePause),
        Key::Char('b') => Some(Command::Boost),
        _ => None,
    }
}

/// Computes `key_command`.
pub fn command_for_key(key: Key, control: bool) -> (r: Option<Command>)
    ensures
        r == key_command(key, control),
{
    match key {
        Key::Char('q') => Some(Command::Quit),
        Key::Char('n') | Key::Enter => Some(Command::NewGame),
        Key::Char('k') | Key::Up => {
            if control {
                Some(Command::MoveUpDouble)
            } else {
                Some(Command::MoveUp)
            }
        },
        Key::Char('j') | Key::Down => {
            if control {
                Some(Command::MoveDownDouble)
            } else {
                Some(Command::MoveDown)
            }
        },
        Key::Char('h') | Key::Left => {
            if control {
                Some(Command::MoveLeftDouble)
            } else {
                Some(Command::MoveLeft)
            }
        },
        Key::Char('l') | Key::Right => {
            if control {
                Some(Command::MoveRightDouble)
            } else {
                Some(Command::MoveRight)
            }
        },
        Key::Char(' ') => Some(Command::TogglePause),
        Key::Char('b') => Some(Command::Boost),
        _ => None,
    }
}

} // verus!
