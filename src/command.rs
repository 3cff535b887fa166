use vstd::prelude::*;
use crate::geometry::Direction;

verus! {

/// What the player asked for with one key press.
#[derive(Clone, Copy, Debug, PartialEq, Eq, Structural)]
pub enum Command {
    Move(Direction),
    Quit,
}

/// The command a key stands for: `a` left, `d` right, `q` quit, anything
/// else no movement.
pub open spec fn command_for(c: char) -> Command {
    if c == 'a' {
        Command::Move(Direction::Left)
    } else if c == 'd' {
        Command::Move(Direction::Right)
    } else if c == 'q' {
        Command::Quit
    } else {
        Command::Move(Direction::Still)
    }
}

impl Command {
    pub fn from_char(c: char) -> (r: Command)
        ensures
            r == command_for(c),
    {
        match c {
            'a' => Command::Move(Direction::Left),
            'd' => Command::Move(Direction::Right),
            'q' => Command::Quit,
            _ => Command::Move(Direction::Still),
        }
    }

    /// The command for a raw key code; codes of no character, and codes of
    /// keys that are not bound, mean no movement.
    pub fn from_i32(i: i32) -> (r: Command)
        ensures
            r == if 0 <= i < 128 { command_for((i as u8) as char) } else { Command::Move(Direction::Still) },
    {
        if 0 <= i && i < 128 {
            Command::from_char((i as u8) as char)
        } else {
            Command::Move(Direction::Still)
        }
    }
}

} // verus!
