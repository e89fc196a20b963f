//! The closed set of per-tick commands, the event tags the engine emits, and
//! the textual command codec used by the replay-log format.

use vstd::prelude::*;

verus! {

/// One player command, consumed once per tick.
///
/// `Noop` is the default no-op command; unrecognized textual input decodes to
/// it.  `NextLevel` only has an effect while the level is clear.
#[derive(Debug, Clone, Copy, PartialEq, Eq, Structural)]
pub enum Command {
    Noop,
    Left,
    Right,
    Down,
    Up,
    UpLeft,
    UpRight,
    DownLeft,
    DownRight,
    Teleport,
    Wait,
    NextLevel,
}

/// A semantic event tag appended during a tick and drained by the caller,
/// typically to play a sound.
#[derive(Debug, Clone, Copy, PartialEq, Eq, Structural)]
pub enum Event {
    /// A robot was destroyed by a collision.
    Hit,
    /// A robot reached the player's cell; the level is lost.
    Crash,
    /// No live robot remains; the level is clear.
    Win,
    /// A rejected player action: a blocked or out-of-bounds move, or a
    /// teleport without enough energy.
    Invalid,
    /// The player teleported to a random cell.
    Teleport,
}

/// The textual name of a command, one line of a replay log.
pub open spec fn command_name(c: Command) -> Seq<char> {
    match c {
        Command::Noop => "None"@,
        Command::Left => "Left"@,
        Command::Right => "Right"@,
        Command::Down => "Down"@,
        Command::Up => "Up"@,
        Command::UpLeft => "UpLeft"@,
        Command::UpRight => "UpRight"@,
        Command::DownLeft => "DownLeft"@,
        Command::DownRight => "DownRight"@,
        Command::Teleport => "Teleport"@,
        Command::Wait => "Wait"@,
        Command::NextLevel => "NextLevel"@,
    }
}

/// Decodes one line of a replay log; any unrecognized text decodes to the
/// no-op command.
pub open spec fn parse_command(s: Seq<char>) -> Command {
    if s == "Left"@ {
        Command::Left
    } else if s == "Right"@ {
        Command::Right
    } else if s == "Down"@ {
        Command::Down
    } else if s == "Up"@ {
        Command::Up
    } else if s == "UpLeft"@ {
        Command::UpLeft
    } else if s == "UpRight"@ {
        Command::UpRight
    } else if s == "DownLeft"@ {
        Command::DownLeft
    } else if s == "DownRight"@ {
        Command::DownRight
    } else if s == "Teleport"@ {
        Command::Teleport
    } else if s == "Wait"@ {
        Command::Wait
    } else if s == "NextLevel"@ {
        Command::NextLevel
    } else {
        Command::Noop
    }
}

impl Command {
    /// Encodes this command as its replay-log line.
    pub fn name(&self) -> (r: &'static str)
        ensures
            r@ == command_name(*self),
    {
        match self {
            Command::Noop => "None",
            Command::Left => "Left",
            Command::Right => "Right",
            Command::Down => "Down",
            Command::Up => "Up",
            Command::UpLeft => "UpLeft",
            Command::UpRight => "UpRight",
            Command::DownLeft => "DownLeft",
            Command::DownRight => "DownRight",
            Command::Teleport => "Teleport",
            Command::Wait => "Wait",
            Command::NextLevel => "NextLevel",
        }
    }

    /// Decodes one replay-log line, with unknown text falling back to the
    /// no-op command.
    pub fn from_name(s: &str) -> (c: Command)
        ensures
            c == parse_command(s@),
    {
        let t = s.to_owned();
        if t == "Left".to_owned() {
            Command::Left
        } else if t == "Right".to_owned() {
            Command::Right
        } else if t == "Down".to_owned() {
            Command::Down
        } else if t == "Up".to_owned() {
            Command::Up
        } else if t == "UpLeft".to_owned() {
            Command::UpLeft
        } else if t == "UpRight".to_owned() {
            Command::UpRight
        } else if t == "DownLeft".to_owned() {
            Command::DownLeft
        } else if t == "DownRight".to_owned() {
            Command::DownRight
        } else if t == "Teleport".to_owned() {
            Command::Teleport
        } else if t == "Wait".to_owned() {
            Command::Wait
        } else if t == "NextLevel".to_owned() {
            Command::NextLevel
        } else {
            Command::Noop
        }
    }
}

impl Event {
    /// A short tag naming this event, for the caller's sound table.
    pub fn name(&self) -> (r: &'static str)
        ensures
            *self == Event::Hit ==> r@ == "hit"@,
            *self == Event::Crash ==> r@ == "crash"@,
            *self == Event::Win ==> r@ == "win"@,
            *self == Event::Invalid ==> r@ == "invalid"@,
            *self == Event::Teleport ==> r@ == "teleport"@,
    {
        match self {
            Event::Hit => "hit",
            Event::Crash => "crash",
            Event::Win => "win",
            Event::Invalid => "invalid",
            Event::Teleport => "teleport",
        }
    }
}

/// Encoding then decoding a command gives the command back: a replay log
/// written by the engine decodes to the command sequence that produced it.
#[verifier::rlimit(50)]
pub proof fn lemma_command_name_round_trip(c: Command)
    ensures
        parse_command(command_name(c)) == c,
{
    reveal_strlit("None");
    reveal_strlit("Left");
    reveal_strlit("Right");
    reveal_strlit("Down");
    reveal_strlit("Up");
    reveal_strlit("UpLeft");
    reveal_strlit("UpRight");
    reveal_strlit("DownLeft");
    reveal_strlit("DownRight");
    reveal_strlit("Teleport");
    reveal_strlit("Wait");
    reveal_strlit("NextLevel");
    assert("None"@.len() == 4 && "None"@[0] == 'N');
    assert("Left"@.len() == 4 && "Left"@[0] == 'L');
    assert("Right"@.len() == 5 && "Right"@[0] == 'R');
    assert("Down"@.len() == 4 && "Down"@[0] == 'D');
    assert("Up"@.len() == 2 && "Up"@[0] == 'U');
    assert("UpLeft"@.len() == 6 && "UpLeft"@[0] == 'U');
    assert("UpRight"@.len() == 7 && "UpRight"@[0] == 'U');
    assert("DownLeft"@.len() == 8 && "DownLeft"@[0] == 'D');
    assert("DownRight"@.len() == 9 && "DownRight"@[0] == 'D');
    assert("Teleport"@.len() == 8 && "Teleport"@[0] == 'T');
    assert("Wait"@.len() == 4 && "Wait"@[0] == 'W');
    assert("NextLevel"@.len() == 9 && "NextLevel"@[0] == 'N');
    match c {
        Command::Noop => assert(parse_command(command_name(c)) == c),
        Command::Left => assert(parse_command(command_name(c)) == c),
        Command::Right => assert(parse_command(command_name(c)) == c),
        Command::Down => assert(parse_command(command_name(c)) == c),
        Command::Up => assert(parse_command(command_name(c)) == c),
        Command::UpLeft => assert(parse_command(command_name(c)) == c),
        Command::UpRight => assert(parse_command(command_name(c)) == c),
        Command::DownLeft => assert(parse_command(command_name(c)) == c),
        Command::DownRight => assert(parse_command(command_name(c)) == c),
        Command::Teleport => assert(parse_command(command_name(c)) == c),
        Command::Wait => assert(parse_command(command_name(c)) == c),
        Command::NextLevel => assert(parse_command(command_name(c)) == c),
    }
}

} // verus!
