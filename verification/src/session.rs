//! The interactive session: a cursor over a read-only room graph,
//! advanced one command at a time. Commands are single characters —
//! `n`, `s`, `e`, `w` move, `q` quits, anything else is not
//! understood, and an empty line is ignored. Navigation never touches
//! the graph itself; only the cursor changes.

use vstd::prelude::*;

use crate::direction::Direction;
use crate::rooms::{graph_wf, Room, Rooms};
use vstd::string::*;

verus! {

/// What one input line asks for.
#[derive(Clone, Copy, PartialEq, Eq, Structural, Debug)]
pub enum Command {
    /// Move one step in the given direction.
    Move(Direction),
    /// End the session.
    Quit,
    /// Anything the session does not understand.
    Unknown,
}

/// The command carried by an input line: its first character decides;
/// an empty line carries none and is ignored.
pub open spec fn command_of(line: Seq<char>) -> Option<Command> {
    if line.len() == 0 {
        None
    } else if line[0] == 'n' {
        Some(Command::Move(Direction::North))
    } else if line[0] == 's' {
        Some(Command::Move(Direction::South))
    } else if line[0] == 'e' {
        Some(Command::Move(Direction::East))
    } else if line[0] == 'w' {
        Some(Command::Move(Direction::West))
    } else if line[0] == 'q' {
        Some(Command::Quit)
    } else {
        Some(Command::Unknown)
    }
}

/// Exec counterpart of [`command_of`].
pub fn parse_command(line: &str) -> (c: Option<Command>)
    ensures
        c == command_of(line@),
{
    if line.unicode_len() == 0 {
        return None;
    }
    match line.get_char(0) {
        'n' => Some(Command::Move(Direction::North)),
        's' => Some(Command::Move(Direction::South)),
        'e' => Some(Command::Move(Direction::East)),
        'w' => Some(Command::Move(Direction::West)),
        'q' => Some(Command::Quit),
        _ => Some(Command::Unknown),
    }
}

/// What one step of the session did, and so what feedback the player
/// is owed.
#[derive(Clone, Copy, PartialEq, Eq, Structural, Debug)]
pub enum Outcome {
    /// The cursor moved through a door; print the new room's entrance
    /// text.
    Moved,
    /// There is no door that way; the cursor stayed put.
    Blocked(Direction),
    /// The command was not understood.
    Huh,
    /// The player asked to quit.
    Quit,
    /// The line was empty and was ignored.
    Ignored,
}

/// A session: the graph being explored, which navigation never
/// alters, and the cursor — the one piece of state that moves.
pub struct Session {
    pub rooms: Rooms,
    pub current: usize,
}

impl Session {
    /// The graph is well formed and the cursor points at one of its
    /// rooms.
    pub open spec fn wf(self) -> bool {
        graph_wf(self.rooms@) && (self.current as int) < self.rooms@.len()
    }

    /// Start a session in the graph's entry room, the first room
    /// added.
    pub fn new(rooms: Rooms) -> (s: Session)
        requires
            rooms.wf(),
            rooms@.len() > 0,
        ensures
            s.wf(),
            s.rooms == rooms,
            s.current == 0usize,
    {
        Session { rooms, current: 0 }
    }

    /// The room the cursor is in.
    pub fn current_room(&self) -> (r: &Room)
        requires
            self.wf(),
        ensures
            r@ == self.rooms@[self.current as int],
    {
        &self.rooms.vec[self.current]
    }

    /// Apply one input line: move through a door if the line asks for
    /// a direction and the current room has a door that way; otherwise
    /// the cursor stays put. The graph itself is never altered.
    pub fn step(&mut self, line: &str) -> (out: Outcome)
        requires
            old(self).wf(),
        ensures
            final(self).wf(),
            final(self).rooms == old(self).rooms,
            match command_of(line@) {
                None => out == Outcome::Ignored && final(self).current == old(self).current,
                Some(Command::Quit) => out == Outcome::Quit && final(self).current == old(
                    self,
                ).current,
                Some(Command::Unknown) => out == Outcome::Huh && final(self).current == old(
                    self,
                ).current,
                Some(Command::Move(d)) => match old(self).rooms@[old(self).current as int].door(
                    d,
                ) {
                    Some(j) => out == Outcome::Moved && final(self).current == j,
                    None => out == Outcome::Blocked(d) && final(self).current == old(
                        self,
                    ).current,
                },
            },
    {
        match parse_command(line) {
            None => Outcome::Ignored,
            Some(Command::Quit) => Outcome::Quit,
            Some(Command::Unknown) => Outcome::Huh,
            Some(Command::Move(d)) => {
                match self.rooms.door(self.current, d) {
                    Some(j) => {
                        proof {
                            assert(self.rooms@[self.current as int].door(d) is Some);
                        }
                        self.current = j;
                        Outcome::Moved
                    },
                    None => Outcome::Blocked(d),
                }
            },
        }
    }
}

/// The message printed when there is no door the requested way.
pub open spec fn no_door_message_of(d: Direction) -> Seq<char> {
    "There is no door to the "@ + d.spec_name() + "!"@
}

/// Exec counterpart of [`no_door_message_of`].
pub fn no_door_message(d: Direction) -> (s: String)
    ensures
        s@ == no_door_message_of(d),
{
    let mut s = "There is no door to the ".to_owned();
    s.append(d.name());
    s.append("!");
    s
}

} // verus!
