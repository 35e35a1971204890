//! The already-validated command-line surface: the program name and
//! the optional path of a room file. Reading and parsing the actual
//! argument list is left to the program around the library; the
//! library only holds the result and phrases the usage line.

use vstd::prelude::*;
use vstd::string::*;

verus! {

/// The configuration a session starts from: the invoked command (for
/// the usage line) and the room file to load, if one was named.
pub struct RoomsOptions {
    pub command: String,
    pub roomsfile: Option<String>,
}

impl RoomsOptions {
    /// Package an already-validated command line.
    pub fn new(command: String, roomsfile: Option<String>) -> (o: RoomsOptions)
        ensures
            o.command == command,
            o.roomsfile == roomsfile,
    {
        RoomsOptions { command, roomsfile }
    }

    /// The one-line summary at the top of the help text.
    pub fn usage_brief(&self) -> (s: String)
        ensures
            s@ == "Usage: "@ + self.command@ + " [roomsfile]"@,
    {
        let mut s = "Usage: ".to_owned();
        s.append(self.command.as_str());
        s.append(" [roomsfile]");
        s
    }
}

} // verus!
