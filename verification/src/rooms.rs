//! The room graph: an append-only collection of rooms, each with four
//! directional door slots holding the index of the neighbouring room.
//! Every door is created together with its reciprocal, so the graph is
//! an undirected graph with labelled edges; the well-formedness
//! predicate [`graph_wf`] captures that invariant.

use vstd::prelude::*;
use vstd::string::*;

use crate::direction::Direction;
use crate::text::{dec_rep, str_eq, usize_string};

verus! {

/// One location: a name (used for room-file cross references), a
/// description shown on entry, and four door slots, each either empty
/// or the index of the neighbouring room within the owning [`Rooms`].
#[derive(Debug)]
pub struct Room {
    pub name: String,
    pub description: String,
    pub north: Option<usize>,
    pub south: Option<usize>,
    pub east: Option<usize>,
    pub west: Option<usize>,
}

/// The mathematical value of a [`Room`].
pub ghost struct RoomV {
    pub name: Seq<char>,
    pub description: Seq<char>,
    pub north: Option<usize>,
    pub south: Option<usize>,
    pub east: Option<usize>,
    pub west: Option<usize>,
}

impl View for Room {
    type V = RoomV;

    open spec fn view(&self) -> RoomV {
        RoomV {
            name: self.name@,
            description: self.description@,
            north: self.north,
            south: self.south,
            east: self.east,
            west: self.west,
        }
    }
}

impl DeepView for Room {
    type V = RoomV;

    open spec fn deep_view(&self) -> RoomV {
        self.view()
    }
}

/// A fresh room with the given name and description and no doors.
pub open spec fn room_v(name: Seq<char>, description: Seq<char>) -> RoomV {
    RoomV { name, description, north: None, south: None, east: None, west: None }
}

impl RoomV {
    /// The door slot facing direction `d`.
    pub open spec fn door(self, d: Direction) -> Option<usize> {
        match d {
            Direction::North => self.north,
            Direction::South => self.south,
            Direction::East => self.east,
            Direction::West => self.west,
        }
    }

    /// The names of the directions with a door, in the fixed order
    /// north, south, east, west.
    pub open spec fn door_names(self) -> Seq<Seq<char>> {
        (if self.north is Some {
            seq!["north"@]
        } else {
            Seq::<Seq<char>>::empty()
        }) + (if self.south is Some {
            seq!["south"@]
        } else {
            Seq::<Seq<char>>::empty()
        }) + (if self.east is Some {
            seq!["east"@]
        } else {
            Seq::<Seq<char>>::empty()
        }) + (if self.west is Some {
            seq!["west"@]
        } else {
            Seq::<Seq<char>>::empty()
        })
    }

    /// The room with the slot facing `d` set to `j` and all else
    /// unchanged.
    pub open spec fn with_door(self, d: Direction, j: usize) -> RoomV {
        match d {
            Direction::North => RoomV { north: Some(j), ..self },
            Direction::South => RoomV { south: Some(j), ..self },
            Direction::East => RoomV { east: Some(j), ..self },
            Direction::West => RoomV { west: Some(j), ..self },
        }
    }
}

impl Room {
    /// Set the slot facing `d` to lead to room `j`.
    fn set_door(&mut self, d: Direction, j: usize)
        ensures
            final(self)@ == old(self)@.with_door(d, j),
    {
        match d {
            Direction::North => self.north = Some(j),
            Direction::South => self.south = Some(j),
            Direction::East => self.east = Some(j),
            Direction::West => self.west = Some(j),
        }
    }

    /// A fresh room with no doors.
    pub fn new(name: &str, description: &str) -> (r: Room)
        ensures
            r@ == room_v(name@, description@),
    {
        Room {
            name: name.to_owned(),
            description: description.to_owned(),
            north: None,
            south: None,
            east: None,
            west: None,
        }
    }

    /// The index of the room behind the north door, if there is one.
    pub fn north(&self) -> (r: Option<usize>)
        ensures
            r == self@.north,
    {
        self.north
    }

    /// The index of the room behind the south door, if there is one.
    pub fn south(&self) -> (r: Option<usize>)
        ensures
            r == self@.south,
    {
        self.south
    }

    /// The index of the room behind the east door, if there is one.
    pub fn east(&self) -> (r: Option<usize>)
        ensures
            r == self@.east,
    {
        self.east
    }

    /// The index of the room behind the west door, if there is one.
    pub fn west(&self) -> (r: Option<usize>)
        ensures
            r == self@.west,
    {
        self.west
    }

    /// The door slot facing direction `d`.
    pub fn door(&self, d: Direction) -> (r: Option<usize>)
        ensures
            r == self@.door(d),
    {
        match d {
            Direction::North => self.north,
            Direction::South => self.south,
            Direction::East => self.east,
            Direction::West => self.west,
        }
    }

    /// The player-visible enumeration of this room's doors, phrased by
    /// door count as in [`doors_phrase`].
    pub fn doors_description(&self) -> (s: String)
        ensures
            s@ == doors_phrase(self@.door_names()),
    {
        let mut doors: Vec<&str> = Vec::new();
        if self.north.is_some() {
            doors.push("north");
        }
        if self.south.is_some() {
            doors.push("south");
        }
        if self.east.is_some() {
            doors.push("east");
        }
        if self.west.is_some() {
            doors.push("west");
        }
        proof {
            assert(doors.deep_view() =~~= self@.door_names());
        }
        if doors.len() == 1 {
            let mut s = "There is a door to the ".to_owned();
            s.append(doors[0]);
            s.append(".");
            s
        } else if doors.len() == 2 {
            let mut s = "There are doors to the ".to_owned();
            s.append(doors[0]);
            s.append(" and ");
            s.append(doors[1]);
            s.append(".");
            s
        } else if doors.len() == 3 {
            let mut s = "There are doors to the ".to_owned();
            s.append(doors[0]);
            s.append(", ");
            s.append(doors[1]);
            s.append(" and ");
            s.append(doors[2]);
            s.append(".");
            s
        } else if doors.len() == 4 {
            "There are doors in all directions.".to_owned()
        } else {
            "There are no doors.".to_owned()
        }
    }

    /// The text printed when a player enters this room.
    pub fn entrance_text(&self) -> (s: String)
        ensures
            s@ == entrance_text_of(self@),
    {
        let mut s = "You find yourself in ".to_owned();
        s.append(self.description.as_str());
        s.append("\n");
        let doors = self.doors_description();
        s.append(doors.as_str());
        s
    }
}

/// The player-visible enumeration of a room's doors. The phrasing
/// depends on how many doors the room has: zero, one, two, three, or
/// all four.
pub open spec fn doors_phrase(names: Seq<Seq<char>>) -> Seq<char> {
    if names.len() == 0 {
        "There are no doors."@
    } else if names.len() == 1 {
        "There is a door to the "@ + names[0] + "."@
    } else if names.len() == 2 {
        "There are doors to the "@ + names[0] + " and "@ + names[1] + "."@
    } else if names.len() == 3 {
        "There are doors to the "@ + names[0] + ", "@ + names[1] + " and "@ + names[2] + "."@
    } else {
        "There are doors in all directions."@
    }
}

/// The text printed when a player enters a room: the description,
/// then the enumeration of its doors.
pub open spec fn entrance_text_of(r: RoomV) -> Seq<char> {
    "You find yourself in "@ + r.description + "\n"@ + doors_phrase(r.door_names())
}

/// Every door leads to a room inside the graph, and the room it leads
/// to has its door in the opposite direction leading straight back:
/// doors come in reciprocal pairs, always.
pub open spec fn graph_wf(g: Seq<RoomV>) -> bool {
    forall|i: int, d: Direction|
        0 <= i < g.len() && (#[trigger] g[i].door(d)) is Some ==> {
            let j = g[i].door(d)->Some_0;
            &&& (j as int) < g.len()
            &&& g[j as int].door(d.spec_opposite()) == Some(i as usize)
        }
}

/// Reciprocity: whenever room `a`'s door in direction `d` leads to
/// room `b`, room `b`'s door in the opposite direction leads back to
/// room `a`. This holds of every well-formed graph, and every
/// operation of [`Rooms`] keeps the graph well-formed.
pub proof fn lemma_reciprocity(g: Seq<RoomV>, a: int, d: Direction, b: usize)
    requires
        graph_wf(g),
        0 <= a < g.len(),
        g[a].door(d) == Some(b),
    ensures
        (b as int) < g.len(),
        g[b as int].door(d.spec_opposite()) == Some(a as usize),
{
}

/// What can go wrong while building a graph from a room file. Every
/// failure aborts the build at once; no partially linked graph is ever
/// returned.
#[derive(Debug)]
pub enum RoomsError {
    /// The file or stream could not be read; carries the reason.
    Io(String),
    /// A `room` or `door` line has the wrong number of fields.
    MalformedRow { expected: usize, found: usize },
    /// A `door` line names a room that no earlier `room` line declared.
    UnknownRoomName(String),
    /// A `door` line's direction field is none of the four directions.
    UnknownDirection(String),
    /// A line's first field is neither `room` nor `door`.
    UnknownRowType(String),
    /// A `door` line would overwrite a door slot that is already
    /// linked, on either side of the new pair.
    DoorAlreadyLinked(Direction),
    /// The file declared no rooms at all.
    EmptyGraph,
}

/// The mathematical value of a [`RoomsError`].
pub ghost enum ErrV {
    Io(Seq<char>),
    MalformedRow { expected: int, found: int },
    UnknownRoomName(Seq<char>),
    UnknownDirection(Seq<char>),
    UnknownRowType(Seq<char>),
    DoorAlreadyLinked(Direction),
    EmptyGraph,
}

impl View for RoomsError {
    type V = ErrV;

    open spec fn view(&self) -> ErrV {
        match self {
            RoomsError::Io(m) => ErrV::Io(m@),
            RoomsError::MalformedRow { expected, found } => ErrV::MalformedRow {
                expected: *expected as int,
                found: *found as int,
            },
            RoomsError::UnknownRoomName(n) => ErrV::UnknownRoomName(n@),
            RoomsError::UnknownDirection(d) => ErrV::UnknownDirection(d@),
            RoomsError::UnknownRowType(t) => ErrV::UnknownRowType(t@),
            RoomsError::DoorAlreadyLinked(d) => ErrV::DoorAlreadyLinked(*d),
            RoomsError::EmptyGraph => ErrV::EmptyGraph,
        }
    }
}

/// The one-line report for each failure.
pub open spec fn spec_message(e: ErrV) -> Seq<char> {
    match e {
        ErrV::Io(m) => "IO error: "@ + m,
        ErrV::MalformedRow { expected, found } => "Invalid file: Expected "@ + dec_rep(
            expected as nat,
        ) + " columns, found "@ + dec_rep(found as nat),
        ErrV::UnknownRoomName(n) => "Invalid file: No room named \""@ + n + "\""@,
        ErrV::UnknownDirection(d) => "Invalid file: Unknown direction \""@ + d + "\""@,
        ErrV::UnknownRowType(t) => "Invalid file: Unexpected row type \""@ + t + "\""@,
        ErrV::DoorAlreadyLinked(d) => "Invalid file: Door to the "@ + d.spec_name()
            + " is already linked"@,
        ErrV::EmptyGraph => "Invalid file: No rooms found."@,
    }
}

impl RoomsError {
    /// Render the failure for the player or the error stream.
    pub fn message(&self) -> (s: String)
        ensures
            s@ == spec_message(self@),
    {
        match self {
            RoomsError::Io(m) => {
                let mut s = "IO error: ".to_owned();
                s.append(m.as_str());
                s
            },
            RoomsError::MalformedRow { expected, found } => {
                let mut s = "Invalid file: Expected ".to_owned();
                let e = usize_string(*expected);
                s.append(e.as_str());
                s.append(" columns, found ");
                let f = usize_string(*found);
                s.append(f.as_str());
                s
            },
            RoomsError::UnknownRoomName(n) => {
                let mut s = "Invalid file: No room named \"".to_owned();
                s.append(n.as_str());
                s.append("\"");
                s
            },
            RoomsError::UnknownDirection(d) => {
                let mut s = "Invalid file: Unknown direction \"".to_owned();
                s.append(d.as_str());
                s.append("\"");
                s
            },
            RoomsError::UnknownRowType(t) => {
                let mut s = "Invalid file: Unexpected row type \"".to_owned();
                s.append(t.as_str());
                s.append("\"");
                s
            },
            RoomsError::DoorAlreadyLinked(d) => {
                let mut s = "Invalid file: Door to the ".to_owned();
                s.append(d.name());
                s.append(" is already linked");
                s
            },
            RoomsError::EmptyGraph => "Invalid file: No rooms found.".to_owned(),
        }
    }
}

/// The ordered, append-only collection of rooms. Doors refer to rooms
/// by their position in `vec`, which never changes once a room is
/// added.
#[derive(Debug)]
pub struct Rooms {
    pub vec: Vec<Room>,
}

impl View for Rooms {
    type V = Seq<RoomV>;

    open spec fn view(&self) -> Seq<RoomV> {
        self.vec.deep_view()
    }
}

/// The first index of a room called `name`, if any.
pub open spec fn spec_find(g: Seq<RoomV>, name: Seq<char>) -> Option<int>
    decreases g.len(),
{
    if g.len() == 0 {
        None
    } else if g[0].name == name {
        Some(0)
    } else {
        match spec_find(g.drop_first(), name) {
            Some(i) => Some(i + 1),
            None => None,
        }
    }
}

proof fn lemma_find_hit(g: Seq<RoomV>, name: Seq<char>, i: int)
    requires
        0 <= i < g.len(),
        forall|j: int| 0 <= j < i ==> (#[trigger] g[j]).name != name,
        g[i].name == name,
    ensures
        spec_find(g, name) == Some(i),
    decreases i,
{
    if i > 0 {
        let t = g.drop_first();
        assert(forall|j: int| 0 <= j < i - 1 ==> (#[trigger] t[j]).name != name);
        lemma_find_hit(t, name, i - 1);
    }
}

proof fn lemma_find_miss(g: Seq<RoomV>, name: Seq<char>)
    requires
        forall|j: int| 0 <= j < g.len() ==> (#[trigger] g[j]).name != name,
    ensures
        spec_find(g, name) is None,
    decreases g.len(),
{
    if g.len() > 0 {
        lemma_find_miss(g.drop_first(), name);
    }
}

/// The graph after linking rooms `a` and `b` through a reciprocal pair
/// of doors: `a`'s door in direction `d` leads to `b`, and `b`'s door
/// in the opposite direction leads back to `a`.
pub open spec fn spec_link(g: Seq<RoomV>, a: int, d: Direction, b: int) -> Seq<RoomV> {
    let g1 = g.update(a, g[a].with_door(d, b as usize));
    g1.update(b, g1[b].with_door(d.spec_opposite(), a as usize))
}

proof fn lemma_with_door(r: RoomV, d: Direction, j: usize, dd: Direction)
    ensures
        r.with_door(d, j).door(dd) == if dd == d {
            Some(j)
        } else {
            r.door(dd)
        },
{
}

/// Linking touches exactly the two slots of the new door pair: every
/// other door slot keeps its value, and no room's name or description
/// changes, whichever slot is asked about.
pub proof fn lemma_link_slots(g: Seq<RoomV>, a: int, d: Direction, b: int, i: int, dd: Direction)
    requires
        g.len() <= usize::MAX,
        0 <= a < g.len(),
        0 <= b < g.len(),
        0 <= i < g.len(),
    ensures
        spec_link(g, a, d, b)[i].door(dd) == if i == a && dd == d {
            Some(b as usize)
        } else if i == b && dd == d.spec_opposite() {
            Some(a as usize)
        } else {
            g[i].door(dd)
        },
        spec_link(g, a, d, b)[i].name == g[i].name,
        spec_link(g, a, d, b)[i].description == g[i].description,
{
    let opp = d.spec_opposite();
    let g1 = g.update(a, g[a].with_door(d, b as usize));
    lemma_with_door(g[a], d, b as usize, dd);
    lemma_with_door(g1[b], opp, a as usize, dd);
    crate::direction::lemma_opposite_involutive(d);
}

/// Linking two free slots keeps the graph well formed.
proof fn lemma_link_wf(g: Seq<RoomV>, a: int, d: Direction, b: int)
    requires
        graph_wf(g),
        g.len() <= usize::MAX,
        0 <= a < g.len(),
        0 <= b < g.len(),
        g[a].door(d) is None,
        g[b].door(d.spec_opposite()) is None,
    ensures
        graph_wf(spec_link(g, a, d, b)),
        spec_link(g, a, d, b)[a].door(d) == Some(b as usize),
        spec_link(g, a, d, b)[b].door(d.spec_opposite()) == Some(a as usize),
{
    let opp = d.spec_opposite();
    let g2 = spec_link(g, a, d, b);
    crate::direction::lemma_opposite_involutive(d);
    assert(opp != d);
    lemma_link_slots(g, a, d, b, a, d);
    lemma_link_slots(g, a, d, b, b, opp);
    assert forall|i: int, dd: Direction|
        0 <= i < g2.len() && (#[trigger] g2[i].door(dd)) is Some implies {
        let j = g2[i].door(dd)->Some_0;
        &&& (j as int) < g2.len()
        &&& g2[j as int].door(dd.spec_opposite()) == Some(i as usize)
    } by {
        lemma_link_slots(g, a, d, b, i, dd);
        crate::direction::lemma_opposite_involutive(dd);
        if i == a && dd == d {
        } else if i == b && dd == opp {
        } else {
            assert(g[i].door(dd) is Some);
            let j = g2[i].door(dd)->Some_0;
            assert((j as int) < g.len() && g[j as int].door(dd.spec_opposite()) == Some(
                i as usize,
            ));
            lemma_link_slots(g, a, d, b, j as int, dd.spec_opposite());
        }
    }
}

impl Rooms {
    /// The graph is well formed: every door is in range and reciprocal.
    pub open spec fn wf(self) -> bool {
        graph_wf(self@)
    }

    /// A graph with no rooms yet, ready to be built up.
    pub fn empty() -> (r: Rooms)
        ensures
            r@ =~= Seq::<RoomV>::empty(),
            r.wf(),
    {
        Rooms { vec: Vec::new() }
    }

    /// Append a room with no doors; its index is returned and stays
    /// valid for the lifetime of the graph.
    pub fn add_room(&mut self, name: &str, description: &str) -> (i: usize)
        requires
            old(self).wf(),
        ensures
            final(self).wf(),
            final(self)@ =~= old(self)@.push(room_v(name@, description@)),
            i as int == old(self)@.len(),
    {
        let i = self.vec.len();
        self.vec.push(Room::new(name, description));
        proof {
            assert(self@ =~= old(self)@.push(room_v(name@, description@)));
            assert forall|k: int, d: Direction|
                0 <= k < self@.len() && (#[trigger] self@[k].door(d)) is Some implies {
                let j = self@[k].door(d)->Some_0;
                &&& (j as int) < self@.len()
                &&& self@[j as int].door(d.spec_opposite()) == Some(k as usize)
            } by {
                if k < old(self)@.len() {
                    assert(old(self)@[k].door(d) is Some);
                }
            }
        }
        i
    }

    /// The first index of a room called `name`, if any.
    pub fn find(&self, name: &str) -> (r: Option<usize>)
        ensures
            match spec_find(self@, name@) {
                Some(i) => r == Some(i as usize),
                None => r is None,
            },
    {
        let n = self.vec.len();
        let mut i: usize = 0;
        while i < n
            invariant
                i <= n,
                n == self@.len(),
                forall|j: int| 0 <= j < i ==> (#[trigger] self@[j]).name != name@,
            decreases n - i,
        {
            if str_eq(self.vec[i].name.as_str(), name) {
                proof {
                    lemma_find_hit(self@, name@, i as int);
                }
                return Some(i);
            }
            i = i + 1;
        }
        proof {
            lemma_find_miss(self@, name@);
        }
        None
    }

    /// Create the reciprocal pair of doors between rooms `a` and `b`:
    /// `a`'s door in direction `d` leads to `b` and `b`'s door in the
    /// opposite direction leads back to `a`, both set as one
    /// operation. Returns false, changing nothing, if either slot is
    /// already occupied.
    pub fn link(&mut self, a: usize, d: Direction, b: usize) -> (ok: bool)
        requires
            old(self).wf(),
            (a as int) < old(self)@.len(),
            (b as int) < old(self)@.len(),
        ensures
            final(self).wf(),
            ok == (old(self)@[a as int].door(d) is None && old(self)@[b as int].door(
                d.spec_opposite(),
            ) is None),
            ok ==> final(self)@ == spec_link(old(self)@, a as int, d, b as int),
            ok ==> final(self)@[a as int].door(d) == Some(b) && final(self)@[b as int].door(
                d.spec_opposite(),
            ) == Some(a),
            !ok ==> *final(self) == *old(self),
    {
        let n = self.vec.len();
        proof {
            assert(old(self)@.len() == old(self).vec@.len());
            assert(n <= usize::MAX);
        }
        let opp = d.opposite();
        if self.vec[a].door(d).is_some() || self.vec[b].door(opp).is_some() {
            return false;
        }
        self.vec[a].set_door(d, b);
        self.vec[b].set_door(opp, a);
        proof {
            let g = old(self)@;
            assert(self@ =~= spec_link(g, a as int, d, b as int));
            lemma_link_wf(g, a as int, d, b as int);
        }
        true
    }

    /// The deterministic default graph, used when no room file is
    /// supplied: four rooms in a loop. The first room's north door
    /// leads to the second, the second's east door to the third, the
    /// third's south door to the fourth, and the fourth's west door
    /// back to the first.
    pub fn new() -> (r: Rooms)
        ensures
            r.wf(),
            r@.len() == 4,
            r@[0] == (RoomV {
                name: "first room"@,
                description: "the first room"@,
                north: Some(1usize),
                south: None,
                east: Some(3usize),
                west: None,
            }),
            r@[1] == (RoomV {
                name: "second room"@,
                description: "the second room"@,
                north: None,
                south: Some(0usize),
                east: Some(2usize),
                west: None,
            }),
            r@[2] == (RoomV {
                name: "third room"@,
                description: "the third room"@,
                north: None,
                south: Some(3usize),
                east: None,
                west: Some(1usize),
            }),
            r@[3] == (RoomV {
                name: "fourth room"@,
                description: "the fourth room"@,
                north: Some(2usize),
                south: None,
                east: None,
                west: Some(0usize),
            }),
    {
        let mut rooms = Rooms::empty();
        let first = rooms.add_room("first room", "the first room");
        let second = rooms.add_room("second room", "the second room");
        let ok = rooms.link(first, Direction::North, second);
        let third = rooms.add_room("third room", "the third room");
        let ok = rooms.link(second, Direction::East, third);
        let fourth = rooms.add_room("fourth room", "the fourth room");
        let ok = rooms.link(third, Direction::South, fourth);
        let ok = rooms.link(fourth, Direction::West, first);
        rooms
    }

    /// The room where a session begins: the first room added.
    pub fn first_room(&self) -> (r: &Room)
        requires
            self@.len() > 0,
        ensures
            r@ == self@[0],
    {
        &self.vec[0]
    }

    /// The index of the room behind room `i`'s door in direction `d`,
    /// if there is one.
    pub fn door(&self, i: usize, d: Direction) -> (r: Option<usize>)
        requires
            (i as int) < self@.len(),
        ensures
            r == self@[i as int].door(d),
    {
        self.vec[i].door(d)
    }
}

} // verus!
