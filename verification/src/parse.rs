//! The room-file parser. A file is a sequence of lines: blank lines
//! and `#` comments are skipped; `room; <name>; <description>`
//! declares a room; `door; <room>; <direction>; <room>` links two
//! already-declared rooms through a reciprocal pair of doors. The
//! grammar and every failure are captured by the spec functions here,
//! and building stops at the first failure.

use vstd::prelude::*;

use crate::direction::Direction;
use crate::rooms::{room_v, spec_find, spec_link, ErrV, RoomV, Rooms, RoomsError};
use crate::text::{fields_of, is_skippable, line_fields, skippable, str_eq};

verus! {

/// The direction a field names, if any; the match is exact and
/// case-sensitive.
pub open spec fn direction_of(s: Seq<char>) -> Option<Direction> {
    if s == "north"@ {
        Some(Direction::North)
    } else if s == "south"@ {
        Some(Direction::South)
    } else if s == "east"@ {
        Some(Direction::East)
    } else if s == "west"@ {
        Some(Direction::West)
    } else {
        None
    }
}

/// Exec counterpart of [`direction_of`].
pub fn parse_direction(s: &str) -> (r: Option<Direction>)
    ensures
        r == direction_of(s@),
{
    if str_eq(s, "north") {
        Some(Direction::North)
    } else if str_eq(s, "south") {
        Some(Direction::South)
    } else if str_eq(s, "east") {
        Some(Direction::East)
    } else if str_eq(s, "west") {
        Some(Direction::West)
    } else {
        None
    }
}

/// The effect of one line on a graph under construction: the graph is
/// unchanged (skippable line), extended by a room or a door pair, or
/// the build fails with the one error the line earns. Checks happen in
/// this order: row type, field count, direction, the two room names,
/// and finally occupancy of the two slots of the new pair.
pub open spec fn parse_step(g: Seq<RoomV>, line: Seq<char>) -> Result<Seq<RoomV>, ErrV> {
    if skippable(line) {
        Ok(g)
    } else {
        let fs = fields_of(line);
        if fs[0] == "room"@ {
            if fs.len() != 3 {
                Err(ErrV::MalformedRow { expected: 3, found: fs.len() as int })
            } else {
                Ok(g.push(room_v(fs[1], fs[2])))
            }
        } else if fs[0] == "door"@ {
            if fs.len() != 4 {
                Err(ErrV::MalformedRow { expected: 4, found: fs.len() as int })
            } else {
                match direction_of(fs[2]) {
                    None => Err(ErrV::UnknownDirection(fs[2])),
                    Some(d) => match spec_find(g, fs[1]) {
                        None => Err(ErrV::UnknownRoomName(fs[1])),
                        Some(a) => match spec_find(g, fs[3]) {
                            None => Err(ErrV::UnknownRoomName(fs[3])),
                            Some(b) => if g[a].door(d) is Some || g[b].door(
                                d.spec_opposite(),
                            ) is Some {
                                Err(ErrV::DoorAlreadyLinked(d))
                            } else {
                                Ok(spec_link(g, a, d, b))
                            },
                        },
                    },
                }
            }
        } else {
            Err(ErrV::UnknownRowType(fs[0]))
        }
    }
}

/// All lines applied in order to a graph under construction, stopping
/// at the first failure.
pub open spec fn parse_lines(lines: Seq<Seq<char>>, g: Seq<RoomV>) -> Result<Seq<RoomV>, ErrV>
    decreases lines.len(),
{
    if lines.len() == 0 {
        Ok(g)
    } else {
        match parse_step(g, lines[0]) {
            Ok(g2) => parse_lines(lines.drop_first(), g2),
            Err(e) => Err(e),
        }
    }
}

/// The meaning of a whole room file: the graph its lines build, or the
/// first error; a file that declares no rooms is itself an error.
pub open spec fn parse_graph(lines: Seq<Seq<char>>) -> Result<Seq<RoomV>, ErrV> {
    match parse_lines(lines, Seq::<RoomV>::empty()) {
        Ok(g) => if g.len() == 0 {
            Err(ErrV::EmptyGraph)
        } else {
            Ok(g)
        },
        Err(e) => Err(e),
    }
}

/// Parsing goes line by line: a file extended by one more line parses
/// by parsing the shorter file first and then applying the new line to
/// the graph it built, so each declared room and door lands in the
/// graph exactly where its line says.
pub proof fn lemma_parse_lines_snoc(lines: Seq<Seq<char>>, line: Seq<char>, g: Seq<RoomV>)
    ensures
        parse_lines(lines.push(line), g) == match parse_lines(lines, g) {
            Ok(g2) => parse_step(g2, line),
            Err(e) => Err(e),
        },
    decreases lines.len(),
{
    if lines.len() == 0 {
        assert(lines.push(line)[0] == line);
        assert(lines.push(line).drop_first() =~= Seq::<Seq<char>>::empty());
        assert(parse_lines(lines, g) == Ok::<Seq<RoomV>, ErrV>(g));
        match parse_step(g, line) {
            Ok(g2) => {
                assert(parse_lines(Seq::<Seq<char>>::empty(), g2) == Ok::<Seq<RoomV>, ErrV>(g2));
                assert(parse_lines(lines.push(line), g) == Ok::<Seq<RoomV>, ErrV>(g2));
            },
            Err(e) => {
                assert(parse_lines(lines.push(line), g) == Err::<Seq<RoomV>, ErrV>(e));
            },
        }
    } else {
        assert(lines.push(line)[0] == lines[0]);
        assert(lines.push(line).drop_first() =~= lines.drop_first().push(line));
        match parse_step(g, lines[0]) {
            Ok(g2) => lemma_parse_lines_snoc(lines.drop_first(), line, g2),
            Err(_) => {},
        }
    }
}

/// A found room index is a real position in the graph.
pub proof fn lemma_find_in_range(g: Seq<RoomV>, name: Seq<char>)
    ensures
        spec_find(g, name) is Some ==> 0 <= spec_find(g, name)->Some_0 < g.len(),
    decreases g.len(),
{
    if g.len() > 0 {
        lemma_find_in_range(g.drop_first(), name);
    }
}

/// Apply one line to the graph under construction, exactly as
/// [`parse_step`] says; on failure the graph is left untouched.
fn apply_line(rooms: &mut Rooms, line: &str) -> (r: Result<(), RoomsError>)
    requires
        old(rooms).wf(),
    ensures
        final(rooms).wf(),
        match parse_step(old(rooms)@, line@) {
            Ok(g) => r is Ok && final(rooms)@ == g,
            Err(e) => r is Err && r->Err_0@ == e && *final(rooms) == *old(rooms),
        },
{
    if is_skippable(line) {
        return Ok(());
    }
    // The length call lets the verifier see that the graph is no larger
    // than usize::MAX, which the room-index casts below depend on.
    let _room_count: usize = rooms.vec.len();
    proof {
        assert(old(rooms)@.len() == old(rooms).vec@.len());
        assert(old(rooms)@.len() <= usize::MAX);
    }
    let fs = line_fields(line);
    proof {
        assert(fs.deep_view() == fields_of(line@));
        assert(fs@[0]@ == fields_of(line@)[0]);
    }
    if str_eq(fs[0].as_str(), "room") {
        if fs.len() != 3 {
            return Err(RoomsError::MalformedRow { expected: 3, found: fs.len() });
        }
        proof {
            assert(fs@[1]@ == fields_of(line@)[1]);
            assert(fs@[2]@ == fields_of(line@)[2]);
        }
        rooms.add_room(fs[1].as_str(), fs[2].as_str());
        Ok(())
    } else if str_eq(fs[0].as_str(), "door") {
        if fs.len() != 4 {
            return Err(RoomsError::MalformedRow { expected: 4, found: fs.len() });
        }
        proof {
            assert(fs@[1]@ == fields_of(line@)[1]);
            assert(fs@[2]@ == fields_of(line@)[2]);
            assert(fs@[3]@ == fields_of(line@)[3]);
            lemma_find_in_range(old(rooms)@, fields_of(line@)[1]);
            lemma_find_in_range(old(rooms)@, fields_of(line@)[3]);
        }
        let d = match parse_direction(fs[2].as_str()) {
            Some(d) => d,
            None => {
                return Err(RoomsError::UnknownDirection(fs[2].clone()));
            },
        };
        let a = match rooms.find(fs[1].as_str()) {
            Some(a) => a,
            None => {
                return Err(RoomsError::UnknownRoomName(fs[1].clone()));
            },
        };
        let b = match rooms.find(fs[3].as_str()) {
            Some(b) => b,
            None => {
                return Err(RoomsError::UnknownRoomName(fs[3].clone()));
            },
        };
        let ok = rooms.link(a, d, b);
        if !ok {
            return Err(RoomsError::DoorAlreadyLinked(d));
        }
        Ok(())
    } else {
        Err(RoomsError::UnknownRowType(fs[0].clone()))
    }
}

impl Rooms {
    /// Build a graph from the lines of a room file, exactly as
    /// [`parse_graph`] says: the returned graph holds the declared
    /// rooms in declaration order with the declared (and reciprocal)
    /// doors and nothing else, or the first error is returned and no
    /// graph at all.
    pub fn read(lines: &Vec<String>) -> (r: Result<Rooms, RoomsError>)
        ensures
            match parse_graph(lines.deep_view()) {
                Ok(g) => r is Ok && r->Ok_0@ == g && r->Ok_0.wf() && g.len() > 0,
                Err(e) => r is Err && r->Err_0@ == e,
            },
    {
        let ghost lv = lines.deep_view();
        let mut rooms = Rooms::empty();
        let n = lines.len();
        proof {
            assert(lv.skip(0) =~= lv);
        }
        let mut k: usize = 0;
        while k < n
            invariant
                k <= n,
                n == lines@.len(),
                lv == lines.deep_view(),
                lv.len() == n,
                rooms.wf(),
                parse_lines(lv, Seq::<RoomV>::empty()) == parse_lines(
                    lv.skip(k as int),
                    rooms@,
                ),
            decreases n - k,
        {
            let ghost g0 = rooms@;
            let line = &lines[k];
            proof {
                assert(line@ == lv[k as int]);
                assert(lv.skip(k as int)[0] == lv[k as int]);
                assert(lv.skip(k as int).drop_first() =~= lv.skip(k as int + 1));
            }
            match apply_line(&mut rooms, line.as_str()) {
                Ok(_) => {},
                Err(e) => {
                    proof {
                        assert(parse_lines(lv.skip(k as int), g0) == Err::<Seq<RoomV>, ErrV>(e@));
                    }
                    return Err(e);
                },
            }
            k = k + 1;
        }
        proof {
            assert(lv.skip(n as int) =~= Seq::<Seq<char>>::empty());
        }
        if rooms.vec.is_empty() {
            return Err(RoomsError::EmptyGraph);
        }
        Ok(rooms)
    }
}

} // verus!
