use rooms::direction::Direction;
use rooms::rooms::Rooms;
use rooms::session::{no_door_message, parse_command, Command, Outcome, Session};

fn three_room_line() -> Rooms {
    // rooms [A, B, C]: A and B joined north/south, B and C joined
    // north/south
    let mut rooms = Rooms::empty();
    let a = rooms.add_room("A", "room A");
    let b = rooms.add_room("B", "room B");
    let c = rooms.add_room("C", "room C");
    assert!(rooms.link(a, Direction::North, b));
    assert!(rooms.link(b, Direction::North, c));
    rooms
}

#[test]
fn walk_the_line_and_quit() {
    let mut session = Session::new(three_room_line());
    assert_eq!(session.current, 0);
    assert_eq!(session.step("n"), Outcome::Moved);
    assert_eq!(session.current, 1);
    assert_eq!(session.step("n"), Outcome::Moved);
    assert_eq!(session.current, 2);
    assert_eq!(session.step("n"), Outcome::Blocked(Direction::North));
    assert_eq!(session.current, 2);
    assert_eq!(session.step("s"), Outcome::Moved);
    assert_eq!(session.current, 1);
    assert_eq!(session.step("s"), Outcome::Moved);
    assert_eq!(session.current, 0);
    assert_eq!(session.step("q"), Outcome::Quit);
    assert_eq!(session.current, 0);
}

#[test]
fn navigation_never_alters_rooms() {
    let mut session = Session::new(three_room_line());
    let names: Vec<String> = session.rooms.vec.iter().map(|r| r.name.clone()).collect();
    let descriptions: Vec<String> =
        session.rooms.vec.iter().map(|r| r.description.clone()).collect();
    for line in ["n", "x", "", "n", "n", "e", "w", "s", "s", "s"] {
        session.step(line);
    }
    assert_eq!(session.rooms.vec.len(), 3);
    for (i, room) in session.rooms.vec.iter().enumerate() {
        assert_eq!(room.name, names[i]);
        assert_eq!(room.description, descriptions[i]);
    }
    assert_eq!(session.rooms.door(0, Direction::North), Some(1));
    assert_eq!(session.rooms.door(1, Direction::North), Some(2));
}

#[test]
fn only_first_character_counts() {
    let mut session = Session::new(three_room_line());
    assert_eq!(session.step("north, please\n"), Outcome::Moved);
    assert_eq!(session.current, 1);
    assert_eq!(session.step("quit\n"), Outcome::Quit);
}

#[test]
fn unknown_command_is_huh() {
    let mut session = Session::new(three_room_line());
    assert_eq!(session.step("x"), Outcome::Huh);
    assert_eq!(session.current, 0);
    // case-sensitive: 'N' is not 'n'
    assert_eq!(session.step("N"), Outcome::Huh);
    assert_eq!(session.current, 0);
}

#[test]
fn empty_line_is_ignored() {
    let mut session = Session::new(three_room_line());
    assert_eq!(session.step(""), Outcome::Ignored);
    assert_eq!(session.current, 0);
}

#[test]
fn blocked_in_every_direction() {
    let mut rooms = Rooms::empty();
    rooms.add_room("island", "an island with no doors");
    let mut session = Session::new(rooms);
    assert_eq!(session.step("n"), Outcome::Blocked(Direction::North));
    assert_eq!(session.step("s"), Outcome::Blocked(Direction::South));
    assert_eq!(session.step("e"), Outcome::Blocked(Direction::East));
    assert_eq!(session.step("w"), Outcome::Blocked(Direction::West));
    assert_eq!(session.current, 0);
}

#[test]
fn command_parsing() {
    assert_eq!(parse_command(""), None);
    assert_eq!(parse_command("n"), Some(Command::Move(Direction::North)));
    assert_eq!(parse_command("s"), Some(Command::Move(Direction::South)));
    assert_eq!(parse_command("e"), Some(Command::Move(Direction::East)));
    assert_eq!(parse_command("w"), Some(Command::Move(Direction::West)));
    assert_eq!(parse_command("q"), Some(Command::Quit));
    assert_eq!(parse_command("?"), Some(Command::Unknown));
}

#[test]
fn no_door_messages() {
    assert_eq!(
        no_door_message(Direction::North),
        "There is no door to the north!"
    );
    assert_eq!(
        no_door_message(Direction::West),
        "There is no door to the west!"
    );
}

#[test]
fn current_room_follows_cursor() {
    let mut session = Session::new(three_room_line());
    assert_eq!(session.current_room().name, "A");
    session.step("n");
    assert_eq!(session.current_room().name, "B");
    assert_eq!(session.current_room().description, "room B");
}
