//! A whole playthrough: build the graph from a room file, then walk it
//! with single-character commands, checking the player-visible text on
//! the way.

use rooms::rooms::Rooms;
use rooms::session::{no_door_message, Outcome, Session};
use rooms::direction::Direction;

#[test]
fn parse_then_play() {
    let file: Vec<String> = [
        "# the jail",
        "room; cell; a dark cell",
        "room; corridor; a long corridor",
        "room; yard; the prison yard",
        "door; cell; north; corridor",
        "door; corridor; east; yard",
    ]
    .iter()
    .map(|s| s.to_string())
    .collect();

    let rooms = Rooms::read(&file).expect("the file is well formed");
    let mut session = Session::new(rooms);
    assert_eq!(
        session.current_room().entrance_text(),
        "You find yourself in a dark cell\nThere is a door to the north."
    );

    assert_eq!(session.step("n"), Outcome::Moved);
    assert_eq!(
        session.current_room().entrance_text(),
        "You find yourself in a long corridor\nThere are doors to the south and east."
    );

    assert_eq!(session.step("e"), Outcome::Moved);
    assert_eq!(session.current_room().name, "yard");

    assert_eq!(session.step("n"), Outcome::Blocked(Direction::North));
    assert_eq!(
        no_door_message(Direction::North),
        "There is no door to the north!"
    );
    assert_eq!(session.current_room().name, "yard");

    assert_eq!(session.step("w"), Outcome::Moved);
    assert_eq!(session.step("s"), Outcome::Moved);
    assert_eq!(session.current_room().name, "cell");
    assert_eq!(session.step("q"), Outcome::Quit);
}
