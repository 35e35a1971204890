use rooms::direction::Direction;
use rooms::rooms::{Rooms, RoomsError};

fn lines(text: &[&str]) -> Vec<String> {
    text.iter().map(|s| s.to_string()).collect()
}

#[test]
fn parser_round_trip() {
    let file = lines(&[
        "# a small house",
        "",
        "room; hall; the entrance hall",
        "room; kitchen; a warm kitchen",
        "room; cellar; a damp cellar",
        "door; hall; north; kitchen",
        "door; hall; east; cellar",
    ]);
    let rooms = Rooms::read(&file).unwrap();
    assert_eq!(rooms.vec.len(), 3);
    assert_eq!(rooms.vec[0].name, "hall");
    assert_eq!(rooms.vec[0].description, "the entrance hall");
    assert_eq!(rooms.vec[1].name, "kitchen");
    assert_eq!(rooms.vec[2].name, "cellar");
    // exactly the declared links and their reciprocals, nothing else
    let expected: [[Option<usize>; 4]; 3] = [
        [Some(1), None, Some(2), None],
        [None, Some(0), None, None],
        [None, None, None, Some(0)],
    ];
    let dirs = [
        Direction::North,
        Direction::South,
        Direction::East,
        Direction::West,
    ];
    for (i, row) in expected.iter().enumerate() {
        for (k, want) in row.iter().enumerate() {
            assert_eq!(rooms.door(i, dirs[k]), *want, "room {} dir {:?}", i, dirs[k]);
        }
    }
}

#[test]
fn fields_are_trimmed() {
    let file = lines(&["  room ;  spaced out  ;  lots of room  "]);
    let rooms = Rooms::read(&file).unwrap();
    assert_eq!(rooms.vec[0].name, "spaced out");
    assert_eq!(rooms.vec[0].description, "lots of room");
}

#[test]
fn empty_file_rejected() {
    let err = Rooms::read(&lines(&[])).unwrap_err();
    assert!(matches!(err, RoomsError::EmptyGraph));
}

#[test]
fn all_comment_file_rejected() {
    let file = lines(&["# nothing here", "", "   ", "# still nothing"]);
    let err = Rooms::read(&file).unwrap_err();
    assert!(matches!(err, RoomsError::EmptyGraph));
}

#[test]
fn unknown_room_name_rejected() {
    let file = lines(&[
        "room; hall; the hall",
        "door; hall; north; ballroom",
    ]);
    let err = Rooms::read(&file).unwrap_err();
    match err {
        RoomsError::UnknownRoomName(name) => assert_eq!(name, "ballroom"),
        other => panic!("expected UnknownRoomName, got {:?}", other),
    }
}

#[test]
fn forward_reference_rejected() {
    // single pass: a door may only name rooms already declared
    let file = lines(&[
        "room; hall; the hall",
        "door; hall; north; kitchen",
        "room; kitchen; a warm kitchen",
    ]);
    let err = Rooms::read(&file).unwrap_err();
    match err {
        RoomsError::UnknownRoomName(name) => assert_eq!(name, "kitchen"),
        other => panic!("expected UnknownRoomName, got {:?}", other),
    }
}

#[test]
fn self_loop_allowed() {
    let file = lines(&["room;Cell;a dark cell", "door;Cell;north;Cell"]);
    let rooms = Rooms::read(&file).unwrap();
    assert_eq!(rooms.vec.len(), 1);
    assert_eq!(rooms.door(0, Direction::North), Some(0));
    // by reciprocity the south door leads back to the cell itself
    assert_eq!(rooms.door(0, Direction::South), Some(0));
    assert_eq!(rooms.door(0, Direction::East), None);
    assert_eq!(rooms.door(0, Direction::West), None);
}

#[test]
fn unknown_direction_rejected() {
    let file = lines(&["door;X;up;Y"]);
    let err = Rooms::read(&file).unwrap_err();
    match err {
        RoomsError::UnknownDirection(d) => assert_eq!(d, "up"),
        other => panic!("expected UnknownDirection, got {:?}", other),
    }
}

#[test]
fn malformed_room_row_rejected() {
    let file = lines(&["room; nameless"]);
    let err = Rooms::read(&file).unwrap_err();
    match err {
        RoomsError::MalformedRow { expected, found } => {
            assert_eq!(expected, 3);
            assert_eq!(found, 2);
        },
        other => panic!("expected MalformedRow, got {:?}", other),
    }
}

#[test]
fn malformed_door_row_rejected() {
    let file = lines(&[
        "room; a; room a",
        "room; b; room b",
        "door; a; north; b; extra",
    ]);
    let err = Rooms::read(&file).unwrap_err();
    match err {
        RoomsError::MalformedRow { expected, found } => {
            assert_eq!(expected, 4);
            assert_eq!(found, 5);
        },
        other => panic!("expected MalformedRow, got {:?}", other),
    }
}

#[test]
fn unknown_row_type_rejected() {
    let file = lines(&["hallway; a; b"]);
    let err = Rooms::read(&file).unwrap_err();
    match err {
        RoomsError::UnknownRowType(t) => assert_eq!(t, "hallway"),
        other => panic!("expected UnknownRowType, got {:?}", other),
    }
}

#[test]
fn relinking_occupied_door_rejected() {
    let file = lines(&[
        "room; a; room a",
        "room; b; room b",
        "room; c; room c",
        "door; a; north; b",
        "door; a; north; c",
    ]);
    let err = Rooms::read(&file).unwrap_err();
    assert!(matches!(
        err,
        RoomsError::DoorAlreadyLinked(Direction::North)
    ));
}

#[test]
fn stops_at_first_error() {
    let file = lines(&[
        "room; a; room a",
        "nonsense; x",
        "door; a; up; a",
    ]);
    let err = Rooms::read(&file).unwrap_err();
    match err {
        RoomsError::UnknownRowType(t) => assert_eq!(t, "nonsense"),
        other => panic!("expected UnknownRowType, got {:?}", other),
    }
}

#[test]
fn error_messages() {
    assert_eq!(
        RoomsError::Io("file vanished".to_string()).message(),
        "IO error: file vanished"
    );
    assert_eq!(
        RoomsError::MalformedRow { expected: 3, found: 12 }.message(),
        "Invalid file: Expected 3 columns, found 12"
    );
    assert_eq!(
        RoomsError::UnknownRoomName("ballroom".to_string()).message(),
        "Invalid file: No room named \"ballroom\""
    );
    assert_eq!(
        RoomsError::UnknownDirection("up".to_string()).message(),
        "Invalid file: Unknown direction \"up\""
    );
    assert_eq!(
        RoomsError::UnknownRowType("hallway".to_string()).message(),
        "Invalid file: Unexpected row type \"hallway\""
    );
    assert_eq!(
        RoomsError::DoorAlreadyLinked(Direction::East).message(),
        "Invalid file: Door to the east is already linked"
    );
    assert_eq!(
        RoomsError::EmptyGraph.message(),
        "Invalid file: No rooms found."
    );
}
