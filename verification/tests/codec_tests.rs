use robots::command::{Command, Event};

const ALL_COMMANDS: [Command; 12] = [
    Command::Noop,
    Command::Left,
    Command::Right,
    Command::Down,
    Command::Up,
    Command::UpLeft,
    Command::UpRight,
    Command::DownLeft,
    Command::DownRight,
    Command::Teleport,
    Command::Wait,
    Command::NextLevel,
];

#[test]
fn command_names_round_trip() {
    for c in ALL_COMMANDS {
        assert_eq!(Command::from_name(c.name()), c);
    }
}

#[test]
fn command_names_are_the_replay_format() {
    assert_eq!(Command::Noop.name(), "None");
    assert_eq!(Command::Left.name(), "Left");
    assert_eq!(Command::Right.name(), "Right");
    assert_eq!(Command::Down.name(), "Down");
    assert_eq!(Command::Up.name(), "Up");
    assert_eq!(Command::UpLeft.name(), "UpLeft");
    assert_eq!(Command::UpRight.name(), "UpRight");
    assert_eq!(Command::DownLeft.name(), "DownLeft");
    assert_eq!(Command::DownRight.name(), "DownRight");
    assert_eq!(Command::Teleport.name(), "Teleport");
    assert_eq!(Command::Wait.name(), "Wait");
    assert_eq!(Command::NextLevel.name(), "NextLevel");
}

#[test]
fn unknown_text_decodes_to_the_noop_command() {
    assert_eq!(Command::from_name(""), Command::Noop);
    assert_eq!(Command::from_name("left"), Command::Noop);
    assert_eq!(Command::from_name("sideways"), Command::Noop);
    assert_eq!(Command::from_name("None"), Command::Noop);
}

#[test]
fn event_names_are_stable() {
    assert_eq!(Event::Hit.name(), "hit");
    assert_eq!(Event::Crash.name(), "crash");
    assert_eq!(Event::Win.name(), "win");
    assert_eq!(Event::Invalid.name(), "invalid");
    assert_eq!(Event::Teleport.name(), "teleport");
}
