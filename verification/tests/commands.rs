use window_commands::command::Command;
use window_commands::command::QUIT_EXIT_CODE;

fn all_commands() -> Vec<Command> {
    vec![
        Command::Greet,
        Command::MoveWindow,
        Command::DragWindow,
        Command::GetScreenSize,
        Command::GetWindowPosition,
        Command::QuitApp,
    ]
}

#[test]
fn each_command_has_its_name() {
    assert_eq!(Command::Greet.name(), "greet");
    assert_eq!(Command::MoveWindow.name(), "move_window");
    assert_eq!(Command::DragWindow.name(), "drag_window");
    assert_eq!(Command::GetScreenSize.name(), "get_screen_size");
    assert_eq!(Command::GetWindowPosition.name(), "get_window_position");
    assert_eq!(Command::QuitApp.name(), "quit_app");
}

#[test]
fn each_name_finds_its_command() {
    assert_eq!(Command::from_name("greet"), Some(Command::Greet));
    assert_eq!(Command::from_name("move_window"), Some(Command::MoveWindow));
    assert_eq!(Command::from_name("drag_window"), Some(Command::DragWindow));
    assert_eq!(Command::from_name("get_screen_size"), Some(Command::GetScreenSize));
    assert_eq!(
        Command::from_name("get_window_position"),
        Some(Command::GetWindowPosition)
    );
    assert_eq!(Command::from_name("quit_app"), Some(Command::QuitApp));
}

#[test]
fn a_command_is_found_again_by_its_name() {
    for command in all_commands() {
        assert_eq!(Command::from_name(command.name()), Some(command));
    }
}

#[test]
fn no_two_commands_share_a_name() {
    let commands = all_commands();
    for (i, a) in commands.iter().enumerate() {
        for (j, b) in commands.iter().enumerate() {
            assert_eq!(a.name() == b.name(), i == j);
        }
    }
}

#[test]
fn an_unknown_name_finds_nothing() {
    assert_eq!(Command::from_name("resize_window"), None);
    assert_eq!(Command::from_name(""), None);
}

#[test]
fn names_are_taken_letter_for_letter() {
    assert_eq!(Command::from_name("Greet"), None);
    assert_eq!(Command::from_name("greet "), None);
    assert_eq!(Command::from_name(" greet"), None);
    assert_eq!(Command::from_name("move-window"), None);
    assert_eq!(Command::from_name("moveWindow"), None);
    assert_eq!(Command::from_name("quit_app\0"), None);
}

#[test]
fn quitting_ends_with_code_zero() {
    assert_eq!(QUIT_EXIT_CODE, 0);
}
