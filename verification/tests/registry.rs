use window_commands::command::Command;
use window_commands::registry::Registry;

#[test]
fn a_new_table_serves_nothing() {
    let table = Registry::new();
    assert_eq!(table.len(), 0);
    assert!(!table.is_registered(Command::Greet));
    assert_eq!(table.lookup("greet"), None);
}

#[test]
fn a_registered_command_resolves_by_its_name() {
    let mut table = Registry::new();
    table.register(Command::MoveWindow);
    assert!(table.is_registered(Command::MoveWindow));
    assert_eq!(table.len(), 1);
    assert_eq!(table.lookup("move_window"), Some(Command::MoveWindow));
}

#[test]
fn a_command_that_was_not_registered_does_not_resolve() {
    let mut table = Registry::new();
    table.register(Command::MoveWindow);
    assert!(!table.is_registered(Command::DragWindow));
    assert_eq!(table.lookup("drag_window"), None);
}

#[test]
fn an_unknown_name_does_not_resolve() {
    let mut table = Registry::new();
    table.register(Command::Greet);
    table.register(Command::QuitApp);
    assert_eq!(table.lookup("shutdown"), None);
    assert_eq!(table.lookup(""), None);
    assert_eq!(table.lookup("GREET"), None);
}

#[test]
fn registering_twice_is_registering_once() {
    let mut table = Registry::new();
    table.register(Command::DragWindow);
    table.register(Command::DragWindow);
    assert_eq!(table.len(), 1);
    assert_eq!(table.lookup("drag_window"), Some(Command::DragWindow));
    table.register(Command::QuitApp);
    table.register(Command::DragWindow);
    assert_eq!(table.len(), 2);
    assert_eq!(table.lookup("drag_window"), Some(Command::DragWindow));
    assert_eq!(table.lookup("quit_app"), Some(Command::QuitApp));
}

#[test]
fn the_order_of_registration_does_not_matter() {
    let mut one = Registry::new();
    one.register(Command::Greet);
    one.register(Command::GetScreenSize);
    let mut other = Registry::new();
    other.register(Command::GetScreenSize);
    other.register(Command::Greet);
    for name in ["greet", "get_screen_size", "move_window", "quit_app", "nothing"] {
        assert_eq!(one.lookup(name), other.lookup(name));
    }
    assert_eq!(one.len(), other.len());
}

#[test]
fn a_table_can_serve_every_command() {
    let mut table = Registry::new();
    table.register(Command::Greet);
    table.register(Command::MoveWindow);
    table.register(Command::DragWindow);
    table.register(Command::GetScreenSize);
    table.register(Command::GetWindowPosition);
    table.register(Command::QuitApp);
    assert_eq!(table.len(), 6);
    assert_eq!(
        table.lookup("get_window_position"),
        Some(Command::GetWindowPosition)
    );
}

#[test]
fn looking_up_twice_gives_the_same_command() {
    let mut table = Registry::new();
    table.register(Command::GetScreenSize);
    let first = table.lookup("get_screen_size");
    let second = table.lookup("get_screen_size");
    assert_eq!(first, second);
    assert_eq!(table.len(), 1);
}
