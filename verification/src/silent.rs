//! The handlers of the shell that keeps failures to itself: what the host
//! window system refuses is dropped, and the front end sees at most that a
//! value is absent.
//!
//! Moving and dragging the window answer nothing in this shell, so they have
//! no handler here: there is nothing to decide once the host was asked.

use vstd::prelude::*;
use crate::command::Command;
use crate::registry::Registry;

verus! {

/// The answer to `get_screen_size`, from what the host said of the monitor
/// that shows the window: its width and height in pixels where one was found,
/// and nothing where none was found or the host could not tell. The host's
/// error is dropped unread, whatever its type.
pub fn get_screen_size<E>(monitor: Result<Option<(u32, u32)>, E>) -> (size: Option<(u32, u32)>)
    ensures
        size == match monitor {
            Ok(found) => found,
            Err(_) => None,
        },
{
    match monitor {
        Ok(found) => found,
        Err(_) => None,
    }
}

/// The commands that the silent shell serves.
pub open spec fn commands() -> Set<Command> {
    set![
        Command::Greet,
        Command::MoveWindow,
        Command::DragWindow,
        Command::GetScreenSize,
        Command::QuitApp,
    ]
}

/// The lookup table of the silent shell.
pub fn registry() -> (table: Registry)
    ensures
        table@ == commands(),
{
    let mut table = Registry::new();
    table.register(Command::Greet);
    table.register(Command::MoveWindow);
    table.register(Command::DragWindow);
    table.register(Command::GetScreenSize);
    table.register(Command::QuitApp);
    assert(table@ =~= commands());
    table
}

} // verus!
