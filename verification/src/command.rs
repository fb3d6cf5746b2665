//! The commands that the front end can invoke, and the names it invokes them by.

use vstd::prelude::*;
use crate::text::same_text;

verus! {

/// One command of the shell.
#[derive(Clone, Copy, Debug, PartialEq, Eq, Structural)]
pub enum Command {
    /// Answer with a greeting for a name.
    Greet,
    /// Put the window at a position on the screen.
    MoveWindow,
    /// Let the user drag the window with the pointer.
    DragWindow,
    /// Report the size of the monitor that shows the window.
    GetScreenSize,
    /// Report where the window stands on the screen.
    GetWindowPosition,
    /// End the application.
    QuitApp,
}

/// The exit code with which `quit_app` ends the application.
pub const QUIT_EXIT_CODE: i32 = 0;

impl Command {
    /// The name by which the front end invokes the command.
    pub open spec fn spec_name(self) -> Seq<char> {
        match self {
            Command::Greet => "greet"@,
            Command::MoveWindow => "move_window"@,
            Command::DragWindow => "drag_window"@,
            Command::GetScreenSize => "get_screen_size"@,
            Command::GetWindowPosition => "get_window_position"@,
            Command::QuitApp => "quit_app"@,
        }
    }

    /// The command that `name` stands for, if it stands for one. Names are
    /// taken letter for letter: no case folding, no trimming.
    pub open spec fn named(name: Seq<char>) -> Option<Command> {
        if name == "greet"@ {
            Some(Command::Greet)
        } else if name == "move_window"@ {
            Some(Command::MoveWindow)
        } else if name == "drag_window"@ {
            Some(Command::DragWindow)
        } else if name == "get_screen_size"@ {
            Some(Command::GetScreenSize)
        } else if name == "get_window_position"@ {
            Some(Command::GetWindowPosition)
        } else if name == "quit_app"@ {
            Some(Command::QuitApp)
        } else {
            None
        }
    }

    /// The name by which the front end invokes the command.
    pub fn name(self) -> (name: &'static str)
        ensures
            name@ == self.spec_name(),
    {
        match self {
            Command::Greet => "greet",
            Command::MoveWindow => "move_window",
            Command::DragWindow => "drag_window",
            Command::GetScreenSize => "get_screen_size",
            Command::GetWindowPosition => "get_window_position",
            Command::QuitApp => "quit_app",
        }
    }

    /// Finds the command that `name` stands for. `None` means that no
    /// command has this name.
    pub fn from_name(name: &str) -> (found: Option<Command>)
        ensures
            found == Command::named(name@),
    {
        if same_text(name, "greet") {
            Some(Command::Greet)
        } else if same_text(name, "move_window") {
            Some(Command::MoveWindow)
        } else if same_text(name, "drag_window") {
            Some(Command::DragWindow)
        } else if same_text(name, "get_screen_size") {
            Some(Command::GetScreenSize)
        } else if same_text(name, "get_window_position") {
            Some(Command::GetWindowPosition)
        } else if same_text(name, "quit_app") {
            Some(Command::QuitApp)
        } else {
            None
        }
    }
}

/// No two commands share a name.
pub proof fn lemma_names_differ(a: Command, b: Command)
    requires
        a != b,
    ensures
        a.spec_name() != b.spec_name(),
{
    reveal_strlit("greet");
    reveal_strlit("move_window");
    reveal_strlit("drag_window");
    reveal_strlit("get_screen_size");
    reveal_strlit("get_window_position");
    reveal_strlit("quit_app");
    if a.spec_name().len() == b.spec_name().len() {
        assert(a.spec_name()[0] != b.spec_name()[0]);
    }
}

/// A command is found again by its own name.
pub proof fn lemma_named_finds_name(command: Command)
    ensures
        Command::named(command.spec_name()) == Some(command),
{
    if command != Command::Greet {
        lemma_names_differ(command, Command::Greet);
    }
    if command != Command::MoveWindow {
        lemma_names_differ(command, Command::MoveWindow);
    }
    if command != Command::DragWindow {
        lemma_names_differ(command, Command::DragWindow);
    }
    if command != Command::GetScreenSize {
        lemma_names_differ(command, Command::GetScreenSize);
    }
    if command != Command::GetWindowPosition {
        lemma_names_differ(command, Command::GetWindowPosition);
    }
}

/// A name stands for a command exactly when it is that command's name.
pub proof fn lemma_named_has_name(name: Seq<char>, command: Command)
    ensures
        Command::named(name) == Some(command) <==> name == command.spec_name(),
{
    lemma_named_finds_name(command);
}

} // verus!
