//! The handlers of the shell that reports failures: whatever the host window
//! system refuses comes back to the front end as a sentence that says what
//! failed, followed by the host's own error.
//!
//! A handler here takes what the host answered, as plain values, and gives the
//! answer for the front end. The caller renders the host's error as text.

use vstd::prelude::*;
use crate::command::Command;
use crate::registry::Registry;
use crate::text::prefixed;

verus! {

/// What the reporting shell answers under the words `words`: a success is
/// handed on as it is, and a failure becomes `words` followed by its cause.
pub open spec fn reported<T>(
    outcome: Result<T, String>,
    words: Seq<char>,
    answer: Result<T, String>,
) -> bool {
    match outcome {
        Ok(value) => answer == Ok::<T, String>(value),
        Err(cause) => answer matches Err(message) && message@ == words + cause@,
    }
}

/// What `get_screen_size` answers: the size of the monitor that was found, and
/// an error where none was found or the host could not tell.
pub open spec fn screen_size_reported(
    monitor: Result<Option<(u32, u32)>, String>,
    answer: Result<(u32, u32), String>,
) -> bool {
    match monitor {
        Ok(Some(size)) => answer == Ok::<(u32, u32), String>(size),
        Ok(None) => answer matches Err(message) && message@ == "No monitor found"@,
        Err(cause) => {
            answer matches Err(message) && message@ == "Failed to get monitor: "@ + cause@
        },
    }
}

/// Two answers that the front end cannot tell apart: the same value, or
/// errors with the same text.
pub open spec fn same_answer<T>(first: Result<T, String>, second: Result<T, String>) -> bool {
    match (first, second) {
        (Ok(a), Ok(b)) => a == b,
        (Err(a), Err(b)) => a@ == b@,
        _ => false,
    }
}

/// Hands a success on and puts `words` before the cause of a failure.
fn report<T>(outcome: Result<T, String>, words: &str) -> (answer: Result<T, String>)
    ensures
        reported(outcome, words@, answer),
{
    match outcome {
        Ok(value) => Ok(value),
        Err(cause) => Err(prefixed(words, cause.as_str())),
    }
}

/// The answer to `move_window`, from what the host said when it was asked to
/// put the window at the new position.
pub fn move_window(outcome: Result<(), String>) -> (answer: Result<(), String>)
    ensures
        reported(outcome, "Failed to move window: "@, answer),
{
    report(outcome, "Failed to move window: ")
}

/// The answer to `drag_window`, from what the host said when it was asked to
/// start the drag. The host refuses where no pointer button is held down:
/// that refusal is reported like any other.
pub fn drag_window(outcome: Result<(), String>) -> (answer: Result<(), String>)
    ensures
        reported(outcome, "Failed to start dragging window: "@, answer),
{
    report(outcome, "Failed to start dragging window: ")
}

/// The answer to `get_screen_size`, from what the host said of the monitor
/// that shows the window: its width and height in pixels, `None` where the
/// window is on no monitor.
pub fn get_screen_size(
    monitor: Result<Option<(u32, u32)>, String>,
) -> (answer: Result<(u32, u32), String>)
    ensures
        screen_size_reported(monitor, answer),
{
    match monitor {
        Ok(Some(size)) => Ok(size),
        Ok(None) => Err(String::from_str("No monitor found")),
        Err(cause) => Err(prefixed("Failed to get monitor: ", cause.as_str())),
    }
}

/// The answer to `get_window_position`, from what the host said of the
/// window's outer position: the pixel coordinates of its top-left corner.
pub fn get_window_position(
    position: Result<(i32, i32), String>,
) -> (answer: Result<(i32, i32), String>)
    ensures
        reported(position, "Failed to get window position: "@, answer),
{
    report(position, "Failed to get window position: ")
}

/// The commands that the reporting shell serves.
pub open spec fn commands() -> Set<Command> {
    set![
        Command::GetScreenSize,
        Command::MoveWindow,
        Command::DragWindow,
        Command::GetWindowPosition,
        Command::QuitApp,
    ]
}

/// The lookup table of the reporting shell.
pub fn registry() -> (table: Registry)
    ensures
        table@ == commands(),
{
    let mut table = Registry::new();
    table.register(Command::GetScreenSize);
    table.register(Command::MoveWindow);
    table.register(Command::DragWindow);
    table.register(Command::GetWindowPosition);
    table.register(Command::QuitApp);
    assert(table@ =~= commands());
    table
}

/// A handler's answer depends on nothing but what it was given: two answers
/// to the same outcome, under the same words, are the same to the front end.
pub proof fn lemma_reported_once<T>(
    outcome: Result<T, String>,
    words: Seq<char>,
    first: Result<T, String>,
    second: Result<T, String>,
)
    requires
        reported(outcome, words, first),
        reported(outcome, words, second),
    ensures
        same_answer(first, second),
{
}

/// A failure of the host is never swallowed: the answer is an error, its
/// message begins with `words`, and what follows them is the host's error,
/// letter for letter.
pub proof fn lemma_failure_surfaces<T>(
    cause: String,
    words: Seq<char>,
    answer: Result<T, String>,
)
    requires
        reported(Err::<T, String>(cause), words, answer),
    ensures
        answer is Err,
        answer->Err_0@.len() == words.len() + cause@.len(),
        answer->Err_0@.subrange(0, words.len() as int) == words,
        answer->Err_0@.subrange(words.len() as int, answer->Err_0@.len() as int) == cause@,
{
    let message = answer->Err_0@;
    assert(message.subrange(0, words.len() as int) =~= words);
    assert(message.subrange(words.len() as int, message.len() as int) =~= cause@);
}

/// Two answers of `get_screen_size` to the same report of the host are the
/// same to the front end.
pub proof fn lemma_screen_size_reported_once(
    monitor: Result<Option<(u32, u32)>, String>,
    first: Result<(u32, u32), String>,
    second: Result<(u32, u32), String>,
)
    requires
        screen_size_reported(monitor, first),
        screen_size_reported(monitor, second),
    ensures
        same_answer(first, second),
{
}

} // verus!
