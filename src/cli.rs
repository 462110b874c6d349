use vstd::prelude::*;

verus! {

/// The parsed command line: a command, or none for the interactive list.
pub struct Args {
    pub command: Option<Commands>,
}

/// The commands on tasks, and the group of note commands.
pub enum Commands {
    /// Add a task with a priority name and an optional due date in free text.
    Add { title: String, priority: String, due: Option<String> },
    /// List the tasks of the current scope, or of all scopes, optionally of one status.
    Ls { all: bool, status: Option<String> },
    /// Mark a task done.
    Done { id: i64 },
    /// Remove a task.
    Rm { id: i64 },
    /// Open the interactive list.
    Ui,
    /// A command on notes.
    Note(NoteCommands),
}

/// The commands on notes.
#[allow(inconsistent_fields)]
pub enum NoteCommands {
    /// Add a note with optional content and tags.
    Add { title: String, content: Option<String>, tags: Vec<String> },
    /// List the notes of the current scope, or of all scopes.
    Ls { all: bool },
    /// Show one note.
    Show { id: i64 },
    /// Remove a note.
    Rm { id: i64 },
    /// Overwrite the given fields of a note.
    Edit { id: i64, title: Option<String>, content: Option<String>, tags: Option<Vec<String>> },
}

} // verus!
