//! What can stop a run, and the diagnostic that reports it.

use vstd::prelude::*;
use vstd::string::*;

verus! {

/// A failure that ends the run. None is retried.
#[derive(Debug, PartialEq, Eq)]
pub enum NoteError {
    /// No store was named and the platform offers no data directory.
    Configuration,
    /// The store directory, or one above it, could not be created.
    DirectoryCreation { path: String, cause: String },
    /// The note could not be created.
    FileCreation { path: String, cause: String },
}

/// What a [`NoteError`] stands for.
pub enum NoteErrorView {
    Configuration,
    DirectoryCreation { path: Seq<char>, cause: Seq<char> },
    FileCreation { path: Seq<char>, cause: Seq<char> },
}

impl View for NoteError {
    type V = NoteErrorView;

    open spec fn view(&self) -> NoteErrorView {
        match self {
            NoteError::Configuration => NoteErrorView::Configuration,
            NoteError::DirectoryCreation { path, cause } => NoteErrorView::DirectoryCreation {
                path: path@,
                cause: cause@,
            },
            NoteError::FileCreation { path, cause } => NoteErrorView::FileCreation {
                path: path@,
                cause: cause@,
            },
        }
    }
}

/// The diagnostic for a failed step: what was attempted, on which path, and
/// what the operating system said.
pub open spec fn step_message(step: Seq<char>, path: Seq<char>, cause: Seq<char>) -> Seq<char> {
    step + " "@ + path + ": "@ + cause
}

/// The diagnostic that reports `error`.
pub open spec fn message_text(error: NoteErrorView) -> Seq<char> {
    match error {
        NoteErrorView::Configuration => "Could not determine data directory"@,
        NoteErrorView::DirectoryCreation { path, cause } => step_message(
            "Failed to create store directory"@,
            path,
            cause,
        ),
        NoteErrorView::FileCreation { path, cause } => step_message(
            "Failed to create daily note"@,
            path,
            cause,
        ),
    }
}

/// Writes out [`step_message`].
fn describe_step(step: &str, path: &String, cause: &String) -> (line: String)
    ensures
        line@ == step_message(step@, path@, cause@),
{
    let mut line = String::from_str(step);
    line.append(" ");
    line.append(path.as_str());
    line.append(": ");
    line.append(cause.as_str());
    line
}

impl NoteError {
    /// The diagnostic to show the operator.
    pub fn message(&self) -> (line: String)
        ensures
            line@ == message_text(self@),
    {
        match self {
            NoteError::Configuration => String::from_str("Could not determine data directory"),
            NoteError::DirectoryCreation { path, cause } => describe_step(
                "Failed to create store directory",
                path,
                cause,
            ),
            NoteError::FileCreation { path, cause } => describe_step(
                "Failed to create daily note",
                path,
                cause,
            ),
        }
    }
}

} // verus!
