//! The steps of a run, and what their outcomes mean.
//!
//! A run creates the store directory, then the note in it. The caller does
//! both and reports what the operating system answered; the first refusal
//! ends the run.

use crate::error::{NoteError, NoteErrorView};
use vstd::prelude::*;

verus! {

/// What an attempt to create the store directory, and every directory
/// missing above it, came to.
#[derive(Debug, PartialEq, Eq)]
pub enum DirectoryOutcome {
    /// The directory is there: it was created, or it was there before.
    Ready,
    /// The operating system refused, for `cause`.
    Failed { cause: String },
}

/// What an attempt to create the note, new and empty, came to.
#[derive(Debug, PartialEq, Eq)]
pub enum CreateOutcome {
    /// The file was not there and now is.
    Created,
    /// A file of that name was there already. It was not opened.
    AlreadyExists,
    /// The operating system refused, for `cause`.
    Failed { cause: String },
}

/// How the note came to exist.
#[derive(Debug, Clone, Copy, PartialEq, Eq)]
pub enum NoteStatus {
    /// This run created it, empty.
    Created,
    /// It was there before this run, and has been left as it was.
    AlreadyPresent,
}

/// Settles the first step, once creating the store directory at `path` has
/// been attempted: the run goes on only if the directory is there.
pub fn settle_directory(path: String, outcome: DirectoryOutcome) -> (settled: Result<(), NoteError>)
    ensures
        outcome is Ready ==> settled is Ok,
        outcome matches DirectoryOutcome::Failed { cause } ==> settled matches Err(error) && error@
            == (NoteErrorView::DirectoryCreation { path: path@, cause: cause@ }),
{
    match outcome {
        DirectoryOutcome::Ready => Ok(()),
        DirectoryOutcome::Failed { cause } => Err(NoteError::DirectoryCreation { path, cause }),
    }
}

/// Settles the second step, once creating the note at `path` has been
/// attempted: a note that was there already is as good as a new one, and any
/// other refusal ends the run.
pub fn settle_creation(path: String, outcome: CreateOutcome) -> (settled: Result<
    NoteStatus,
    NoteError,
>)
    ensures
        outcome is Created ==> settled == Ok::<NoteStatus, NoteError>(NoteStatus::Created),
        outcome is AlreadyExists ==> settled == Ok::<NoteStatus, NoteError>(
            NoteStatus::AlreadyPresent,
        ),
        outcome matches CreateOutcome::Failed { cause } ==> settled matches Err(error) && error@
            == (NoteErrorView::FileCreation { path: path@, cause: cause@ }),
{
    match outcome {
        CreateOutcome::Created => Ok(NoteStatus::Created),
        CreateOutcome::AlreadyExists => Ok(NoteStatus::AlreadyPresent),
        CreateOutcome::Failed { cause } => Err(NoteError::FileCreation { path, cause }),
    }
}

/// The status with which the process ends: zero for a run that left the note
/// in place, one for a run that failed.
pub fn exit_status(settled: &Result<NoteStatus, NoteError>) -> (status: i32)
    ensures
        status == (if settled is Ok {
            0int
        } else {
            1int
        }),
{
    match settled {
        Ok(_) => 0,
        Err(_) => 1,
    }
}

} // verus!
