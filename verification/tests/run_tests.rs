use noted::date::LocalDate;
use noted::error::NoteError;
use noted::note::{get_daily_note_path, NotePath};
use noted::run::{
    exit_status, settle_creation, settle_directory, CreateOutcome, DirectoryOutcome, NoteStatus,
};
use noted::store::StorePath;

fn note_on(year: i32, month: u32, day: u32) -> NotePath {
    let store = StorePath { base: "/srv/notes".to_string(), subdirectory: None };
    get_daily_note_path(&store, &LocalDate::new(year, month, day).unwrap())
}

#[test]
fn directory_that_is_there_lets_the_run_go_on() {
    assert_eq!(settle_directory("/srv/notes".to_string(), DirectoryOutcome::Ready), Ok(()));
}

#[test]
fn directory_refusal_settles_as_a_directory_creation_error() {
    let settled = settle_directory(
        "/srv/notes".to_string(),
        DirectoryOutcome::Failed { cause: "Not a directory (os error 20)".to_string() },
    );
    assert_eq!(
        settled,
        Err(NoteError::DirectoryCreation {
            path: "/srv/notes".to_string(),
            cause: "Not a directory (os error 20)".to_string(),
        })
    );
}

#[test]
fn new_note_settles_as_created() {
    let settled = settle_creation("/srv/notes/2024-03-07.md".to_string(), CreateOutcome::Created);
    assert_eq!(settled, Ok(NoteStatus::Created));
}

#[test]
fn note_that_was_there_settles_as_present() {
    let settled =
        settle_creation("/srv/notes/2024-03-07.md".to_string(), CreateOutcome::AlreadyExists);
    assert_eq!(settled, Ok(NoteStatus::AlreadyPresent));
}

#[test]
fn second_run_on_one_day_finds_the_note_of_the_first() {
    let first = note_on(2024, 3, 7);
    let second = note_on(2024, 3, 7);
    assert_eq!(first, second);
    let path = format!("{}/{}", first.store.base, first.file_name);
    assert_eq!(settle_creation(path.clone(), CreateOutcome::Created), Ok(NoteStatus::Created));
    assert_eq!(
        settle_creation(path, CreateOutcome::AlreadyExists),
        Ok(NoteStatus::AlreadyPresent)
    );
}

#[test]
fn refusal_settles_as_a_file_creation_error() {
    let settled = settle_creation(
        "/srv/notes/2024-03-07.md".to_string(),
        CreateOutcome::Failed { cause: "Permission denied (os error 13)".to_string() },
    );
    assert_eq!(
        settled,
        Err(NoteError::FileCreation {
            path: "/srv/notes/2024-03-07.md".to_string(),
            cause: "Permission denied (os error 13)".to_string(),
        })
    );
}

#[test]
fn exit_status_is_zero_only_for_success() {
    assert_eq!(exit_status(&Ok(NoteStatus::Created)), 0);
    assert_eq!(exit_status(&Ok(NoteStatus::AlreadyPresent)), 0);
    assert_eq!(exit_status(&Err(NoteError::Configuration)), 1);
    assert_eq!(
        exit_status(&Err(NoteError::DirectoryCreation {
            path: "/srv/notes".to_string(),
            cause: "Permission denied (os error 13)".to_string(),
        })),
        1
    );
    assert_eq!(
        exit_status(&Err(NoteError::FileCreation {
            path: "/srv/notes/2024-03-07.md".to_string(),
            cause: "Permission denied (os error 13)".to_string(),
        })),
        1
    );
}
