use noted::date::LocalDate;
use noted::note::get_daily_note_path;
use noted::run::{
    exit_status, settle_creation, settle_directory, CreateOutcome, DirectoryOutcome, NoteStatus,
};
use noted::store::get_store_path;

fn today_by_chrono() -> String {
    chrono::Local::now().format("%Y-%m-%d").to_string()
}

#[test]
fn create_daily_note_file() {
    let store = String::from("/tmp/noted-test-store");

    let before = today_by_chrono();
    let resolved = get_store_path(Some(store.clone())).unwrap();
    assert_eq!(settle_directory(store.clone(), DirectoryOutcome::Ready), Ok(()));
    let note = get_daily_note_path(&resolved, &LocalDate::today());
    let after = today_by_chrono();

    assert_eq!(note.store.base, store);
    assert_eq!(note.store.subdirectory, None);
    assert!(
        note.file_name == format!("{}.md", before) || note.file_name == format!("{}.md", after),
        "Expected daily note file to be named after today, got {:?}",
        note.file_name
    );

    let file = format!("{}/{}", store, note.file_name);
    let settled = settle_creation(file, CreateOutcome::Created);
    assert_eq!(settled, Ok(NoteStatus::Created));
    assert_eq!(exit_status(&settled), 0);
}
