use noted::error::NoteError;
use noted::store::{get_store_path, resolve_store_path, StorePath, APP_DIRECTORY, STORE_VARIABLE};

fn chosen(base: &str) -> StorePath {
    StorePath { base: base.to_string(), subdirectory: None }
}

fn default_in(data_dir: &str) -> StorePath {
    StorePath { base: data_dir.to_string(), subdirectory: Some("noted".to_string()) }
}

#[test]
fn names_are_fixed() {
    assert_eq!(STORE_VARIABLE, "NOTED_STORE");
    assert_eq!(APP_DIRECTORY, "noted");
}

#[test]
fn chosen_store_is_used_as_it_stands() {
    let outcome = resolve_store_path(Some("/srv/notes".to_string()), None);
    assert_eq!(outcome, Ok(chosen("/srv/notes")));
}

#[test]
fn chosen_store_wins_over_the_data_directory() {
    let outcome =
        resolve_store_path(Some("/srv/notes".to_string()), Some("/home/alice/.local/share".to_string()));
    assert_eq!(outcome, Ok(chosen("/srv/notes")));
}

#[test]
fn chosen_store_is_not_tidied() {
    let outcome = resolve_store_path(Some("  relative/./dir//".to_string()), None);
    assert_eq!(outcome, Ok(chosen("  relative/./dir//")));
}

#[test]
fn chosen_store_may_lie_deep_below_missing_directories() {
    let outcome = resolve_store_path(Some("/tmp/a/b/c/d/notes".to_string()), None);
    assert_eq!(outcome, Ok(chosen("/tmp/a/b/c/d/notes")));
}

#[test]
fn unset_variable_gives_the_default_store() {
    let outcome = resolve_store_path(None, Some("/home/alice/.local/share".to_string()));
    assert_eq!(outcome, Ok(default_in("/home/alice/.local/share")));
}

#[test]
fn empty_variable_gives_the_default_store() {
    let outcome = resolve_store_path(Some(String::new()), Some("/home/alice/.local/share".to_string()));
    assert_eq!(outcome, Ok(default_in("/home/alice/.local/share")));
}

#[test]
fn no_store_and_no_data_directory_is_a_configuration_error() {
    assert_eq!(resolve_store_path(None, None), Err(NoteError::Configuration));
    assert_eq!(resolve_store_path(Some(String::new()), None), Err(NoteError::Configuration));
}

#[test]
fn get_store_path_uses_the_chosen_store() {
    assert_eq!(get_store_path(Some("/srv/notes".to_string())), Ok(chosen("/srv/notes")));
}

#[test]
fn get_store_path_falls_back_to_the_platform() {
    let expected = match dirs::data_dir() {
        Some(dir) => match dir.to_str() {
            Some(text) => Ok(default_in(text)),
            None => Err(NoteError::Configuration),
        },
        None => Err(NoteError::Configuration),
    };
    assert_eq!(get_store_path(None), expected);
    assert_eq!(get_store_path(Some(String::new())), expected);
}

#[test]
fn store_path_clones_to_an_equal_path() {
    let store = default_in("/home/alice/.local/share");
    assert_eq!(store.clone(), store);
    let store = chosen("/srv/notes");
    assert_eq!(store.clone(), store);
}
