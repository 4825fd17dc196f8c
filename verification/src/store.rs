//! Where the notes are kept.

use crate::error::{NoteError, NoteErrorView};
use vstd::prelude::*;
use vstd::string::*;

verus! {

/// The environment variable that names a store of the user's choosing.
pub const STORE_VARIABLE: &'static str = "NOTED_STORE";

/// The directory, beneath the platform's data directory, that holds the store
/// where none was chosen.
pub const APP_DIRECTORY: &'static str = "noted";

/// The store directory: `base`, or `subdirectory` directly inside `base`.
///
/// The two are kept apart so that the caller joins them with the path
/// separator of its platform.
#[derive(Debug, PartialEq, Eq)]
pub struct StorePath {
    pub base: String,
    pub subdirectory: Option<String>,
}

impl Clone for StorePath {
    fn clone(&self) -> (copy: StorePath)
        ensures
            copy@ == self@,
    {
        let subdirectory = match &self.subdirectory {
            Some(name) => Some(name.clone()),
            None => None,
        };
        StorePath { base: self.base.clone(), subdirectory }
    }
}

/// What a [`StorePath`] stands for.
pub struct StorePathView {
    pub base: Seq<char>,
    pub subdirectory: Option<Seq<char>>,
}

impl View for StorePath {
    type V = StorePathView;

    open spec fn view(&self) -> StorePathView {
        StorePathView { base: self.base@, subdirectory: text_of(self.subdirectory) }
    }
}

/// The characters of a string that may be absent.
pub open spec fn text_of(text: Option<String>) -> Option<Seq<char>> {
    match text {
        Some(text) => Some(text@),
        None => None,
    }
}

/// Whether a store was chosen: the variable is set, and not to nothing.
pub open spec fn is_chosen(store_override: Option<Seq<char>>) -> bool {
    store_override matches Some(chosen) && chosen.len() > 0
}

/// The store for a given setting of the variable and a given platform data
/// directory: the chosen directory as it stands, else [`APP_DIRECTORY`] in
/// the data directory, else nothing.
pub open spec fn resolved_store(
    store_override: Option<Seq<char>>,
    data_dir: Option<Seq<char>>,
) -> Result<StorePathView, NoteErrorView> {
    if is_chosen(store_override) {
        Ok(StorePathView { base: store_override->0, subdirectory: None })
    } else {
        match data_dir {
            Some(dir) => Ok(StorePathView { base: dir, subdirectory: Some(APP_DIRECTORY@) }),
            None => Err(NoteErrorView::Configuration),
        }
    }
}

/// The view of a resolver's result.
pub open spec fn outcome_view(outcome: Result<StorePath, NoteError>) -> Result<
    StorePathView,
    NoteErrorView,
> {
    match outcome {
        Ok(store) => Ok(store@),
        Err(error) => Err(error@),
    }
}

/// Calls `dirs::data_dir`.
///
/// Not proved, and nothing is claimed: the answer depends on the platform and
/// on the user's environment. `None` stands for a directory that dirs could
/// not find, and also for one whose path is not Unicode text.
#[verifier::external_body]
fn platform_data_dir() -> (found: Option<String>) {
    match dirs::data_dir() {
        Some(dir) => dir.into_os_string().into_string().ok(),
        None => None,
    }
}

/// Resolves the store from the variable's value and the platform's data
/// directory, both as the caller found them.
pub fn resolve_store_path(store_override: Option<String>, data_dir: Option<String>) -> (outcome:
    Result<StorePath, NoteError>)
    ensures
        outcome_view(outcome) == resolved_store(text_of(store_override), text_of(data_dir)),
{
    if let Some(chosen) = store_override {
        if !chosen.as_str().is_empty() {
            return Ok(StorePath { base: chosen, subdirectory: None });
        }
    }
    match data_dir {
        Some(dir) => Ok(
            StorePath { base: dir, subdirectory: Some(String::from_str(APP_DIRECTORY)) },
        ),
        None => Err(NoteError::Configuration),
    }
}

/// Resolves the store from the variable's value, asking the platform for its
/// data directory only where no store was chosen.
pub fn get_store_path(store_override: Option<String>) -> (outcome: Result<StorePath, NoteError>)
    ensures
        is_chosen(text_of(store_override)) ==> outcome_view(outcome) == resolved_store(
            text_of(store_override),
            None,
        ),
        !is_chosen(text_of(store_override)) ==> exists|data_dir: Option<Seq<char>>|
            outcome_view(outcome) == resolved_store(None, data_dir),
{
    let chosen = match &store_override {
        Some(text) => !text.as_str().is_empty(),
        None => false,
    };
    if chosen {
        resolve_store_path(store_override, None)
    } else {
        let data_dir = platform_data_dir();
        let outcome = resolve_store_path(store_override, data_dir);
        assert(outcome_view(outcome) == resolved_store(None, text_of(data_dir)));
        outcome
    }
}

/// Runs against one chosen store agree on it, whatever the platform offers
/// each of them as its data directory.
pub proof fn lemma_chosen_store_is_stable(
    chosen: Seq<char>,
    first_data_dir: Option<Seq<char>>,
    second_data_dir: Option<Seq<char>>,
)
    requires
        chosen.len() > 0,
    ensures
        resolved_store(Some(chosen), first_data_dir) == resolved_store(
            Some(chosen),
            second_data_dir,
        ),
{
}

/// Where no store is chosen, the store is the directory `noted` inside the
/// platform's data directory, and without a data directory there is none.
pub proof fn lemma_default_store(store_override: Option<Seq<char>>, data_dir: Option<Seq<char>>)
    requires
        !is_chosen(store_override),
    ensures
        data_dir matches Some(dir) ==> resolved_store(store_override, data_dir) == Ok::<
            StorePathView,
            NoteErrorView,
        >(StorePathView { base: dir, subdirectory: Some("noted"@) }),
        data_dir is None ==> resolved_store(store_override, data_dir) == Err::<
            StorePathView,
            NoteErrorView,
        >(NoteErrorView::Configuration),
{
}

} // verus!
