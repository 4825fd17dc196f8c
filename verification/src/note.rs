//! Today's note: where it lies and what it is called.

use crate::date::{
    date_text, digit_char, is_calendar_date, lemma_date_text_format, lemma_date_text_tells_date,
    DateView, LocalDate,
};
use crate::error::NoteErrorView;
use crate::store::{resolved_store, StorePath, StorePathView};
use vstd::prelude::*;
use vstd::string::*;

verus! {

/// What follows the date in a note's file name.
pub const NOTE_EXTENSION: &'static str = ".md";

/// A note: the file `file_name` directly inside `store`.
#[derive(Debug, PartialEq, Eq)]
pub struct NotePath {
    pub store: StorePath,
    pub file_name: String,
}

/// What a [`NotePath`] stands for.
pub struct NotePathView {
    pub store: StorePathView,
    pub file_name: Seq<char>,
}

impl View for NotePath {
    type V = NotePathView;

    open spec fn view(&self) -> NotePathView {
        NotePathView { store: self.store@, file_name: self.file_name@ }
    }
}

/// The file name of the note for `date`: the date as text, then
/// [`NOTE_EXTENSION`].
pub open spec fn note_name(date: DateView) -> Seq<char> {
    date_text(date.year, date.month, date.day) + NOTE_EXTENSION@
}

/// The note for `date` in `store`: the file of that day's name, directly
/// inside the store.
pub open spec fn daily_note(store: StorePathView, date: DateView) -> NotePathView {
    NotePathView { store, file_name: note_name(date) }
}

/// The note for `date` in the store `store_path`. Nothing is read or written.
pub fn get_daily_note_path(store_path: &StorePath, date: &LocalDate) -> (path: NotePath)
    ensures
        path@ == daily_note(store_path@, date@),
{
    let mut file_name = date.text();
    file_name.append(NOTE_EXTENSION);
    NotePath { store: store_path.clone(), file_name }
}

/// With a store chosen, the note of a day lies directly in the chosen
/// directory, under the day's date and the extension `.md`, whatever data
/// directory the platform offers.
pub proof fn lemma_chosen_store_holds_note(
    chosen: Seq<char>,
    data_dir: Option<Seq<char>>,
    date: DateView,
)
    requires
        chosen.len() > 0,
    ensures
        resolved_store(Some(chosen), data_dir) == Ok::<StorePathView, NoteErrorView>(
            StorePathView { base: chosen, subdirectory: None },
        ),
        daily_note(StorePathView { base: chosen, subdirectory: None }, date) == (NotePathView {
            store: StorePathView { base: chosen, subdirectory: None },
            file_name: date_text(date.year, date.month, date.day) + ".md"@,
        }),
{
}

/// For the years 0 to 9999 a note's file name is `YYYY-MM-DD.md`: thirteen
/// characters, digits but for the two hyphens and the extension.
pub proof fn lemma_note_name_format(date: DateView)
    requires
        is_calendar_date(date.year, date.month, date.day),
        0 <= date.year <= 9999,
    ensures
        note_name(date) == seq![
            digit_char(date.year / 1000),
            digit_char(date.year / 100 % 10),
            digit_char(date.year / 10 % 10),
            digit_char(date.year % 10),
            '-',
            digit_char(date.month / 10),
            digit_char(date.month % 10),
            '-',
            digit_char(date.day / 10),
            digit_char(date.day % 10),
            '.',
            'm',
            'd',
        ],
        note_name(date).len() == 13,
{
    lemma_date_text_format(date.year, date.month, date.day);
    reveal_strlit(".md");
    assert(NOTE_EXTENSION@ =~= seq!['.', 'm', 'd']);
    assert(note_name(date) =~= seq![
        digit_char(date.year / 1000),
        digit_char(date.year / 100 % 10),
        digit_char(date.year / 10 % 10),
        digit_char(date.year % 10),
        '-',
        digit_char(date.month / 10),
        digit_char(date.month % 10),
        '-',
        digit_char(date.day / 10),
        digit_char(date.day % 10),
        '.',
        'm',
        'd',
    ]);
}

/// No two days of the calendar share a note: notes of one name are notes of
/// one day.
pub proof fn lemma_one_note_per_date(a: DateView, b: DateView)
    requires
        is_calendar_date(a.year, a.month, a.day),
        is_calendar_date(b.year, b.month, b.day),
        note_name(a) == note_name(b),
    ensures
        a == b,
{
    reveal_strlit(".md");
    let name = note_name(a);
    let len = name.len() as int;
    assert(date_text(a.year, a.month, a.day) =~= name.subrange(0, len - 3));
    assert(date_text(b.year, b.month, b.day) =~= name.subrange(0, len - 3));
    lemma_date_text_tells_date(a, b);
}

} // verus!
