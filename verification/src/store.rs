//! Loading and saving the document.
//!
//! A load never fails: whatever is wrong with the file, the application
//! starts from empty data. A save replaces the whole document; the caller
//! writes the text it is given. Reading and writing the file itself is the
//! caller's business, so that everything here is a function of its arguments.

use crate::json::{parse_value, parsed_tree, pretty_text, render_pretty, tree_of, JsonTree};
use crate::model::{AppData, AppDataView, Category, ToDoList};
use crate::schema::{
    app_data_from_value, app_data_of_tree, app_data_to_value, app_data_tree,
    lemma_app_data_round_trip,
};
use vstd::prelude::*;

verus! {

/// What the caller found where the document is kept.
#[derive(Clone, Debug, PartialEq, Eq)]
pub enum StoredFile {
    /// There is no file.
    Missing,
    /// There is a file, and it could not be read as text.
    Unreadable,
    /// The text of the file.
    Contents(String),
}

/// Why a save produced no text.
#[derive(Clone, Copy, Debug, PartialEq, Eq)]
pub enum SaveError {
    /// The data could not be printed as JSON.
    Serialize,
}

/// The data that a document stands for: the data it is read as, and empty
/// data where it is not read as application data.
pub open spec fn data_of_tree(t: JsonTree) -> AppDataView {
    match app_data_of_tree(t) {
        Some(data) => data,
        None => AppDataView::empty(),
    }
}

/// The data that a text stands for: that of the document it holds, and
/// empty data where it holds no JSON document.
pub open spec fn data_of_text(text: Seq<char>) -> AppDataView {
    match parsed_tree(text) {
        Some(t) => data_of_tree(t),
        None => AppDataView::empty(),
    }
}

/// The data that a load yields for what was found on disk.
pub open spec fn data_of_file(file: StoredFile) -> AppDataView {
    match file {
        StoredFile::Missing => AppDataView::empty(),
        StoredFile::Unreadable => AppDataView::empty(),
        StoredFile::Contents(text) => data_of_text(text@),
    }
}

/// The text that a save produces for some data, if it produces one.
pub open spec fn text_of_data(data: AppDataView) -> Option<Seq<char>> {
    pretty_text(app_data_tree(data))
}

/// The data that a save is given: the categories and the lists, each in
/// the order given.
pub open spec fn saved_data(categories: Seq<Category>, lists: Seq<ToDoList>) -> AppDataView {
    AppDataView {
        categories: categories.map_values(|c: Category| c@),
        lists: lists.map_values(|l: ToDoList| l@),
    }
}

/// The data for what the JSON reader returned: the data the document is
/// read as; empty data for a document of another shape and for a reader's
/// error.
pub fn data_of_parsed(parsed: Result<serde_json::Value, serde_json::Error>) -> (data: AppData)
    ensures
        data@ == match parsed {
            Ok(v) => data_of_tree(tree_of(v)),
            Err(_) => AppDataView::empty(),
        },
{
    match parsed {
        Ok(v) => match app_data_from_value(&v) {
            Some(data) => data,
            None => AppData::empty(),
        },
        Err(_) => AppData::empty(),
    }
}

/// The data that the text of a document stands for.
///
/// Text that is no JSON, the empty text among it, and JSON of another shape
/// all give empty data.
pub fn parse_app_data(contents: &str) -> (data: AppData)
    ensures
        data@ == data_of_text(contents@),
        contents@.len() == 0 ==> data@ == AppDataView::empty(),
        parsed_tree(contents@) is None ==> data@ == AppDataView::empty(),
{
    data_of_parsed(parse_value(contents))
}

/// Loads the application data from what was found on disk.
///
/// A missing file is no error: the application has stored nothing yet. A
/// file that cannot be read counts as an empty text, which holds no
/// document. Neither does a load fail on a text that is not the document of
/// some application data: it yields empty data.
pub fn load_app_data(file: &StoredFile) -> (data: AppData)
    ensures
        data@ == data_of_file(*file),
        data@ == match *file {
            StoredFile::Missing => AppDataView::empty(),
            StoredFile::Unreadable => AppDataView::empty(),
            StoredFile::Contents(text) => match parsed_tree(text@) {
                None => AppDataView::empty(),
                Some(document) => match app_data_of_tree(document) {
                    None => AppDataView::empty(),
                    Some(stored) => stored,
                },
            },
        },
{
    match file {
        StoredFile::Missing => AppData::empty(),
        StoredFile::Unreadable => {
            proof {
                reveal_strlit("");
            }
            parse_app_data("")
        },
        StoredFile::Contents(text) => parse_app_data(text.as_str()),
    }
}

/// The outcome of a save for what the JSON printer returned: its text, or
/// the one error of a save.
pub fn save_outcome(rendered: Result<String, serde_json::Error>) -> (r: Result<String, SaveError>)
    ensures
        r == match rendered {
            Ok(text) => Ok::<String, SaveError>(text),
            Err(_) => Err::<String, SaveError>(SaveError::Serialize),
        },
{
    match rendered {
        Ok(text) => Ok(text),
        Err(_) => Err(SaveError::Serialize),
    }
}

/// The text of the document for some data, pretty-printed; an error
/// where the JSON printer gives no text.
pub fn render_app_data(data: &AppData) -> (r: Result<String, SaveError>)
    ensures
        match r {
            Ok(text) => text_of_data(data@) == Some(text@),
            Err(e) => text_of_data(data@) is None && e == SaveError::Serialize,
        },
{
    let value = app_data_to_value(data);
    save_outcome(render_pretty(&value))
}

/// Saves the application data: the text that is to replace the file.
///
/// The text depends on the data given and on nothing else, so that what an
/// earlier save wrote leaves no trace in it.
pub fn save_app_data(categories: Vec<Category>, lists: Vec<ToDoList>) -> (r: Result<
    String,
    SaveError,
>)
    ensures
        match r {
            Ok(text) => text_of_data(saved_data(categories@, lists@)) == Some(text@),
            Err(e) => text_of_data(saved_data(categories@, lists@)) is None && e
                == SaveError::Serialize,
        },
{
    let data = AppData { categories, lists };
    render_app_data(&data)
}

/// Loading what was saved yields the data that was saved: if the file
/// still holds the text that a save of `data` produced, then a load yields
/// `data`, provided the JSON reader reads from that text the document that
/// the printer was given.
pub proof fn lemma_load_after_save(data: AppDataView, text: String)
    requires
        text_of_data(data) == Some(text@),
    ensures
        parsed_tree(text@) == Some(app_data_tree(data)) ==> data_of_file(
            StoredFile::Contents(text),
        ) == data,
{
    lemma_app_data_round_trip(data);
}

} // verus!
