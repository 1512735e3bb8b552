//! The record that the file index keeps of one uploaded file.

use vstd::prelude::*;
use vstd::string::*;

verus! {

/// The layout of an upload time: year, month, day, hour, minute, second.
pub open spec fn time_layout() -> Seq<char> {
    "%Y-%m-%d %H:%M:%S"@
}

/// `chrono::Utc::now`, written out by `DateTime::format` and `to_string`:
/// the current time in UTC in the given layout. It depends on the clock, so
/// nothing is said of the text. The layout is held to the one that the
/// library uses, which the formatter accepts; the clock of the machine is
/// expected to stand after the start of 1970.
#[verifier::external_body]
fn current_time(layout: &str) -> (text: String)
    requires
        layout@ == time_layout(),
{
    chrono::Utc::now().format(layout).to_string()
}

/// One entry of the file index.
#[derive(Debug, Clone, PartialEq, Eq)]
pub struct FileEntry {
    /// The blob id under which the file was stored.
    pub id: String,
    /// The name of the file.
    pub name: String,
    /// When the file was uploaded, in UTC, as `YYYY-MM-DD hh:mm:ss`.
    pub uploaded_at: String,
}

/// The mathematical content of a [`FileEntry`].
pub ghost struct FileEntryView {
    pub id: Seq<char>,
    pub name: Seq<char>,
    pub uploaded_at: Seq<char>,
}

impl DeepView for FileEntry {
    type V = FileEntryView;

    open spec fn deep_view(&self) -> FileEntryView {
        FileEntryView { id: self.id@, name: self.name@, uploaded_at: self.uploaded_at@ }
    }
}

impl FileEntry {
    /// Records a file that was uploaded at the given time.
    pub fn uploaded(id: String, name: String, uploaded_at: String) -> (entry: FileEntry)
        ensures
            entry.deep_view() == (FileEntryView {
                id: id@,
                name: name@,
                uploaded_at: uploaded_at@,
            }),
    {
        FileEntry { id, name, uploaded_at }
    }

    /// Records a file that was uploaded just now.
    pub fn new(id: String, name: String) -> (entry: FileEntry)
        ensures
            entry.id@ == id@,
            entry.name@ == name@,
    {
        FileEntry::uploaded(id, name, current_time("%Y-%m-%d %H:%M:%S"))
    }
}

} // verus!
