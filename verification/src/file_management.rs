//! Where the file index is kept.

use vstd::prelude::*;
use vstd::string::*;

verus! {

/// The path of the index file for a data directory: `files.json` inside the
/// directory, or `files.json` alone where no directory is named.
pub open spec fn files_json_path(data_dir: Seq<char>) -> Seq<char> {
    if data_dir.len() == 0 {
        "files.json"@
    } else {
        data_dir + "/files.json"@
    }
}

/// Names the index file of the data directory `data_dir`.
pub fn get_files_json_path(data_dir: &str) -> (path: String)
    ensures
        path@ == files_json_path(data_dir@),
{
    if data_dir.is_empty() {
        String::from_str("files.json")
    } else {
        String::from_str(data_dir).concat("/files.json")
    }
}

} // verus!
