//! A stand-in for the service that decides by the look of its input: a name
//! or an id that holds `error` fails, anything else succeeds.

use vstd::prelude::*;
use vstd::string::*;
use crate::text::{contains_text, occurs_in, prefixed};

verus! {

/// `Uuid::new_v4` written out by `to_string`: a fresh random id in the
/// hyphenated form, which has 36 characters. Which id it is depends on
/// chance; the random source of the machine is expected to answer.
#[verifier::external_body]
fn fresh_id() -> (id: String)
    ensures
        id@.len() == 36,
{
    uuid::Uuid::new_v4().to_string()
}

/// Whether an input makes the stand-in fail.
pub open spec fn asks_for_failure(input: Seq<char>) -> bool {
    occurs_in("error"@, input)
}

/// What the stand-in writes into a file that is downloaded from it.
pub open spec fn mock_content(file_id: Seq<char>) -> Seq<char> {
    "This is content for file ID: "@ + file_id
}

/// The stand-in service.
#[derive(Debug, Clone, Copy, PartialEq, Eq)]
pub struct MockApi;

impl MockApi {
    /// Decides an upload once the id for it has been drawn: a file whose
    /// name holds `error` fails with a message that shows its path, any
    /// other file gets the id.
    pub fn upload_outcome(file_name: &str, shown_path: &str, id: String) -> (outcome: Result<
        String,
        String,
    >)
        ensures
            match outcome {
                Ok(given) => !asks_for_failure(file_name@) && given@ == id@,
                Err(message) => asks_for_failure(file_name@) && message@
                    == "上传失败：模拟错误发生在文件: "@ + shown_path@,
            },
    {
        if contains_text(file_name, "error") {
            Err(prefixed("上传失败：模拟错误发生在文件: ", shown_path))
        } else {
            Ok(id)
        }
    }

    /// Pretends to upload a file: fails for a name that holds `error`, else
    /// hands out a fresh id.
    pub fn upload_file(file_name: &str, shown_path: &str) -> (outcome: Result<String, String>)
        ensures
            match outcome {
                Ok(given) => !asks_for_failure(file_name@) && given@.len() == 36,
                Err(message) => asks_for_failure(file_name@) && message@
                    == "上传失败：模拟错误发生在文件: "@ + shown_path@,
            },
    {
        MockApi::upload_outcome(file_name, shown_path, fresh_id())
    }

    /// Pretends to download a file: fails for an id that holds `error`,
    /// else hands out the content to be written.
    pub fn download_file(file_id: &str) -> (outcome: Result<String, String>)
        ensures
            match outcome {
                Ok(content) => !asks_for_failure(file_id@) && content@ == mock_content(file_id@),
                Err(message) => asks_for_failure(file_id@) && message@
                    == "下载失败：模拟错误发生，ID: "@ + file_id@,
            },
    {
        if contains_text(file_id, "error") {
            Err(prefixed("下载失败：模拟错误发生，ID: ", file_id))
        } else {
            Ok(prefixed("This is content for file ID: ", file_id))
        }
    }

    /// Pretends to delete a file: fails for an id that holds `error`, else
    /// hands the id back.
    pub fn delete_file(file_id: String) -> (outcome: Result<String, String>)
        ensures
            match outcome {
                Ok(deleted) => !asks_for_failure(file_id@) && deleted@ == file_id@,
                Err(message) => asks_for_failure(file_id@) && message@
                    == "删除失败：模拟错误发生，ID: "@ + file_id@,
            },
    {
        if contains_text(file_id.as_str(), "error") {
            Err(prefixed("删除失败：模拟错误发生，ID: ", file_id.as_str()))
        } else {
            Ok(file_id)
        }
    }
}

} // verus!
