use walrus_store::data::FileEntry;
use walrus_store::file_management::get_files_json_path;
use walrus_store::mock_api::MockApi;
use walrus_store::text::{bool_word, decimal, prefixed};
use walrus_store::WalrusError;

#[test]
fn decimal_writes_numbers() {
    assert_eq!(decimal(0), "0");
    assert_eq!(decimal(7), "7");
    assert_eq!(decimal(10), "10");
    assert_eq!(decimal(1234567890), "1234567890");
    assert_eq!(decimal(u64::MAX), "18446744073709551615");
}

#[test]
fn bool_word_writes_flags() {
    assert_eq!(bool_word(true), "true");
    assert_eq!(bool_word(false), "false");
}

#[test]
fn prefixed_joins_two_texts() {
    assert_eq!(prefixed("a: ", "b"), "a: b");
    assert_eq!(prefixed("", ""), "");
}

#[test]
fn error_messages() {
    assert_eq!(WalrusError::InvalidUrl("x".to_string()).message(), "Invalid URL: x");
    assert_eq!(
        WalrusError::ApiError(404, "not found".to_string()).message(),
        "API error: 404 - not found"
    );
    assert_eq!(
        WalrusError::ParseError("bad".to_string()).message(),
        "Failed to parse response: bad"
    );
    assert_eq!(
        WalrusError::InvalidParameter("flags".to_string()).message(),
        "Invalid parameter: flags"
    );
    assert_eq!(WalrusError::Unknown("?".to_string()).message(), "Unknown error: ?");
}

#[test]
fn transport_error_message_has_the_cause() {
    let cause = reqwest::Client::builder().build().unwrap().get("no url").build().unwrap_err();
    let shown = cause.to_string();
    let message = WalrusError::HttpRequest(cause).message();
    assert_eq!(message, format!("HTTP request failed: {}", shown));
    assert!(message.len() > "HTTP request failed: ".len());
}

#[test]
fn files_json_path_is_inside_the_data_directory() {
    assert_eq!(get_files_json_path("/home/user/.local/share/store"), "/home/user/.local/share/store/files.json");
    assert_eq!(get_files_json_path("data"), "data/files.json");
    assert_eq!(get_files_json_path(""), "files.json");
}

#[test]
fn file_entry_keeps_id_and_name() {
    let entry = FileEntry::new("blob-1".to_string(), "a.txt".to_string());
    assert_eq!(entry.id, "blob-1");
    assert_eq!(entry.name, "a.txt");
    let stamp: Vec<char> = entry.uploaded_at.chars().collect();
    assert_eq!(stamp.len(), 19);
    assert_eq!(stamp[4], '-');
    assert_eq!(stamp[7], '-');
    assert_eq!(stamp[10], ' ');
    assert_eq!(stamp[13], ':');
    assert_eq!(stamp[16], ':');
}

#[test]
fn file_entry_uploaded_keeps_all_fields() {
    let entry = FileEntry::uploaded(
        "id".to_string(),
        "name".to_string(),
        "2024-01-02 03:04:05".to_string(),
    );
    assert_eq!(
        entry,
        FileEntry {
            id: "id".to_string(),
            name: "name".to_string(),
            uploaded_at: "2024-01-02 03:04:05".to_string()
        }
    );
}

#[test]
fn mock_upload_fails_for_a_name_with_error() {
    assert_eq!(
        MockApi::upload_file("has_error.txt", "/tmp/has_error.txt"),
        Err("上传失败：模拟错误发生在文件: /tmp/has_error.txt".to_string())
    );
    let id = MockApi::upload_file("fine.txt", "/tmp/error/fine.txt").unwrap();
    assert_eq!(id.chars().count(), 36);
    let other = MockApi::upload_file("fine.txt", "/tmp/fine.txt").unwrap();
    assert_ne!(id, other);
    assert_eq!(
        MockApi::upload_outcome("fine.txt", "/tmp/fine.txt", "the-id".to_string()),
        Ok("the-id".to_string())
    );
    assert!(MockApi::upload_outcome("error", "p", "the-id".to_string()).is_err());
}

#[test]
fn mock_download_and_delete_fail_for_an_id_with_error() {
    assert_eq!(
        MockApi::download_file("abc"),
        Ok("This is content for file ID: abc".to_string())
    );
    assert_eq!(
        MockApi::download_file("an-error-id"),
        Err("下载失败：模拟错误发生，ID: an-error-id".to_string())
    );
    assert_eq!(MockApi::delete_file("abc".to_string()), Ok("abc".to_string()));
    assert_eq!(
        MockApi::delete_file("error".to_string()),
        Err("删除失败：模拟错误发生，ID: error".to_string())
    );
    assert_eq!(MockApi::delete_file("ERROR".to_string()), Ok("ERROR".to_string()));
}
