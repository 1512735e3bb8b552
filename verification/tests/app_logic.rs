use walrus_store::app_logic::{handle_message, Command, Message, PickedFile, WalrusStore};
use walrus_store::data::FileEntry;

fn entry(id: &str, name: &str) -> FileEntry {
    FileEntry::uploaded(id.to_string(), name.to_string(), "2024-05-06 07:08:09".to_string())
}

fn store() -> WalrusStore {
    WalrusStore {
        files: vec![entry("id-1", "a.txt"), entry("id-2", "b.txt"), entry("id-3", "c.txt")],
        ..Default::default()
    }
}

fn text(value: &str) -> String {
    value.to_string()
}

#[test]
fn picking_a_file_sets_path_and_name() {
    let mut state = store();
    let outcome = handle_message(&mut state, Message::TriggerFileSelection);
    assert_eq!(outcome.command, Command::PickFile);
    let picked = PickedFile { path: text("/home/u/a.txt"), name: text("a.txt") };
    let outcome = handle_message(&mut state, Message::FileSelected(Some(picked)));
    assert_eq!(outcome.command, Command::Nothing);
    assert!(!outcome.save_index);
    assert_eq!(state.upload_file_path, "/home/u/a.txt");
    assert_eq!(state.upload_file_name, "a.txt");
    assert_eq!(state.status_message, "已选择文件: /home/u/a.txt");
    handle_message(&mut state, Message::FileSelected(None));
    assert_eq!(state.upload_file_path, "");
    assert_eq!(state.status_message, "未选择文件。");
}

#[test]
fn upload_needs_a_picked_file() {
    let mut state = store();
    let outcome = handle_message(&mut state, Message::UploadButtonPressed);
    assert_eq!(outcome.command, Command::Nothing);
    assert_eq!(state.status_message, "请先选择一个文件。");

    let picked = PickedFile { path: text("/home/u/a.txt"), name: text("a.txt") };
    handle_message(&mut state, Message::FileSelected(Some(picked)));
    handle_message(&mut state, Message::UploadProgress(40));
    assert_eq!(state.upload_progress, 40);
    let outcome = handle_message(&mut state, Message::UploadButtonPressed);
    assert_eq!(outcome.command, Command::Upload { path: text("/home/u/a.txt"), name: text("a.txt") });
    assert_eq!(state.status_message, "正在上传 a.txt...");
    assert_eq!(state.upload_progress, 0);
}

#[test]
fn a_finished_upload_joins_the_index() {
    let mut state = store();
    state.upload_file_path = text("/x/new.txt");
    state.upload_progress = 70;
    let outcome = handle_message(&mut state, Message::UploadComplete(Ok(entry("id-9", "new.txt"))));
    assert!(outcome.save_index);
    assert_eq!(outcome.command, Command::Nothing);
    assert_eq!(state.files.len(), 4);
    assert_eq!(state.files[3], entry("id-9", "new.txt"));
    assert_eq!(state.status_message, "上传成功，ID: id-9");
    assert_eq!(state.upload_file_path, "");
    assert_eq!(state.upload_progress, 0);

    let outcome = handle_message(&mut state, Message::UploadComplete(Err(text("offline"))));
    assert!(!outcome.save_index);
    assert_eq!(state.files.len(), 4);
    assert_eq!(state.status_message, "上传失败: offline");
}

#[test]
fn a_download_asks_for_a_folder_first() {
    let mut state = store();
    let outcome = handle_message(&mut state, Message::DownloadButtonPressed(text("id-2")));
    assert_eq!(outcome.command, Command::PickDownloadFolder(text("id-2")));
    let outcome = handle_message(&mut state, Message::TriggerDownloadSelection(text("id-2")));
    assert_eq!(outcome.command, Command::PickDownloadFolder(text("id-2")));
    let outcome = handle_message(
        &mut state,
        Message::DownloadLocationSelected(Some(text("/dl")), text("id-2")),
    );
    assert_eq!(
        outcome.command,
        Command::Download { id: text("id-2"), name: text("b.txt"), folder: text("/dl") }
    );
    assert_eq!(state.status_message, "正在下载 b.txt 到 /dl...");
    let outcome = handle_message(
        &mut state,
        Message::DownloadLocationSelected(Some(text("/dl")), text("nope")),
    );
    assert_eq!(outcome.command, Command::Nothing);
    assert_eq!(state.status_message, "找不到文件 ID: nope");
    handle_message(&mut state, Message::DownloadLocationSelected(None, text("id-2")));
    assert_eq!(state.status_message, "未选择下载路径。");
}

#[test]
fn a_typed_id_is_downloaded_under_a_made_up_name() {
    let mut state = store();
    let outcome = handle_message(&mut state, Message::DownloadFromInputButtonPressed);
    assert_eq!(outcome.command, Command::Nothing);
    assert_eq!(state.status_message, "请输入要下载的文件 ID。");
    handle_message(&mut state, Message::DownloadInputChanged(text("xyz")));
    assert_eq!(state.download_id_input, "xyz");
    let outcome = handle_message(&mut state, Message::DownloadFromInputButtonPressed);
    assert_eq!(outcome.command, Command::PickDownloadFolderFromInput(text("xyz")));
    let outcome = handle_message(
        &mut state,
        Message::DownloadLocationSelectedFromInput(Some(text("/dl")), text("xyz")),
    );
    assert_eq!(
        outcome.command,
        Command::Download { id: text("xyz"), name: text("downloaded_file_xyz"), folder: text("/dl") }
    );
    assert_eq!(state.status_message, "正在下载文件 (ID: xyz) 到 /dl...");
    let outcome = handle_message(
        &mut state,
        Message::DownloadLocationSelectedFromInput(Some(text("/dl")), text("id-1")),
    );
    assert_eq!(
        outcome.command,
        Command::Download { id: text("id-1"), name: text("a.txt"), folder: text("/dl") }
    );
}

#[test]
fn deleting_takes_the_entry_and_saves() {
    let mut state = store();
    let outcome = handle_message(&mut state, Message::DeleteButtonPressed(text("id-2")));
    assert!(outcome.save_index);
    assert_eq!(state.files, vec![entry("id-1", "a.txt"), entry("id-3", "c.txt")]);
    assert_eq!(state.status_message, "文件已从本地记录中删除，ID: id-2");
    let outcome = handle_message(&mut state, Message::DeleteButtonPressed(text("id-2")));
    assert!(!outcome.save_index);
    assert_eq!(state.files.len(), 2);
    assert_eq!(state.status_message, "找不到文件 ID: id-2");
    let outcome = handle_message(&mut state, Message::DeleteComplete(Ok(text("id-1"))));
    assert!(outcome.save_index);
    assert_eq!(state.files, vec![entry("id-3", "c.txt")]);
    assert_eq!(state.status_message, "文件已删除，ID: id-1");
    handle_message(&mut state, Message::DeleteComplete(Err(text("why"))));
    assert_eq!(state.status_message, "删除失败: why");
}

#[test]
fn a_batch_works_on_the_selection() {
    let mut state = store();
    let outcome = handle_message(&mut state, Message::BatchDeleteButtonPressed);
    assert!(!outcome.save_index);
    assert_eq!(state.status_message, "没有选择任何文件进行批量删除。");
    let outcome = handle_message(&mut state, Message::BatchDownloadButtonPressed);
    assert_eq!(outcome.command, Command::Nothing);
    assert_eq!(state.status_message, "没有选择任何文件进行批量下载。");

    handle_message(&mut state, Message::FileSelectedForBatch(text("id-3"), true));
    handle_message(&mut state, Message::FileSelectedForBatch(text("id-1"), true));
    handle_message(&mut state, Message::FileSelectedForBatch(text("id-3"), true));
    handle_message(&mut state, Message::FileSelectedForBatch(text("gone"), true));
    assert_eq!(state.selected_files, vec![text("id-3"), text("id-1"), text("gone")]);
    handle_message(&mut state, Message::FileSelectedForBatch(text("id-1"), false));
    assert_eq!(state.selected_files, vec![text("id-3"), text("gone")]);
    handle_message(&mut state, Message::FileSelectedForBatch(text("id-1"), true));

    let outcome = handle_message(&mut state, Message::BatchDownloadButtonPressed);
    assert_eq!(outcome.command, Command::PickBatchDownloadFolder);
    handle_message(&mut state, Message::BatchDownloadLocationSelected(None));
    assert_eq!(state.status_message, "未选择批量下载路径。");
    assert_eq!(state.selected_files.len(), 3);
    let outcome =
        handle_message(&mut state, Message::BatchDownloadLocationSelected(Some(text("/dl"))));
    assert_eq!(
        outcome.command,
        Command::DownloadAll {
            files: vec![entry("id-3", "c.txt"), entry("id-1", "a.txt")],
            folder: text("/dl")
        }
    );
    assert_eq!(state.status_message, "正在批量下载 2 个文件...");
    assert!(state.selected_files.is_empty());

    handle_message(&mut state, Message::FileSelectedForBatch(text("id-1"), true));
    handle_message(&mut state, Message::FileSelectedForBatch(text("id-2"), true));
    let outcome = handle_message(&mut state, Message::BatchDeleteButtonPressed);
    assert!(outcome.save_index);
    assert_eq!(state.files, vec![entry("id-3", "c.txt")]);
    assert_eq!(state.status_message, "已批量删除 2 个文件记录。");
    assert!(state.selected_files.is_empty());
}

#[test]
fn export_and_import_report_how_they_went() {
    let mut state = store();
    let outcome = handle_message(&mut state, Message::TriggerExportConfig);
    assert_eq!(outcome.command, Command::PickExportPath);
    let outcome = handle_message(&mut state, Message::ExportConfigSelected(Some(text("/e.json"))));
    assert_eq!(outcome.command, Command::ExportIndex(text("/e.json")));
    handle_message(&mut state, Message::ExportConfigSelected(None));
    assert_eq!(state.status_message, "未选择导出路径。");
    handle_message(&mut state, Message::ExportWritten(text("/e.json")));
    assert_eq!(state.status_message, "配置文件已导出到: /e.json");
    handle_message(&mut state, Message::ExportFailed(text("disk full")));
    assert_eq!(state.status_message, "导出配置文件失败: disk full");
    handle_message(&mut state, Message::ExportSerializeFailed(text("bad")));
    assert_eq!(state.status_message, "序列化文件列表失败: bad");

    let outcome = handle_message(&mut state, Message::TriggerImportConfig);
    assert_eq!(outcome.command, Command::PickImportPath);
    let outcome = handle_message(&mut state, Message::ImportConfigSelected(Some(text("/i.json"))));
    assert_eq!(outcome.command, Command::ImportIndex(text("/i.json")));
    handle_message(&mut state, Message::ImportConfigSelected(None));
    assert_eq!(state.status_message, "未选择导入文件。");
    handle_message(&mut state, Message::FileSelectedForBatch(text("id-1"), true));
    let outcome = handle_message(
        &mut state,
        Message::ImportRead(vec![entry("id-7", "z.txt")], text("/i.json")),
    );
    assert!(outcome.save_index);
    assert_eq!(state.files, vec![entry("id-7", "z.txt")]);
    assert!(state.selected_files.is_empty());
    assert_eq!(state.status_message, "配置文件已从 /i.json 导入。");
    handle_message(&mut state, Message::ImportUnreadable(text("gone")));
    assert_eq!(state.status_message, "读取导入文件失败: gone");
    handle_message(&mut state, Message::ImportMalformed(text("no json")));
    assert_eq!(state.status_message, "解析导入文件失败: no json");
}

#[test]
fn the_index_travels_to_the_service_and_back() {
    let mut state = store();
    let outcome = handle_message(&mut state, Message::UploadConfigButtonPressed);
    assert_eq!(outcome.command, Command::UploadConfig);
    assert_eq!(state.status_message, "正在上传配置...");
    handle_message(&mut state, Message::UploadConfigSuccess(text("cfg")));
    assert_eq!(state.status_message, "配置上传成功，ID: cfg");
    handle_message(&mut state, Message::UploadConfigFailed(text("no")));
    assert_eq!(state.status_message, "配置上传失败: no");
    handle_message(&mut state, Message::UploadConfigSerializeFailed(text("bad")));
    assert_eq!(state.status_message, "序列化配置失败: bad");

    let outcome = handle_message(&mut state, Message::LoadConfigFromIdButtonPressed);
    assert_eq!(outcome.command, Command::Nothing);
    assert_eq!(state.status_message, "请输入要下载的文件 ID。");
    handle_message(&mut state, Message::DownloadInputChanged(text("cfg")));
    let outcome = handle_message(&mut state, Message::LoadConfigFromIdButtonPressed);
    assert_eq!(outcome.command, Command::LoadConfig(text("cfg")));
    let outcome = handle_message(&mut state, Message::ConfigLoaded(Ok(text("[]"))));
    assert_eq!(outcome.command, Command::ImportText(text("[]")));
    handle_message(&mut state, Message::ConfigLoaded(Err(text("404"))));
    assert_eq!(state.status_message, "下载失败: 404");
}

#[test]
fn plain_messages_change_one_field() {
    let mut state = store();
    handle_message(&mut state, Message::SearchInputChanged(text("a")));
    assert_eq!(state.search_input, "a");
    handle_message(&mut state, Message::StatusMessage(text("hello")));
    assert_eq!(state.status_message, "hello");
    let outcome = handle_message(&mut state, Message::CopyIdToClipboard(text("id-1")));
    assert_eq!(outcome.command, Command::CopyToClipboard(text("id-1")));
    assert_eq!(state.status_message, "文件 ID 已复制到剪贴板: id-1");
    handle_message(&mut state, Message::DownloadComplete(Ok(text("/dl/a.txt"))));
    assert_eq!(state.status_message, "下载成功到: /dl/a.txt");
    handle_message(&mut state, Message::DownloadComplete(Err(text("404"))));
    assert_eq!(state.status_message, "下载失败: 404");
    handle_message(&mut state, Message::FilesLoaded(vec![entry("only", "one")]));
    assert_eq!(state.files, vec![entry("only", "one")]);
    let outcome = handle_message(&mut state, Message::NoOp);
    assert_eq!(outcome.command, Command::Nothing);
    assert!(!outcome.save_index);
    let outcome = handle_message(&mut state, Message::TriggerBatchDownloadSelection);
    assert_eq!(outcome.command, Command::PickBatchDownloadFolder);
    let outcome =
        handle_message(&mut state, Message::TriggerDownloadSelectionFromInput(text("i")));
    assert_eq!(outcome.command, Command::PickDownloadFolderFromInput(text("i")));
}
