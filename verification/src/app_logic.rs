//! The decisions of the file manager: what a message does to the state,
//! what is shown as the status, and what work is asked of the surroundings.
//! Dialogs, the clipboard, the network and the disk are the surroundings'
//! part; each answers with another message.

use vstd::prelude::*;
use vstd::string::*;
use crate::data::{FileEntry, FileEntryView};
use crate::index::{
    deselect,
    download_name,
    download_name_of,
    entries_for,
    entries_with_ids,
    find_entry,
    first_with_id,
    lemma_with_selected,
    lemma_without_text,
    remove_entries,
    remove_entry,
    select,
    with_selected,
    without_id,
    without_ids,
    without_text,
};
use crate::text::{decimal, decimal_text, prefixed};

verus! {

/// The state of the file manager.
#[derive(Debug, Default)]
pub struct WalrusStore {
    /// The file index.
    pub files: Vec<FileEntry>,
    /// The progress of the running upload in percent.
    pub upload_progress: u8,
    /// The path of the file that is to be uploaded; empty where none is.
    pub upload_file_path: String,
    /// The name of the file that is to be uploaded.
    pub upload_file_name: String,
    /// The id that was typed in for a download.
    pub download_id_input: String,
    /// The line that tells the user what happened last.
    pub status_message: String,
    /// The search that narrows the list.
    pub search_input: String,
    /// The ids that are selected for a batch. A well-formed state holds
    /// each id once.
    pub selected_files: Vec<String>,
}

/// The mathematical content of a [`WalrusStore`].
pub ghost struct StoreView {
    pub files: Seq<FileEntryView>,
    pub upload_progress: u8,
    pub upload_file_path: Seq<char>,
    pub upload_file_name: Seq<char>,
    pub download_id_input: Seq<char>,
    pub status_message: Seq<char>,
    pub search_input: Seq<char>,
    pub selected_files: Seq<Seq<char>>,
}

impl DeepView for WalrusStore {
    type V = StoreView;

    open spec fn deep_view(&self) -> StoreView {
        StoreView {
            files: self.files.deep_view(),
            upload_progress: self.upload_progress,
            upload_file_path: self.upload_file_path@,
            upload_file_name: self.upload_file_name@,
            download_id_input: self.download_id_input@,
            status_message: self.status_message@,
            search_input: self.search_input@,
            selected_files: self.selected_files.deep_view(),
        }
    }
}

/// A file that the user picked: its path and the name at the end of it.
#[derive(Debug, Clone, PartialEq, Eq)]
pub struct PickedFile {
    pub path: String,
    pub name: String,
}

/// What can happen to the file manager.
#[derive(Debug)]
pub enum Message {
    /// The index was read from disk.
    FilesLoaded(Vec<FileEntry>),
    /// The user wants to pick a file to upload.
    TriggerFileSelection,
    /// The dialog closed, with a file or without.
    FileSelected(Option<PickedFile>),
    /// The user wants the picked file uploaded.
    UploadButtonPressed,
    /// The user wants the file with this id downloaded.
    DownloadButtonPressed(String),
    /// A folder is to be picked for the download of this id.
    TriggerDownloadSelection(String),
    /// The dialog closed, with a folder or without, for this id.
    DownloadLocationSelected(Option<String>, String),
    /// The user wants this id on the clipboard.
    CopyIdToClipboard(String),
    /// The user wants the entry with this id gone from the index.
    DeleteButtonPressed(String),
    /// The user ticked or cleared the box of this id.
    FileSelectedForBatch(String, bool),
    /// The user wants the selected entries gone from the index.
    BatchDeleteButtonPressed,
    /// The user wants the selected files downloaded.
    BatchDownloadButtonPressed,
    /// A folder is to be picked for the batch download.
    TriggerBatchDownloadSelection,
    /// The dialog closed, with a folder or without.
    BatchDownloadLocationSelected(Option<String>),
    /// The user typed in the id field.
    DownloadInputChanged(String),
    /// The user wants the typed id downloaded.
    DownloadFromInputButtonPressed,
    /// A folder is to be picked for the download of the typed id.
    TriggerDownloadSelectionFromInput(String),
    /// The dialog closed, with a folder or without, for the typed id.
    DownloadLocationSelectedFromInput(Option<String>, String),
    /// The user wants the index written to a file.
    TriggerExportConfig,
    /// The dialog closed, with a path or without.
    ExportConfigSelected(Option<String>),
    /// The index was written to this path.
    ExportWritten(String),
    /// The index could not be written to the path.
    ExportFailed(String),
    /// The index could not be put into text for the export.
    ExportSerializeFailed(String),
    /// The user wants the index read from a file.
    TriggerImportConfig,
    /// The dialog closed, with a path or without.
    ImportConfigSelected(Option<String>),
    /// An index was read; the text names where it came from.
    ImportRead(Vec<FileEntry>, String),
    /// The file to import could not be read.
    ImportUnreadable(String),
    /// The text to import is no index.
    ImportMalformed(String),
    /// The user wants the index stored with the service.
    UploadConfigButtonPressed,
    /// The index could not be put into text for the upload.
    UploadConfigSerializeFailed(String),
    /// The index was stored under this id.
    UploadConfigSuccess(String),
    /// The index could not be stored.
    UploadConfigFailed(String),
    /// The user wants the index read from the service, by the typed id.
    LoadConfigFromIdButtonPressed,
    /// The text of the index came from the service, or did not.
    ConfigLoaded(Result<String, String>),
    /// The running upload got this far, in percent.
    UploadProgress(u8),
    /// The upload ended.
    UploadComplete(Result<FileEntry, String>),
    /// A download ended.
    DownloadComplete(Result<String, String>),
    /// A deletion ended.
    DeleteComplete(Result<String, String>),
    /// The status is to show this line.
    StatusMessage(String),
    /// The user typed in the search field.
    SearchInputChanged(String),
    /// Nothing.
    NoOp,
}

/// The work that the file manager asks of its surroundings.
#[derive(Debug, Clone, PartialEq, Eq)]
pub enum Command {
    /// Nothing.
    Nothing,
    /// Let the user pick a file; answer with `FileSelected`.
    PickFile,
    /// Upload the file at `path`; answer with `UploadComplete`.
    Upload { path: String, name: String },
    /// Let the user pick a folder; answer with `DownloadLocationSelected`.
    PickDownloadFolder(String),
    /// Let the user pick a folder; answer with
    /// `DownloadLocationSelectedFromInput`.
    PickDownloadFolderFromInput(String),
    /// Let the user pick a folder; answer with
    /// `BatchDownloadLocationSelected`.
    PickBatchDownloadFolder,
    /// Download the blob `id` into `folder` as `name`; answer with
    /// `DownloadComplete`.
    Download { id: String, name: String, folder: String },
    /// Download each of these files into `folder`; answer each with
    /// `DownloadComplete`.
    DownloadAll { files: Vec<FileEntry>, folder: String },
    /// Put the id on the clipboard.
    CopyToClipboard(String),
    /// Let the user pick where to export to; answer with
    /// `ExportConfigSelected`.
    PickExportPath,
    /// Write the index to this path; answer with `ExportWritten`,
    /// `ExportFailed` or `ExportSerializeFailed`.
    ExportIndex(String),
    /// Let the user pick what to import; answer with `ImportConfigSelected`.
    PickImportPath,
    /// Read an index from this path; answer with `ImportRead`,
    /// `ImportUnreadable` or `ImportMalformed`.
    ImportIndex(String),
    /// Read an index from this text; answer with `ImportRead` or
    /// `ImportMalformed`.
    ImportText(String),
    /// Store the index with the service; answer with `UploadConfigSuccess`,
    /// `UploadConfigFailed` or `UploadConfigSerializeFailed`.
    UploadConfig,
    /// Read the blob with this id as text; answer with `ConfigLoaded`.
    LoadConfig(String),
}

/// The mathematical content of a [`Command`].
pub ghost enum CommandView {
    Nothing,
    PickFile,
    Upload { path: Seq<char>, name: Seq<char> },
    PickDownloadFolder(Seq<char>),
    PickDownloadFolderFromInput(Seq<char>),
    PickBatchDownloadFolder,
    Download { id: Seq<char>, name: Seq<char>, folder: Seq<char> },
    DownloadAll { files: Seq<FileEntryView>, folder: Seq<char> },
    CopyToClipboard(Seq<char>),
    PickExportPath,
    ExportIndex(Seq<char>),
    PickImportPath,
    ImportIndex(Seq<char>),
    ImportText(Seq<char>),
    UploadConfig,
    LoadConfig(Seq<char>),
}

impl DeepView for Command {
    type V = CommandView;

    open spec fn deep_view(&self) -> CommandView {
        match self {
            Command::Nothing => CommandView::Nothing,
            Command::PickFile => CommandView::PickFile,
            Command::Upload { path, name } => CommandView::Upload { path: path@, name: name@ },
            Command::PickDownloadFolder(id) => CommandView::PickDownloadFolder(id@),
            Command::PickDownloadFolderFromInput(id) => CommandView::PickDownloadFolderFromInput(
                id@,
            ),
            Command::PickBatchDownloadFolder => CommandView::PickBatchDownloadFolder,
            Command::Download { id, name, folder } => CommandView::Download {
                id: id@,
                name: name@,
                folder: folder@,
            },
            Command::DownloadAll { files, folder } => CommandView::DownloadAll {
                files: files.deep_view(),
                folder: folder@,
            },
            Command::CopyToClipboard(id) => CommandView::CopyToClipboard(id@),
            Command::PickExportPath => CommandView::PickExportPath,
            Command::ExportIndex(path) => CommandView::ExportIndex(path@),
            Command::PickImportPath => CommandView::PickImportPath,
            Command::ImportIndex(path) => CommandView::ImportIndex(path@),
            Command::ImportText(text) => CommandView::ImportText(text@),
            Command::UploadConfig => CommandView::UploadConfig,
            Command::LoadConfig(id) => CommandView::LoadConfig(id@),
        }
    }
}

/// What handling a message comes to: the work that is asked for, and
/// whether the index has changed and is to be written to disk.
#[derive(Debug)]
pub struct Outcome {
    pub command: Command,
    pub save_index: bool,
}

/// One step of the file manager: the state after it and what is asked for.
pub ghost struct Step {
    pub state: StoreView,
    pub command: CommandView,
    pub save_index: bool,
}

impl StoreView {
    /// Whether the state is well formed: no id is selected twice.
    pub open spec fn wf(self) -> bool {
        self.selected_files.no_duplicates()
    }

    /// The state with another status line, and nothing asked for.
    pub open spec fn say(self, status: Seq<char>) -> Step {
        Step {
            state: StoreView { status_message: status, ..self },
            command: CommandView::Nothing,
            save_index: false,
        }
    }

    /// The state as it is, with this asked for.
    pub open spec fn ask(self, command: CommandView) -> Step {
        Step { state: self, command, save_index: false }
    }

    /// The state with another status line and this asked for.
    pub open spec fn say_and_ask(self, status: Seq<char>, command: CommandView) -> Step {
        Step { state: StoreView { status_message: status, ..self }, command, save_index: false }
    }

    /// The state with another index and status line; the index is to be
    /// written to disk.
    pub open spec fn keep(self, files: Seq<FileEntryView>, status: Seq<char>) -> Step {
        Step {
            state: StoreView { files, status_message: status, ..self },
            command: CommandView::Nothing,
            save_index: true,
        }
    }
}

/// What a message does: the state after it, the work that is asked for, and
/// whether the index is to be written to disk.
pub open spec fn step(state: StoreView, message: Message) -> Step {
    match message {
        Message::FilesLoaded(files) => StoreView { files: files.deep_view(), ..state }.ask(
            CommandView::Nothing,
        ),
        Message::TriggerFileSelection => state.ask(CommandView::PickFile),
        Message::FileSelected(Some(file)) => StoreView {
            upload_file_path: file.path@,
            upload_file_name: file.name@,
            ..state
        }.say("已选择文件: "@ + file.path@),
        Message::FileSelected(None) => StoreView {
            upload_file_path: Seq::empty(),
            upload_file_name: Seq::empty(),
            ..state
        }.say("未选择文件。"@),
        Message::UploadButtonPressed => if state.upload_file_path.len() == 0 {
            state.say("请先选择一个文件。"@)
        } else {
            StoreView { upload_progress: 0, ..state }.say_and_ask(
                "正在上传 "@ + state.upload_file_name + "..."@,
                CommandView::Upload {
                    path: state.upload_file_path,
                    name: state.upload_file_name,
                },
            )
        },
        Message::DownloadButtonPressed(id) => state.ask(CommandView::PickDownloadFolder(id@)),
        Message::TriggerDownloadSelection(id) => state.ask(CommandView::PickDownloadFolder(id@)),
        Message::DownloadLocationSelected(Some(folder), id) => match first_with_id(
            state.files,
            id@,
        ) {
            Some(entry) => state.say_and_ask(
                "正在下载 "@ + entry.name + " 到 "@ + folder@ + "..."@,
                CommandView::Download { id: entry.id, name: entry.name, folder: folder@ },
            ),
            None => state.say("找不到文件 ID: "@ + id@),
        },
        Message::DownloadLocationSelected(None, _) => state.say("未选择下载路径。"@),
        Message::CopyIdToClipboard(id) => state.say_and_ask(
            "文件 ID 已复制到剪贴板: "@ + id@,
            CommandView::CopyToClipboard(id@),
        ),
        Message::DeleteButtonPressed(id) => if first_with_id(state.files, id@) is Some {
            state.keep(without_id(state.files, id@), "文件已从本地记录中删除，ID: "@ + id@)
        } else {
            state.say("找不到文件 ID: "@ + id@)
        },
        Message::FileSelectedForBatch(id, chosen) => StoreView {
            selected_files: if chosen {
                with_selected(state.selected_files, id@)
            } else {
                without_text(state.selected_files, id@)
            },
            ..state
        }.ask(CommandView::Nothing),
        Message::BatchDeleteButtonPressed => if state.selected_files.len() == 0 {
            state.say("没有选择任何文件进行批量删除。"@)
        } else {
            StoreView { selected_files: Seq::empty(), ..state }.keep(
                without_ids(state.files, state.selected_files),
                "已批量删除 "@ + decimal_text(state.selected_files.len()) + " 个文件记录。"@,
            )
        },
        Message::BatchDownloadButtonPressed => if state.selected_files.len() == 0 {
            state.say("没有选择任何文件进行批量下载。"@)
        } else {
            state.ask(CommandView::PickBatchDownloadFolder)
        },
        Message::TriggerBatchDownloadSelection => state.ask(CommandView::PickBatchDownloadFolder),
        Message::BatchDownloadLocationSelected(Some(folder)) => if state.selected_files.len()
            == 0 {
            state.say("没有选择任何文件进行批量下载。"@)
        } else {
            let files = entries_with_ids(state.files, state.selected_files);
            StoreView { selected_files: Seq::empty(), ..state }.say_and_ask(
                "正在批量下载 "@ + decimal_text(files.len()) + " 个文件..."@,
                CommandView::DownloadAll { files, folder: folder@ },
            )
        },
        Message::BatchDownloadLocationSelected(None) => state.say("未选择批量下载路径。"@),
        Message::DownloadInputChanged(id) => StoreView { download_id_input: id@, ..state }.ask(
            CommandView::Nothing,
        ),
        Message::DownloadFromInputButtonPressed => if state.download_id_input.len() == 0 {
            state.say("请输入要下载的文件 ID。"@)
        } else {
            state.ask(CommandView::PickDownloadFolderFromInput(state.download_id_input))
        },
        Message::TriggerDownloadSelectionFromInput(id) => state.ask(
            CommandView::PickDownloadFolderFromInput(id@),
        ),
        Message::DownloadLocationSelectedFromInput(Some(folder), id) => state.say_and_ask(
            "正在下载文件 (ID: "@ + id@ + ") 到 "@ + folder@ + "..."@,
            CommandView::Download {
                id: id@,
                name: download_name_of(state.files, id@),
                folder: folder@,
            },
        ),
        Message::DownloadLocationSelectedFromInput(None, _) => state.say("未选择下载路径。"@),
        Message::TriggerExportConfig => state.ask(CommandView::PickExportPath),
        Message::ExportConfigSelected(Some(path)) => state.ask(CommandView::ExportIndex(path@)),
        Message::ExportConfigSelected(None) => state.say("未选择导出路径。"@),
        Message::ExportWritten(path) => state.say("配置文件已导出到: "@ + path@),
        Message::ExportFailed(reason) => state.say("导出配置文件失败: "@ + reason@),
        Message::ExportSerializeFailed(reason) => state.say("序列化文件列表失败: "@ + reason@),
        Message::TriggerImportConfig => state.ask(CommandView::PickImportPath),
        Message::ImportConfigSelected(Some(path)) => state.ask(CommandView::ImportIndex(path@)),
        Message::ImportConfigSelected(None) => state.say("未选择导入文件。"@),
        Message::ImportRead(files, source) => StoreView {
            selected_files: Seq::empty(),
            ..state
        }.keep(files.deep_view(), "配置文件已从 "@ + source@ + " 导入。"@),
        Message::ImportUnreadable(reason) => state.say("读取导入文件失败: "@ + reason@),
        Message::ImportMalformed(reason) => state.say("解析导入文件失败: "@ + reason@),
        Message::UploadConfigButtonPressed => state.say_and_ask(
            "正在上传配置..."@,
            CommandView::UploadConfig,
        ),
        Message::UploadConfigSerializeFailed(reason) => state.say("序列化配置失败: "@ + reason@),
        Message::UploadConfigSuccess(id) => state.say("配置上传成功，ID: "@ + id@),
        Message::UploadConfigFailed(reason) => state.say("配置上传失败: "@ + reason@),
        Message::LoadConfigFromIdButtonPressed => if state.download_id_input.len() == 0 {
            state.say("请输入要下载的文件 ID。"@)
        } else {
            state.ask(CommandView::LoadConfig(state.download_id_input))
        },
        Message::ConfigLoaded(Ok(text)) => state.ask(CommandView::ImportText(text@)),
        Message::ConfigLoaded(Err(reason)) => state.say("下载失败: "@ + reason@),
        Message::UploadProgress(percent) => StoreView { upload_progress: percent, ..state }.ask(
            CommandView::Nothing,
        ),
        Message::UploadComplete(Ok(entry)) => StoreView {
            upload_progress: 0,
            upload_file_path: Seq::empty(),
            upload_file_name: Seq::empty(),
            ..state
        }.keep(state.files.push(entry.deep_view()), "上传成功，ID: "@ + entry.id@),
        Message::UploadComplete(Err(reason)) => StoreView { upload_progress: 0, ..state }.say(
            "上传失败: "@ + reason@,
        ),
        Message::DownloadComplete(Ok(path)) => state.say("下载成功到: "@ + path@),
        Message::DownloadComplete(Err(reason)) => state.say("下载失败: "@ + reason@),
        Message::DeleteComplete(Ok(id)) => state.keep(
            without_id(state.files, id@),
            "文件已删除，ID: "@ + id@,
        ),
        Message::DeleteComplete(Err(reason)) => state.say("删除失败: "@ + reason@),
        Message::StatusMessage(line) => state.say(line@),
        Message::SearchInputChanged(search) => StoreView { search_input: search@, ..state }.ask(
            CommandView::Nothing,
        ),
        Message::NoOp => state.ask(CommandView::Nothing),
    }
}

/// No message makes a well-formed state ill formed: the selection stays
/// free of repetition.
pub proof fn lemma_step_keeps_selection(state: StoreView, message: Message)
    requires
        state.wf(),
    ensures
        step(state, message).state.wf(),
{
    match message {
        Message::FileSelectedForBatch(id, chosen) => {
            if chosen {
                lemma_with_selected(state.selected_files, id@);
            } else {
                lemma_without_text(state.selected_files, id@);
            }
        },
        _ => {},
    }
}

/// What came of a step: the state and the outcome together.
pub open spec fn taken(state: WalrusStore, outcome: Outcome) -> Step {
    Step {
        state: state.deep_view(),
        command: outcome.command.deep_view(),
        save_index: outcome.save_index,
    }
}

fn done() -> (outcome: Outcome)
    ensures
        outcome.command.deep_view() == CommandView::Nothing,
        !outcome.save_index,
{
    Outcome { command: Command::Nothing, save_index: false }
}

fn ask(command: Command) -> (outcome: Outcome)
    ensures
        outcome.command == command,
        !outcome.save_index,
{
    Outcome { command, save_index: false }
}

fn saved() -> (outcome: Outcome)
    ensures
        outcome.command.deep_view() == CommandView::Nothing,
        outcome.save_index,
{
    Outcome { command: Command::Nothing, save_index: true }
}

fn take_files(app_state: &mut WalrusStore) -> (files: Vec<FileEntry>)
    ensures
        files == old(app_state).files,
        final(app_state).deep_view() == (StoreView {
            files: Seq::empty(),
            ..old(app_state).deep_view()
        }),
{
    let mut files: Vec<FileEntry> = Vec::new();
    assert(files.deep_view() =~= Seq::empty());
    core::mem::swap(&mut app_state.files, &mut files);
    files
}

fn take_selection(app_state: &mut WalrusStore) -> (selected: Vec<String>)
    ensures
        selected == old(app_state).selected_files,
        final(app_state).deep_view() == (StoreView {
            selected_files: Seq::empty(),
            ..old(app_state).deep_view()
        }),
{
    let mut selected: Vec<String> = Vec::new();
    assert(selected.deep_view() =~= Seq::empty());
    core::mem::swap(&mut app_state.selected_files, &mut selected);
    selected
}

fn copy_text(text: &String) -> (copy: String)
    ensures
        copy@ == text@,
{
    text.clone()
}

/// Handles one message: changes the state, and tells what work is asked for
/// and whether the index is to be written to disk.
pub fn handle_message(app_state: &mut WalrusStore, message: Message) -> (outcome: Outcome)
    ensures
        taken(*final(app_state), outcome) == step(old(app_state).deep_view(), message),
        old(app_state).deep_view().wf() ==> final(app_state).deep_view().wf(),
{
    proof {
        if old(app_state).deep_view().wf() {
            lemma_step_keeps_selection(old(app_state).deep_view(), message);
        }
    }
    match message {
        Message::FilesLoaded(files) => {
            app_state.files = files;
            done()
        },
        Message::TriggerFileSelection => ask(Command::PickFile),
        Message::FileSelected(Some(file)) => {
            app_state.status_message = prefixed("已选择文件: ", file.path.as_str());
            app_state.upload_file_path = file.path;
            app_state.upload_file_name = file.name;
            done()
        },
        Message::FileSelected(None) => {
            app_state.upload_file_path = String::new();
            app_state.upload_file_name = String::new();
            app_state.status_message = String::from_str("未选择文件。");
            done()
        },
        Message::UploadButtonPressed => {
            if app_state.upload_file_path.as_str().is_empty() {
                app_state.status_message = String::from_str("请先选择一个文件。");
                done()
            } else {
                app_state.status_message = prefixed(
                    "正在上传 ",
                    app_state.upload_file_name.as_str(),
                ).concat("...");
                app_state.upload_progress = 0;
                ask(
                    Command::Upload {
                        path: copy_text(&app_state.upload_file_path),
                        name: copy_text(&app_state.upload_file_name),
                    },
                )
            }
        },
        Message::DownloadButtonPressed(id) => ask(Command::PickDownloadFolder(id)),
        Message::TriggerDownloadSelection(id) => ask(Command::PickDownloadFolder(id)),
        Message::DownloadLocationSelected(Some(folder), id) => {
            match find_entry(&app_state.files, id.as_str()) {
                Some(entry) => {
                    let status = prefixed("正在下载 ", entry.name.as_str()).concat(" 到 ").concat(
                        folder.as_str(),
                    ).concat("...");
                    let command = Command::Download {
                        id: copy_text(&entry.id),
                        name: copy_text(&entry.name),
                        folder,
                    };
                    app_state.status_message = status;
                    ask(command)
                },
                None => {
                    app_state.status_message = prefixed("找不到文件 ID: ", id.as_str());
                    done()
                },
            }
        },
        Message::DownloadLocationSelected(None, _) => {
            app_state.status_message = String::from_str("未选择下载路径。");
            done()
        },
        Message::CopyIdToClipboard(id) => {
            app_state.status_message = prefixed("文件 ID 已复制到剪贴板: ", id.as_str());
            ask(Command::CopyToClipboard(id))
        },
        Message::DeleteButtonPressed(id) => {
            if find_entry(&app_state.files, id.as_str()).is_some() {
                let files = take_files(app_state);
                app_state.files = remove_entry(files, id.as_str());
                app_state.status_message = prefixed("文件已从本地记录中删除，ID: ", id.as_str());
                saved()
            } else {
                app_state.status_message = prefixed("找不到文件 ID: ", id.as_str());
                done()
            }
        },
        Message::FileSelectedForBatch(id, chosen) => {
            let selected = take_selection(app_state);
            if chosen {
                app_state.selected_files = select(selected, id);
            } else {
                app_state.selected_files = deselect(selected, id.as_str());
            }
            done()
        },
        Message::BatchDeleteButtonPressed => {
            if app_state.selected_files.len() == 0 {
                app_state.status_message = String::from_str("没有选择任何文件进行批量删除。");
                done()
            } else {
                let ids = take_selection(app_state);
                let files = take_files(app_state);
                app_state.files = remove_entries(files, &ids);
                app_state.status_message = prefixed(
                    "已批量删除 ",
                    decimal(ids.len() as u64).as_str(),
                ).concat(" 个文件记录。");
                saved()
            }
        },
        Message::BatchDownloadButtonPressed => {
            if app_state.selected_files.len() == 0 {
                app_state.status_message = String::from_str("没有选择任何文件进行批量下载。");
                done()
            } else {
                ask(Command::PickBatchDownloadFolder)
            }
        },
        Message::TriggerBatchDownloadSelection => ask(Command::PickBatchDownloadFolder),
        Message::BatchDownloadLocationSelected(Some(folder)) => {
            if app_state.selected_files.len() == 0 {
                app_state.status_message = String::from_str("没有选择任何文件进行批量下载。");
                done()
            } else {
                let ids = take_selection(app_state);
                let files = entries_for(&app_state.files, &ids);
                app_state.status_message = prefixed(
                    "正在批量下载 ",
                    decimal(files.len() as u64).as_str(),
                ).concat(" 个文件...");
                ask(Command::DownloadAll { files, folder })
            }
        },
        Message::BatchDownloadLocationSelected(None) => {
            app_state.status_message = String::from_str("未选择批量下载路径。");
            done()
        },
        Message::DownloadInputChanged(id) => {
            app_state.download_id_input = id;
            done()
        },
        Message::DownloadFromInputButtonPressed => {
            if app_state.download_id_input.as_str().is_empty() {
                app_state.status_message = String::from_str("请输入要下载的文件 ID。");
                done()
            } else {
                ask(Command::PickDownloadFolderFromInput(copy_text(&app_state.download_id_input)))
            }
        },
        Message::TriggerDownloadSelectionFromInput(id) => ask(
            Command::PickDownloadFolderFromInput(id),
        ),
        Message::DownloadLocationSelectedFromInput(Some(folder), id) => {
            let name = download_name(&app_state.files, id.as_str());
            app_state.status_message = prefixed("正在下载文件 (ID: ", id.as_str()).concat(
                ") 到 ",
            ).concat(folder.as_str()).concat("...");
            ask(Command::Download { id, name, folder })
        },
        Message::DownloadLocationSelectedFromInput(None, _) => {
            app_state.status_message = String::from_str("未选择下载路径。");
            done()
        },
        Message::TriggerExportConfig => ask(Command::PickExportPath),
        Message::ExportConfigSelected(Some(path)) => ask(Command::ExportIndex(path)),
        Message::ExportConfigSelected(None) => {
            app_state.status_message = String::from_str("未选择导出路径。");
            done()
        },
        Message::ExportWritten(path) => {
            app_state.status_message = prefixed("配置文件已导出到: ", path.as_str());
            done()
        },
        Message::ExportFailed(reason) => {
            app_state.status_message = prefixed("导出配置文件失败: ", reason.as_str());
            done()
        },
        Message::ExportSerializeFailed(reason) => {
            app_state.status_message = prefixed("序列化文件列表失败: ", reason.as_str());
            done()
        },
        Message::TriggerImportConfig => ask(Command::PickImportPath),
        Message::ImportConfigSelected(Some(path)) => ask(Command::ImportIndex(path)),
        Message::ImportConfigSelected(None) => {
            app_state.status_message = String::from_str("未选择导入文件。");
            done()
        },
        Message::ImportRead(files, source) => {
            app_state.files = files;
            let _ = take_selection(app_state);
            app_state.status_message = prefixed("配置文件已从 ", source.as_str()).concat(
                " 导入。",
            );
            saved()
        },
        Message::ImportUnreadable(reason) => {
            app_state.status_message = prefixed("读取导入文件失败: ", reason.as_str());
            done()
        },
        Message::ImportMalformed(reason) => {
            app_state.status_message = prefixed("解析导入文件失败: ", reason.as_str());
            done()
        },
        Message::UploadConfigButtonPressed => {
            app_state.status_message = String::from_str("正在上传配置...");
            ask(Command::UploadConfig)
        },
        Message::UploadConfigSerializeFailed(reason) => {
            app_state.status_message = prefixed("序列化配置失败: ", reason.as_str());
            done()
        },
        Message::UploadConfigSuccess(id) => {
            app_state.status_message = prefixed("配置上传成功，ID: ", id.as_str());
            done()
        },
        Message::UploadConfigFailed(reason) => {
            app_state.status_message = prefixed("配置上传失败: ", reason.as_str());
            done()
        },
        Message::LoadConfigFromIdButtonPressed => {
            if app_state.download_id_input.as_str().is_empty() {
                app_state.status_message = String::from_str("请输入要下载的文件 ID。");
                done()
            } else {
                ask(Command::LoadConfig(copy_text(&app_state.download_id_input)))
            }
        },
        Message::ConfigLoaded(Ok(text)) => ask(Command::ImportText(text)),
        Message::ConfigLoaded(Err(reason)) => {
            app_state.status_message = prefixed("下载失败: ", reason.as_str());
            done()
        },
        Message::UploadProgress(percent) => {
            app_state.upload_progress = percent;
            done()
        },
        Message::UploadComplete(Ok(entry)) => {
            let ghost before = app_state.files.deep_view();
            app_state.upload_progress = 0;
            app_state.status_message = prefixed("上传成功，ID: ", entry.id.as_str());
            app_state.files.push(entry);
            app_state.upload_file_path = String::new();
            app_state.upload_file_name = String::new();
            proof {
                assert(app_state.files.deep_view() =~= before.push(entry.deep_view()));
            }
            saved()
        },
        Message::UploadComplete(Err(reason)) => {
            app_state.upload_progress = 0;
            app_state.status_message = prefixed("上传失败: ", reason.as_str());
            done()
        },
        Message::DownloadComplete(Ok(path)) => {
            app_state.status_message = prefixed("下载成功到: ", path.as_str());
            done()
        },
        Message::DownloadComplete(Err(reason)) => {
            app_state.status_message = prefixed("下载失败: ", reason.as_str());
            done()
        },
        Message::DeleteComplete(Ok(id)) => {
            let files = take_files(app_state);
            app_state.files = remove_entry(files, id.as_str());
            app_state.status_message = prefixed("文件已删除，ID: ", id.as_str());
            saved()
        },
        Message::DeleteComplete(Err(reason)) => {
            app_state.status_message = prefixed("删除失败: ", reason.as_str());
            done()
        },
        Message::StatusMessage(line) => {
            app_state.status_message = line;
            done()
        },
        Message::SearchInputChanged(search) => {
            app_state.search_input = search;
            done()
        },
        Message::NoOp => done(),
    }
}

} // verus!
