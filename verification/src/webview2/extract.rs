//! Unpacking a cabinet file into the runtime directory: what is decided
//! along the way, and what is reported when a step fails.

use vstd::prelude::*;
use vstd::string::StringExecFns;
use crate::text::{join, push_signed_decimal, signed_decimal, starts_with};
use crate::system::{exit_code_or_default, NO_EXIT_CODE};

verus! {

/// Name of the system's extractor.
pub const EXPAND_EXE: &'static str = "expand.exe";

/// Argument that makes the extractor unpack every file.
pub const EXPAND_ALL_FILES: &'static str = "-F:*";

/// Process creation flag that keeps the extractor from opening a console.
pub const CREATE_NO_WINDOW: u32 = 0x08000000;

/// File attribute bit of a reparse point.
pub const FILE_ATTRIBUTE_REPARSE_POINT: u32 = 0x400;

/// Characters that the buffer for the system directory holds.
pub const SYSTEM_DIR_CAPACITY: usize = 260;

/// What the directory that holds the unpacked files begins with, where the
/// cabinet has put them in a directory of their own.
pub const PAYLOAD_DIR_PREFIX: &'static str = "Microsoft.WebView2";

/// What the temporary directory for unpacking is called, before the number
/// of the process.
pub const EXTRACT_DIR_PREFIX: &'static str = "mxu_webview2_extract_";

/// Whether the length that the system reports for its directory is usable:
/// not zero, and within the buffer.
pub fn system_dir_length_ok(len: usize) -> (ok: bool)
    ensures
        ok == (0 < len <= SYSTEM_DIR_CAPACITY),
{
    !(len == 0 || len > SYSTEM_DIR_CAPACITY)
}

/// Whether file attributes mark a reparse point.
pub open spec fn marks_reparse_point(attributes: u32) -> bool {
    attributes & FILE_ATTRIBUTE_REPARSE_POINT != 0
}

/// Whether an existing runtime directory must be left alone: a symbolic
/// link or any other reparse point is never deleted through.
pub fn refuses_runtime_dir(is_symlink: bool, attributes: u32) -> (refused: bool)
    ensures
        refused == (is_symlink || marks_reparse_point(attributes)),
{
    is_symlink || attributes & FILE_ATTRIBUTE_REPARSE_POINT != 0
}

/// An entry of a directory, as far as unpacking looks at it.
#[derive(Debug)]
pub struct Entry {
    pub name: String,
    pub is_dir: bool,
}

/// Whether an entry is the directory that holds the unpacked files.
pub open spec fn is_payload_dir(entry: Entry) -> bool {
    entry.is_dir && PAYLOAD_DIR_PREFIX@.is_prefix_of(entry.name@)
}

/// Index of the first payload directory at or after `from`, if there is one.
pub open spec fn first_payload_dir(entries: Seq<Entry>, from: int) -> Option<int>
    decreases entries.len() - from,
{
    if from < 0 || from >= entries.len() {
        None
    } else if is_payload_dir(entries[from]) {
        Some(from)
    } else {
        first_payload_dir(entries, from + 1)
    }
}

/// Picks the directory to copy from among what the extractor has left in
/// the temporary directory: the first payload directory. `None` means the
/// temporary directory itself.
pub fn source_dir(entries: &Vec<Entry>) -> (picked: Option<usize>)
    ensures
        match picked {
            Some(i) => Some(i as int),
            None => None,
        } == first_payload_dir(entries@, 0),
{
    let mut i: usize = 0;
    while i < entries.len()
        invariant
            i <= entries.len(),
            first_payload_dir(entries@, 0) == first_payload_dir(entries@, i as int),
        decreases entries.len() - i,
    {
        if entries[i].is_dir && starts_with(entries[i].name.as_str(), PAYLOAD_DIR_PREFIX) {
            return Some(i);
        }
        i += 1;
    }
    None
}

/// What copying does with one entry of a directory.
#[derive(Clone, Copy, Debug, PartialEq, Eq, Structural)]
pub enum CopyStep {
    /// Leave it out: symbolic links are not followed.
    Skip,
    /// Copy the directory's entries in turn.
    Descend,
    /// Copy the file.
    CopyFile,
}

/// Decides what copying does with an entry.
pub fn copy_step(is_symlink: bool, is_dir: bool) -> (step: CopyStep)
    ensures
        step == (if is_symlink {
            CopyStep::Skip
        } else if is_dir {
            CopyStep::Descend
        } else {
            CopyStep::CopyFile
        }),
{
    if is_symlink {
        CopyStep::Skip
    } else if is_dir {
        CopyStep::Descend
    } else {
        CopyStep::CopyFile
    }
}

/// What is reported for an extractor that did not end well: its exit code,
/// or -1 where it ended without one.
pub open spec fn expand_exit_text(code: Option<i32>) -> Seq<char> {
    "解压失败，退出码: "@ + signed_decimal(
        match code {
            Some(c) => c as int,
            None => NO_EXIT_CODE as int,
        },
    )
}

/// Reports an extractor that did not end well, with its exit code.
pub fn expand_exit_message(code: Option<i32>) -> (message: String)
    ensures
        message@ == expand_exit_text(code),
{
    let mut message = "解压失败，退出码: ".to_owned();
    push_signed_decimal(&mut message, exit_code_or_default(code) as i64);
    message
}

/// What can stand in the way of unpacking.
#[derive(Debug)]
pub enum ExtractFailure {
    /// The system does not say where its directory is.
    SystemDirUnknown,
    /// The extractor is not where it should be.
    ExpandMissing { path: String },
    /// The temporary directory could not be made.
    TempDir { why: String },
    /// The extractor could not be started.
    RunExpand { why: String },
    /// The properties of the runtime directory could not be read.
    Metadata { why: String },
    /// The runtime directory is a link.
    ReparsePoint { dir: String },
    /// The old runtime directory could not be removed.
    RemoveOld { permission_denied: bool, why: String },
    /// The runtime directory could not be made.
    CreateDir { permission_denied: bool, why: String },
    /// A directory could not be made while copying.
    CopyCreateDir { dir: String, why: String },
    /// A directory could not be listed while copying.
    CopyReadDir { dir: String, why: String },
    /// An entry could not be read while copying.
    CopyEntry { why: String },
    /// The kind of an entry could not be told while copying.
    CopyFileType { why: String },
    /// A file could not be copied.
    CopyFile { from: String, to: String, why: String },
}

/// Start of the message for an old runtime directory that may not be removed.
pub const REMOVE_OLD_DENIED: &'static str =
    "删除旧的 WebView2 运行时目录失败，可能有正在运行的程序正在使用该目录。\n\n请关闭所有已运行的本应用实例后重试。\n\n系统错误: ";

/// Start of the message for a runtime directory that may not be made.
pub const CREATE_DIR_DENIED: &'static str =
    "创建运行时目录失败，可能缺少权限或有程序占用该路径。\n\n请关闭所有已运行的本应用实例或以管理员身份重新运行。\n\n系统错误: ";

/// End of the message for a runtime directory that is a link.
pub const REPARSE_TAIL: &'static str =
    "] 是符号链接或重解析点，出于安全原因拒绝操作。\n请手动删除该链接后重试。";

/// The message for each failure.
pub open spec fn extract_failure_text(failure: ExtractFailure) -> Seq<char> {
    match failure {
        ExtractFailure::SystemDirUnknown => "GetSystemDirectoryW 调用失败，无法获取系统目录"@,
        ExtractFailure::ExpandMissing { path } => "未找到 expand.exe，请确认系统完整性。\n预期路径: "@
            + path@,
        ExtractFailure::TempDir { why } => "创建临时目录失败: "@ + why@,
        ExtractFailure::RunExpand { why } => "运行 expand.exe 失败: "@ + why@,
        ExtractFailure::Metadata { why } => "读取运行时目录元数据失败: "@ + why@,
        ExtractFailure::ReparsePoint { dir } => "运行时目录 ["@ + dir@ + REPARSE_TAIL@,
        ExtractFailure::RemoveOld { permission_denied, why } => if permission_denied {
            REMOVE_OLD_DENIED@ + why@
        } else {
            "删除旧的 WebView2 运行时目录失败: "@ + why@
        },
        ExtractFailure::CreateDir { permission_denied, why } => if permission_denied {
            CREATE_DIR_DENIED@ + why@
        } else {
            "创建运行时目录失败: "@ + why@
        },
        ExtractFailure::CopyCreateDir { dir, why } => "无法创建目录 ["@ + dir@ + "]: "@ + why@,
        ExtractFailure::CopyReadDir { dir, why } => "无法读取目录 ["@ + dir@ + "]: "@ + why@,
        ExtractFailure::CopyEntry { why } => "无法读取目录条目: "@ + why@,
        ExtractFailure::CopyFileType { why } => "无法获取文件类型: "@ + why@,
        ExtractFailure::CopyFile { from, to, why } => "无法复制文件 ["@ + from@ + "] -> ["@ + to@
            + "]: "@ + why@,
    }
}

/// The message that reports a failure to unpack.
pub fn extract_failure_message(failure: &ExtractFailure) -> (message: String)
    ensures
        message@ == extract_failure_text(*failure),
{
    match failure {
        ExtractFailure::SystemDirUnknown => "GetSystemDirectoryW 调用失败，无法获取系统目录".to_owned(),
        ExtractFailure::ExpandMissing { path } => join(
            "未找到 expand.exe，请确认系统完整性。\n预期路径: ",
            path.as_str(),
        ),
        ExtractFailure::TempDir { why } => join("创建临时目录失败: ", why.as_str()),
        ExtractFailure::RunExpand { why } => join("运行 expand.exe 失败: ", why.as_str()),
        ExtractFailure::Metadata { why } => join("读取运行时目录元数据失败: ", why.as_str()),
        ExtractFailure::ReparsePoint { dir } => {
            let mut message = join("运行时目录 [", dir.as_str());
            message.append(REPARSE_TAIL);
            message
        },
        ExtractFailure::RemoveOld { permission_denied, why } => if *permission_denied {
            join(REMOVE_OLD_DENIED, why.as_str())
        } else {
            join("删除旧的 WebView2 运行时目录失败: ", why.as_str())
        },
        ExtractFailure::CreateDir { permission_denied, why } => if *permission_denied {
            join(CREATE_DIR_DENIED, why.as_str())
        } else {
            join("创建运行时目录失败: ", why.as_str())
        },
        ExtractFailure::CopyCreateDir { dir, why } => {
            let mut message = join("无法创建目录 [", dir.as_str());
            message.append("]: ");
            message.append(why.as_str());
            message
        },
        ExtractFailure::CopyReadDir { dir, why } => {
            let mut message = join("无法读取目录 [", dir.as_str());
            message.append("]: ");
            message.append(why.as_str());
            message
        },
        ExtractFailure::CopyEntry { why } => join("无法读取目录条目: ", why.as_str()),
        ExtractFailure::CopyFileType { why } => join("无法获取文件类型: ", why.as_str()),
        ExtractFailure::CopyFile { from, to, why } => {
            let mut message = join("无法复制文件 [", from.as_str());
            message.append("] -> [");
            message.append(to.as_str());
            message.append("]: ");
            message.append(why.as_str());
            message
        },
    }
}

/// What can stand in the way of downloading the cabinet.
#[derive(Debug)]
pub enum DownloadFailure {
    /// No HTTP client could be made.
    Client(String),
    /// The request failed.
    Request(String),
    /// The server answered with an error status.
    Status(String),
    /// The file for the download could not be made.
    CreateFile(String),
    /// The answer could not be read.
    Read(String),
    /// The file could not be written.
    Write(String),
    /// The file could not be flushed.
    Flush(String),
}

/// The message for each failure.
pub open spec fn download_failure_text(failure: DownloadFailure) -> Seq<char> {
    match failure {
        DownloadFailure::Client(why) => "创建 HTTP 客户端失败: "@ + why@,
        DownloadFailure::Request(why) => "网络请求失败: "@ + why@,
        DownloadFailure::Status(status) => "服务器返回错误: "@ + status@,
        DownloadFailure::CreateFile(why) => "创建下载文件失败: "@ + why@,
        DownloadFailure::Read(why) => "读取下载内容失败: "@ + why@,
        DownloadFailure::Write(why) => "写入文件失败: "@ + why@,
        DownloadFailure::Flush(why) => "刷新文件缓冲失败: "@ + why@,
    }
}

/// The message that reports a failure to download the cabinet.
pub fn download_failure_message(failure: &DownloadFailure) -> (message: String)
    ensures
        message@ == download_failure_text(*failure),
{
    match failure {
        DownloadFailure::Client(why) => join("创建 HTTP 客户端失败: ", why.as_str()),
        DownloadFailure::Request(why) => join("网络请求失败: ", why.as_str()),
        DownloadFailure::Status(status) => join("服务器返回错误: ", status.as_str()),
        DownloadFailure::CreateFile(why) => join("创建下载文件失败: ", why.as_str()),
        DownloadFailure::Read(why) => join("读取下载内容失败: ", why.as_str()),
        DownloadFailure::Write(why) => join("写入文件失败: ", why.as_str()),
        DownloadFailure::Flush(why) => join("刷新文件缓冲失败: ", why.as_str()),
    }
}

} // verus!
