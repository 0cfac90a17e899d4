//! Unpacking a fixed-version webview runtime beside the program.
//!
//! The work itself (asking the registry, listing a directory, downloading,
//! running the extractor) is done by the shell. This module decides what is
//! done next and words what the user is told. [`ensure_webview2`] is the
//! step function: the shell performs the action it returns and comes back
//! with what happened.

use vstd::prelude::*;
use vstd::string::StringExecFns;
use crate::text::{join, result_view, same_text};
use crate::webview2::local_cab::{cab_scan_for, scan_local_cabs, CAB_PREFIX, CAB_SUFFIX};

verus! {

/// Version of the fixed-version runtime that is downloaded. The two
/// download identifiers below belong to this version.
pub const WEBVIEW2_VERSION: &'static str = "145.0.3800.65";

/// Download identifier of the x64 cabinet.
pub const GUID_X64: &'static str = "c411606c-d282-4304-8420-8ae6b1dd3e9a";

/// Download identifier of the ARM64 cabinet.
pub const GUID_ARM64: &'static str = "2d2cf37b-d24c-4c72-b5bc-e8061e7a7583";

/// Where the cabinets are downloaded from.
pub const DOWNLOAD_BASE: &'static str =
    "https://msedge.sf.dl.delivery.mp.microsoft.com/filestreamingservice/files/";

/// Directory, beside the program, that holds what the program caches.
pub const CACHE_DIR: &'static str = "cache";

/// Directory, inside the cache, that the runtime is unpacked to.
pub const RUNTIME_DIR: &'static str = "webview2_runtime";

/// The file without which an unpacked runtime is not usable.
pub const RUNTIME_EXECUTABLE: &'static str = "msedgewebview2.exe";

/// Environment variable that points the webview at an unpacked runtime.
pub const RUNTIME_ENV: &'static str = "WEBVIEW2_BROWSER_EXECUTABLE_FOLDER";

/// Reported for an unpacked runtime that lacks its executable.
pub const RUNTIME_INCOMPLETE: &'static str =
    "解压后的 WebView2 运行时目录不完整（未找到 msedgewebview2.exe）。\n请删除 cache/webview2_runtime/ 目录后重启程序重试。";

/// Start of the message for an architecture that is not supported.
pub const UNSUPPORTED_ARCH_HEAD: &'static str = "不支持的 CPU 架构: ";

/// End of the message for an architecture that is not supported.
pub const UNSUPPORTED_ARCH_TAIL: &'static str =
    "。当前应用仅支持 64 位 Windows（x64、ARM64），请在 64 位系统上运行。";

/// Download label and download identifier for a CPU architecture, or the
/// message for an architecture that is not supported.
pub open spec fn arch_info_for(arch: Seq<char>) -> Result<(Seq<char>, Seq<char>), Seq<char>> {
    if arch == "x86_64"@ {
        Ok(("x64"@, GUID_X64@))
    } else if arch == "aarch64"@ {
        Ok(("arm64"@, GUID_ARM64@))
    } else {
        Err(UNSUPPORTED_ARCH_HEAD@ + arch + UNSUPPORTED_ARCH_TAIL@)
    }
}

/// A pair of texts or an error text, each taken by its characters.
pub open spec fn pair_view(info: Result<(&'static str, &'static str), String>) -> Result<
    (Seq<char>, Seq<char>),
    Seq<char>,
> {
    match info {
        Ok((label, guid)) => Ok((label@, guid@)),
        Err(message) => Err(message@),
    }
}

/// Download label and download identifier for the CPU architecture `arch`,
/// written as Rust names it (`x86_64`, `aarch64`).
pub fn get_arch_info(arch: &str) -> (info: Result<(&'static str, &'static str), String>)
    ensures
        pair_view(info) == arch_info_for(arch@),
{
    if same_text(arch, "x86_64") {
        Ok(("x64", GUID_X64))
    } else if same_text(arch, "aarch64") {
        Ok(("arm64", GUID_ARM64))
    } else {
        let mut message = join(UNSUPPORTED_ARCH_HEAD, arch);
        message.append(UNSUPPORTED_ARCH_TAIL);
        Err(message)
    }
}

/// Name of the cabinet file for a download label.
pub open spec fn cab_name_for(label: Seq<char>) -> Seq<char> {
    CAB_PREFIX@ + WEBVIEW2_VERSION@ + "."@ + label + CAB_SUFFIX@
}

/// Address of the cabinet file with that name and download identifier.
pub open spec fn download_url_for(guid: Seq<char>, cab_name: Seq<char>) -> Seq<char> {
    DOWNLOAD_BASE@ + guid + "/"@ + cab_name
}

/// Name of the cabinet file for a download label.
pub fn cab_file_name(label: &str) -> (name: String)
    ensures
        name@ == cab_name_for(label@),
{
    let mut name = join(CAB_PREFIX, WEBVIEW2_VERSION);
    name.append(".");
    name.append(label);
    name.append(CAB_SUFFIX);
    name
}

/// Address from which the cabinet file is downloaded.
pub fn download_url(guid: &str, cab_name: &str) -> (url: String)
    ensures
        url@ == download_url_for(guid@, cab_name@),
{
    let mut url = join(DOWNLOAD_BASE, guid);
    url.append("/");
    url.append(cab_name);
    url
}

/// What is known of the directory that the running program lies in.
#[derive(Debug)]
pub enum ProgramDir {
    /// The path of the running program is not known; the text says why.
    NoProgramPath(String),
    /// The running program has no directory.
    NoProgramDirectory,
    /// The directory is known.
    Found,
}

/// Where the runtime goes, as the names of the directories that lead there
/// from the program's directory; or why that cannot be said.
pub open spec fn runtime_dir_for(program_dir: ProgramDir) -> Result<
    (Seq<char>, Seq<char>),
    Seq<char>,
> {
    match program_dir {
        ProgramDir::NoProgramPath(why) => Err("获取程序路径失败: "@ + why@),
        ProgramDir::NoProgramDirectory => Err("无法获取程序目录"@),
        ProgramDir::Found => Ok((CACHE_DIR@, RUNTIME_DIR@)),
    }
}

/// The directory that the runtime is unpacked to: [`RUNTIME_DIR`] inside
/// [`CACHE_DIR`] inside the program's directory. The two names are given in
/// that order; without a program directory the message says what is missing.
pub fn get_webview2_runtime_dir(program_dir: &ProgramDir) -> (located: Result<
    (&'static str, &'static str),
    String,
>)
    ensures
        pair_view(located) == runtime_dir_for(*program_dir),
{
    match program_dir {
        ProgramDir::NoProgramPath(why) => Err(join("获取程序路径失败: ", why.as_str())),
        ProgramDir::NoProgramDirectory => Err("无法获取程序目录".to_owned()),
        ProgramDir::Found => Ok((CACHE_DIR, RUNTIME_DIR)),
    }
}

/// Accepts an unpacked runtime when its executable is there.
pub fn validate_runtime_dir(executable_present: bool) -> (checked: Result<(), String>)
    ensures
        result_view(checked) == (if executable_present {
            Ok::<(), Seq<char>>(())
        } else {
            Err(RUNTIME_INCOMPLETE@)
        }),
{
    if executable_present {
        Ok(())
    } else {
        Err(RUNTIME_INCOMPLETE.to_owned())
    }
}

/// A message box.
#[derive(Clone, Debug)]
pub struct Dialog {
    pub title: String,
    pub message: String,
}

/// What a [`Dialog`] says.
pub struct DialogView {
    pub title: Seq<char>,
    pub message: Seq<char>,
}

impl View for Dialog {
    type V = DialogView;

    open spec fn view(&self) -> DialogView {
        DialogView { title: self.title@, message: self.message@ }
    }
}

/// Title of the dialog that reports that no runtime could be unpacked.
pub const DOWNLOAD_FAILED_TITLE: &'static str = "WebView2 下载失败";

/// That dialog, up to the error.
pub const DOWNLOAD_FAILED_HEAD: &'static str =
    "系统 WebView2 不可用，下载独立 WebView2 运行时失败：\r\n";

/// That dialog, from the error to the download label.
pub const DOWNLOAD_FAILED_WAYS: &'static str =
    "\r\n\r\n【方法一】检查网络连接后重启程序重试\r\n\r\n【方法二】手动下载 cab 文件并放到程序同目录\r\n1. 前往 https://aka.ms/webview2installer\r\n选择 \"Fixed Version\" 下载对应架构（";

/// That dialog, from the download label to the cabinet's name.
pub const DOWNLOAD_FAILED_FILE: &'static str = "）的 cab 文件\r\n2. 将下载的 cab 文件（文件名类似 ";

/// That dialog, from the cabinet's name to the end.
pub const DOWNLOAD_FAILED_REST: &'static str =
    "）\r\n放到本程序 exe 所在目录下\r\n3. 重启程序，将自动检测并解压使用\r\n\r\n【方法三】手动安装系统 WebView2 运行时\r\n前往 https://aka.ms/webview2installer\r\n下载 Evergreen Bootstrapper，运行安装后重启电脑即可";

/// That dialog, from the error to the reason why the architecture is unknown.
pub const DOWNLOAD_FAILED_ARCH: &'static str = "\r\n\r\n此外，无法判断当前系统架构：";

/// That dialog, from that reason to the end.
pub const DOWNLOAD_FAILED_MANUAL: &'static str =
    "\r\n\r\n【手动安装系统 WebView2 运行时】\r\n前往 https://aka.ms/webview2installer\r\n下载 Evergreen Bootstrapper，运行安装后重启电脑即可";

/// What the user is told when no runtime could be unpacked: the error, then
/// the ways out. With a supported architecture these name the cabinet file
/// to fetch by hand; without one they say why the architecture is unknown.
pub open spec fn download_failed_text(error: Seq<char>, arch: Seq<char>) -> Seq<char> {
    match arch_info_for(arch) {
        Ok((label, _)) => DOWNLOAD_FAILED_HEAD@ + error + DOWNLOAD_FAILED_WAYS@ + label
            + DOWNLOAD_FAILED_FILE@ + cab_name_for(label) + DOWNLOAD_FAILED_REST@,
        Err(arch_error) => DOWNLOAD_FAILED_HEAD@ + error + DOWNLOAD_FAILED_ARCH@ + arch_error
            + DOWNLOAD_FAILED_MANUAL@,
    }
}

/// The dialog that reports that no runtime could be unpacked.
pub fn download_failed_dialog(error: &str, arch: &str) -> (dialog: Dialog)
    ensures
        dialog@.title == DOWNLOAD_FAILED_TITLE@,
        dialog@.message == download_failed_text(error@, arch@),
{
    let mut message = join(DOWNLOAD_FAILED_HEAD, error);
    match get_arch_info(arch) {
        Ok((label, _)) => {
            let cab_name = cab_file_name(label);
            message.append(DOWNLOAD_FAILED_WAYS);
            message.append(label);
            message.append(DOWNLOAD_FAILED_FILE);
            message.append(cab_name.as_str());
            message.append(DOWNLOAD_FAILED_REST);
        },
        Err(arch_error) => {
            message.append(DOWNLOAD_FAILED_ARCH);
            message.append(arch_error.as_str());
            message.append(DOWNLOAD_FAILED_MANUAL);
        },
    }
    Dialog { title: DOWNLOAD_FAILED_TITLE.to_owned(), message }
}

/// Title of the dialog about a cabinet for another architecture.
pub const ARCH_MISMATCH_TITLE: &'static str = "WebView2 架构不匹配";

/// That dialog, up to the cabinet's architecture.
pub const ARCH_MISMATCH_HEAD: &'static str =
    "检测到本地 WebView2 运行时 cab 文件，但架构不匹配：\r\n文件架构: ";

/// That dialog, from the cabinet's architecture to the system's.
pub const ARCH_MISMATCH_SYSTEM: &'static str = "\r\n系统架构: ";

/// That dialog, from the system's architecture to the end.
pub const ARCH_MISMATCH_TAIL: &'static str = "\r\n\r\n将忽略该文件并尝试在线下载正确版本。";

/// What the user is told about a cabinet for another architecture.
pub open spec fn arch_mismatch_text(cab_arch: Seq<char>, expected_arch: Seq<char>) -> Seq<char> {
    ARCH_MISMATCH_HEAD@ + cab_arch + ARCH_MISMATCH_SYSTEM@ + expected_arch + ARCH_MISMATCH_TAIL@
}

/// The dialog that reports a local cabinet for another architecture.
pub fn arch_mismatch_dialog(cab_arch: &str, expected_arch: &str) -> (dialog: Dialog)
    ensures
        dialog@.title == ARCH_MISMATCH_TITLE@,
        dialog@.message == arch_mismatch_text(cab_arch@, expected_arch@),
{
    let mut message = join(ARCH_MISMATCH_HEAD, cab_arch);
    message.append(ARCH_MISMATCH_SYSTEM);
    message.append(expected_arch);
    message.append(ARCH_MISMATCH_TAIL);
    Dialog { title: ARCH_MISMATCH_TITLE.to_owned(), message }
}

/// Title of the dialog that reports that the system's runtime is disabled.
pub const DISABLED_TITLE: &'static str = "系统 WebView2 已被禁用";

/// That dialog, up to the reason.
pub const DISABLED_HEAD: &'static str = "检测到系统 WebView2 已被禁用：\r\n";

/// That dialog, from the reason to the end.
pub const DISABLED_TAIL: &'static str =
    "\r\n\r\n【什么是 WebView2？】\r\nWebView2 是微软提供的网页渲染组件，本程序依赖它来\r\n显示界面。如果 WebView2 被禁用，程序将无法正常运行。\r\n\r\n【如何解决？】\r\n方法一：如果使用了 Edge Blocker 等工具\r\n- 打开 Edge Blocker，点击\"Unblock\"解除禁用\r\n- 或删除注册表中的 IFEO 拦截项\r\n\r\n方法二：修改组策略（需要管理员权限）\r\n1. 按 Win + R，输入 gpedit.msc\r\n2. 导航到：计算机配置 > 管理模板 > Microsoft Edge WebView2\r\n3. 将相关策略设置为\"未配置\"或\"已启用\"\r\n\r\n方法三：加入我们的 QQ 群，获取帮助和支持\r\n- 群号可在我们的官网或文档底部找到\r\n\r\n点击确定后将尝试下载独立 WebView2 运行时以继续运行。\r\n若想恢复使用系统 WebView2，请删除 exe 目录下的 cache/webview2_runtime 文件夹";

/// What the user is told when the system's runtime is disabled.
pub open spec fn disabled_text(reason: Seq<char>) -> Seq<char> {
    DISABLED_HEAD@ + reason + DISABLED_TAIL@
}

/// The dialog that reports that the system's runtime is disabled.
pub fn disabled_dialog(reason: &str) -> (dialog: Dialog)
    ensures
        dialog@.title == DISABLED_TITLE@,
        dialog@.message == disabled_text(reason@),
{
    let mut message = join(DISABLED_HEAD, reason);
    message.append(DISABLED_TAIL);
    Dialog { title: DISABLED_TITLE.to_owned(), message }
}

/// How the search for a runtime ended.
#[derive(Clone, Copy, Debug, PartialEq, Eq, Structural)]
pub enum Outcome {
    /// The system's runtime is used.
    SystemRuntime,
    /// A runtime unpacked beside the program is used; the shell points the
    /// webview at it through [`RUNTIME_ENV`].
    LocalRuntime,
    /// There is no runtime; the user has been told.
    Failed,
}

impl Outcome {
    /// Whether the interface can be started.
    pub fn usable(self) -> (ok: bool)
        ensures
            ok == (self != Outcome::Failed),
    {
        match self {
            Outcome::Failed => false,
            _ => true,
        }
    }
}

/// Where the search for a runtime stands: what the shell has been asked to
/// do and has not yet answered.
#[derive(Clone, Copy, Debug, PartialEq, Eq, Structural)]
pub enum InstallState {
    /// Nothing has been asked yet.
    Start,
    /// Asked whether the system's runtime is disabled.
    ProbingDisabled,
    /// Showing the notice that it is disabled.
    ShowingDisabledNotice,
    /// Asked whether the system's runtime is installed.
    ProbingInstalled,
    /// Asked for the directory that the runtime is unpacked to.
    LocatingRuntimeDir,
    /// Asked for the names of the files beside the program.
    ListingProgramDir,
    /// Unpacking a cabinet found beside the program.
    ExtractingLocalCab,
    /// Showing the notice about a cabinet for another architecture.
    ShowingArchMismatch,
    /// Downloading the cabinet.
    Downloading,
    /// Unpacking the downloaded cabinet.
    ExtractingDownload,
    /// Asked whether the unpacked runtime has its executable.
    Validating,
    /// Showing the notice that no runtime could be had.
    ShowingFailure,
    /// Over.
    Finished(Outcome),
}

/// What the shell reports back.
#[derive(Debug)]
pub enum InstallEvent {
    /// The search begins.
    Begin,
    /// Whether the system's runtime is disabled, and if so why.
    DisabledProbed(Option<String>),
    /// The user has closed the dialog.
    DialogClosed,
    /// Whether the system's runtime is installed.
    InstalledProbed(bool),
    /// Whether the directory for the runtime could be named; if not, why.
    RuntimeDirLocated(Result<(), String>),
    /// The names of the files beside the program, or `None` when they
    /// cannot be listed.
    ProgramDirListed(Option<Vec<String>>),
    /// Whether the cabinet was unpacked; if not, why.
    CabExtracted(Result<(), String>),
    /// Whether the cabinet was downloaded; if not, why.
    DownloadFinished(Result<(), String>),
    /// Whether the unpacked runtime has its executable.
    RuntimeChecked(bool),
}

/// What the shell is to do next.
#[derive(Clone, Debug)]
pub enum InstallAction {
    /// Find out whether the system's runtime is disabled.
    ProbeDisabled,
    /// Find out whether the system's runtime is installed.
    ProbeInstalled,
    /// Show an error dialog and wait until it is closed.
    ShowError(Dialog),
    /// Name the directory that the runtime is unpacked to.
    LocateRuntimeDir,
    /// List the files beside the program.
    ListProgramDir,
    /// Unpack the listed file with this index, then delete it.
    ExtractLocalCab { index: usize },
    /// Download the cabinet from `url`.
    Download { url: String, cab_name: String },
    /// Unpack the downloaded cabinet, then delete it.
    ExtractDownload,
    /// Look for the executable in the unpacked runtime.
    CheckRuntime,
    /// Stop: the search is over.
    Finish(Outcome),
    /// Nothing: the event is not one that the state waits for.
    Nothing,
}

/// What an [`InstallAction`] says.
pub enum InstallActionView {
    ProbeDisabled,
    ProbeInstalled,
    ShowError(DialogView),
    LocateRuntimeDir,
    ListProgramDir,
    ExtractLocalCab { index: int },
    Download { url: Seq<char>, cab_name: Seq<char> },
    ExtractDownload,
    CheckRuntime,
    Finish(Outcome),
    Nothing,
}

impl View for InstallAction {
    type V = InstallActionView;

    open spec fn view(&self) -> InstallActionView {
        match self {
            InstallAction::ProbeDisabled => InstallActionView::ProbeDisabled,
            InstallAction::ProbeInstalled => InstallActionView::ProbeInstalled,
            InstallAction::ShowError(dialog) => InstallActionView::ShowError(dialog@),
            InstallAction::LocateRuntimeDir => InstallActionView::LocateRuntimeDir,
            InstallAction::ListProgramDir => InstallActionView::ListProgramDir,
            InstallAction::ExtractLocalCab { index } => InstallActionView::ExtractLocalCab {
                index: *index as int,
            },
            InstallAction::Download { url, cab_name } => InstallActionView::Download {
                url: url@,
                cab_name: cab_name@,
            },
            InstallAction::ExtractDownload => InstallActionView::ExtractDownload,
            InstallAction::CheckRuntime => InstallActionView::CheckRuntime,
            InstallAction::Finish(outcome) => InstallActionView::Finish(*outcome),
            InstallAction::Nothing => InstallActionView::Nothing,
        }
    }
}

/// Giving up with `error`: the user is told, then the search ends.
pub open spec fn give_up(error: Seq<char>, arch: Seq<char>) -> (InstallState, InstallActionView) {
    (
        InstallState::ShowingFailure,
        InstallActionView::ShowError(
            DialogView {
                title: DOWNLOAD_FAILED_TITLE@,
                message: download_failed_text(error, arch),
            },
        ),
    )
}

/// Turning to a runtime of the program's own: the first thing wanted is the
/// directory it goes to. An unsupported architecture ends the search.
pub open spec fn begin_unpacking(arch: Seq<char>) -> (InstallState, InstallActionView) {
    match arch_info_for(arch) {
        Ok(_) => (InstallState::LocatingRuntimeDir, InstallActionView::LocateRuntimeDir),
        Err(error) => give_up(error, arch),
    }
}

/// Turning to the download.
pub open spec fn begin_download(arch: Seq<char>) -> (InstallState, InstallActionView) {
    match arch_info_for(arch) {
        Ok((label, guid)) => (
            InstallState::Downloading,
            InstallActionView::Download {
                url: download_url_for(guid, cab_name_for(label)),
                cab_name: cab_name_for(label),
            },
        ),
        Err(error) => give_up(error, arch),
    }
}

/// What follows the listing of the program's directory: a cabinet for this
/// architecture is unpacked; failing that, a cabinet for another one is
/// reported to the user; failing that, the download begins.
pub open spec fn after_listing(arch: Seq<char>, names: Seq<Seq<char>>) -> (
    InstallState,
    InstallActionView,
) {
    match arch_info_for(arch) {
        Ok((label, _)) => {
            let scan = cab_scan_for(names, label);
            match scan.matched {
                Some(index) => (
                    InstallState::ExtractingLocalCab,
                    InstallActionView::ExtractLocalCab { index },
                ),
                None => match scan.mismatched_arch {
                    Some(cab_arch) => (
                        InstallState::ShowingArchMismatch,
                        InstallActionView::ShowError(
                            DialogView {
                                title: ARCH_MISMATCH_TITLE@,
                                message: arch_mismatch_text(cab_arch, label),
                            },
                        ),
                    ),
                    None => begin_download(arch),
                },
            }
        },
        Err(error) => give_up(error, arch),
    }
}

/// The step that the search takes from `state` when `event` is reported, on
/// a machine of architecture `arch`: the state it is in afterwards and what
/// the shell is asked to do. An event that the state does not wait for
/// changes nothing.
pub open spec fn install_step(arch: Seq<char>, state: InstallState, event: InstallEvent) -> (
    InstallState,
    InstallActionView,
) {
    match (state, event) {
        (InstallState::Start, InstallEvent::Begin) => (
            InstallState::ProbingDisabled,
            InstallActionView::ProbeDisabled,
        ),
        (InstallState::ProbingDisabled, InstallEvent::DisabledProbed(Some(reason))) => (
            InstallState::ShowingDisabledNotice,
            InstallActionView::ShowError(
                DialogView { title: DISABLED_TITLE@, message: disabled_text(reason@) },
            ),
        ),
        (InstallState::ProbingDisabled, InstallEvent::DisabledProbed(None)) => (
            InstallState::ProbingInstalled,
            InstallActionView::ProbeInstalled,
        ),
        (InstallState::ShowingDisabledNotice, InstallEvent::DialogClosed) => begin_unpacking(arch),
        (InstallState::ProbingInstalled, InstallEvent::InstalledProbed(installed)) => if installed {
            (
                InstallState::Finished(Outcome::SystemRuntime),
                InstallActionView::Finish(Outcome::SystemRuntime),
            )
        } else {
            begin_unpacking(arch)
        },
        (InstallState::LocatingRuntimeDir, InstallEvent::RuntimeDirLocated(Ok(()))) => (
            InstallState::ListingProgramDir,
            InstallActionView::ListProgramDir,
        ),
        (InstallState::LocatingRuntimeDir, InstallEvent::RuntimeDirLocated(Err(error))) => give_up(
            error@,
            arch,
        ),
        (InstallState::ListingProgramDir, InstallEvent::ProgramDirListed(Some(names))) => after_listing(
            arch,
            names.deep_view(),
        ),
        (InstallState::ListingProgramDir, InstallEvent::ProgramDirListed(None)) => begin_download(
            arch,
        ),
        (InstallState::ExtractingLocalCab, InstallEvent::CabExtracted(Ok(()))) => (
            InstallState::Validating,
            InstallActionView::CheckRuntime,
        ),
        (InstallState::ExtractingLocalCab, InstallEvent::CabExtracted(Err(_))) => begin_download(
            arch,
        ),
        (InstallState::ShowingArchMismatch, InstallEvent::DialogClosed) => begin_download(arch),
        (InstallState::Downloading, InstallEvent::DownloadFinished(Ok(()))) => (
            InstallState::ExtractingDownload,
            InstallActionView::ExtractDownload,
        ),
        (InstallState::Downloading, InstallEvent::DownloadFinished(Err(error))) => give_up(
            error@,
            arch,
        ),
        (InstallState::ExtractingDownload, InstallEvent::CabExtracted(Ok(()))) => (
            InstallState::Validating,
            InstallActionView::CheckRuntime,
        ),
        (InstallState::ExtractingDownload, InstallEvent::CabExtracted(Err(error))) => give_up(
            error@,
            arch,
        ),
        (InstallState::Validating, InstallEvent::RuntimeChecked(present)) => if present {
            (
                InstallState::Finished(Outcome::LocalRuntime),
                InstallActionView::Finish(Outcome::LocalRuntime),
            )
        } else {
            give_up(RUNTIME_INCOMPLETE@, arch)
        },
        (InstallState::ShowingFailure, InstallEvent::DialogClosed) => (
            InstallState::Finished(Outcome::Failed),
            InstallActionView::Finish(Outcome::Failed),
        ),
        (InstallState::Finished(outcome), _) => (state, InstallActionView::Finish(outcome)),
        _ => (state, InstallActionView::Nothing),
    }
}

/// Takes the step [`give_up`].
fn fail(error: &str, arch: &str) -> (next: (InstallState, InstallAction))
    ensures
        (next.0, next.1@) == give_up(error@, arch@),
{
    (InstallState::ShowingFailure, InstallAction::ShowError(download_failed_dialog(error, arch)))
}

/// Takes the step [`begin_unpacking`].
fn unpack(arch: &str) -> (next: (InstallState, InstallAction))
    ensures
        (next.0, next.1@) == begin_unpacking(arch@),
{
    match get_arch_info(arch) {
        Ok(_) => (InstallState::LocatingRuntimeDir, InstallAction::LocateRuntimeDir),
        Err(error) => fail(error.as_str(), arch),
    }
}

/// Takes the step [`begin_download`].
fn download(arch: &str) -> (next: (InstallState, InstallAction))
    ensures
        (next.0, next.1@) == begin_download(arch@),
{
    match get_arch_info(arch) {
        Ok((label, guid)) => {
            let cab_name = cab_file_name(label);
            let url = download_url(guid, cab_name.as_str());
            (InstallState::Downloading, InstallAction::Download { url, cab_name })
        },
        Err(error) => fail(error.as_str(), arch),
    }
}

/// Takes the step [`after_listing`].
fn listed(arch: &str, names: &Vec<String>) -> (next: (InstallState, InstallAction))
    ensures
        (next.0, next.1@) == after_listing(arch@, names.deep_view()),
{
    match get_arch_info(arch) {
        Ok((label, _)) => {
            let scan = scan_local_cabs(names, label);
            match scan.matched {
                Some(index) => (
                    InstallState::ExtractingLocalCab,
                    InstallAction::ExtractLocalCab { index },
                ),
                None => match scan.mismatched_arch {
                    Some(cab_arch) => (
                        InstallState::ShowingArchMismatch,
                        InstallAction::ShowError(arch_mismatch_dialog(cab_arch.as_str(), label)),
                    ),
                    None => download(arch),
                },
            }
        },
        Err(error) => fail(error.as_str(), arch),
    }
}

/// Takes the search for a webview runtime one step further.
///
/// The shell starts with [`InstallState::Start`] and [`InstallEvent::Begin`],
/// performs the action that comes back, and calls again with the new state
/// and what the action gave, until the action is [`InstallAction::Finish`].
/// `arch` is the CPU architecture of the machine as Rust names it.
pub fn ensure_webview2(arch: &str, state: InstallState, event: &InstallEvent) -> (next: (
    InstallState,
    InstallAction,
))
    ensures
        (next.0, next.1@) == install_step(arch@, state, *event),
{
    match state {
        InstallState::Start => match event {
            InstallEvent::Begin => (InstallState::ProbingDisabled, InstallAction::ProbeDisabled),
            _ => (state, InstallAction::Nothing),
        },
        InstallState::ProbingDisabled => match event {
            InstallEvent::DisabledProbed(Some(reason)) => (
                InstallState::ShowingDisabledNotice,
                InstallAction::ShowError(disabled_dialog(reason.as_str())),
            ),
            InstallEvent::DisabledProbed(None) => (
                InstallState::ProbingInstalled,
                InstallAction::ProbeInstalled,
            ),
            _ => (state, InstallAction::Nothing),
        },
        InstallState::ShowingDisabledNotice => match event {
            InstallEvent::DialogClosed => unpack(arch),
            _ => (state, InstallAction::Nothing),
        },
        InstallState::ProbingInstalled => match event {
            InstallEvent::InstalledProbed(installed) => if *installed {
                (
                    InstallState::Finished(Outcome::SystemRuntime),
                    InstallAction::Finish(Outcome::SystemRuntime),
                )
            } else {
                unpack(arch)
            },
            _ => (state, InstallAction::Nothing),
        },
        InstallState::LocatingRuntimeDir => match event {
            InstallEvent::RuntimeDirLocated(Ok(())) => (
                InstallState::ListingProgramDir,
                InstallAction::ListProgramDir,
            ),
            InstallEvent::RuntimeDirLocated(Err(error)) => fail(error.as_str(), arch),
            _ => (state, InstallAction::Nothing),
        },
        InstallState::ListingProgramDir => match event {
            InstallEvent::ProgramDirListed(Some(names)) => listed(arch, names),
            InstallEvent::ProgramDirListed(None) => download(arch),
            _ => (state, InstallAction::Nothing),
        },
        InstallState::ExtractingLocalCab => match event {
            InstallEvent::CabExtracted(Ok(())) => (
                InstallState::Validating,
                InstallAction::CheckRuntime,
            ),
            InstallEvent::CabExtracted(Err(_)) => download(arch),
            _ => (state, InstallAction::Nothing),
        },
        InstallState::ShowingArchMismatch => match event {
            InstallEvent::DialogClosed => download(arch),
            _ => (state, InstallAction::Nothing),
        },
        InstallState::Downloading => match event {
            InstallEvent::DownloadFinished(Ok(())) => (
                InstallState::ExtractingDownload,
                InstallAction::ExtractDownload,
            ),
            InstallEvent::DownloadFinished(Err(error)) => fail(error.as_str(), arch),
            _ => (state, InstallAction::Nothing),
        },
        InstallState::ExtractingDownload => match event {
            InstallEvent::CabExtracted(Ok(())) => (
                InstallState::Validating,
                InstallAction::CheckRuntime,
            ),
            InstallEvent::CabExtracted(Err(error)) => fail(error.as_str(), arch),
            _ => (state, InstallAction::Nothing),
        },
        InstallState::Validating => match event {
            InstallEvent::RuntimeChecked(present) => match validate_runtime_dir(*present) {
                Ok(()) => (
                    InstallState::Finished(Outcome::LocalRuntime),
                    InstallAction::Finish(Outcome::LocalRuntime),
                ),
                Err(error) => fail(error.as_str(), arch),
            },
            _ => (state, InstallAction::Nothing),
        },
        InstallState::ShowingFailure => match event {
            InstallEvent::DialogClosed => (
                InstallState::Finished(Outcome::Failed),
                InstallAction::Finish(Outcome::Failed),
            ),
            _ => (state, InstallAction::Nothing),
        },
        InstallState::Finished(outcome) => (state, InstallAction::Finish(outcome)),
    }
}

/// Whether `event` is one that `state` waits for.
pub open spec fn expects(state: InstallState, event: InstallEvent) -> bool {
    match (state, event) {
        (InstallState::Start, InstallEvent::Begin) => true,
        (InstallState::ProbingDisabled, InstallEvent::DisabledProbed(_)) => true,
        (InstallState::ShowingDisabledNotice, InstallEvent::DialogClosed) => true,
        (InstallState::ProbingInstalled, InstallEvent::InstalledProbed(_)) => true,
        (InstallState::LocatingRuntimeDir, InstallEvent::RuntimeDirLocated(_)) => true,
        (InstallState::ListingProgramDir, InstallEvent::ProgramDirListed(_)) => true,
        (InstallState::ExtractingLocalCab, InstallEvent::CabExtracted(_)) => true,
        (InstallState::ShowingArchMismatch, InstallEvent::DialogClosed) => true,
        (InstallState::Downloading, InstallEvent::DownloadFinished(_)) => true,
        (InstallState::ExtractingDownload, InstallEvent::CabExtracted(_)) => true,
        (InstallState::Validating, InstallEvent::RuntimeChecked(_)) => true,
        (InstallState::ShowingFailure, InstallEvent::DialogClosed) => true,
        _ => false,
    }
}

/// An upper bound on the number of steps that are left from `state`.
pub open spec fn steps_left(state: InstallState) -> nat {
    match state {
        InstallState::Start => 12,
        InstallState::ProbingDisabled => 11,
        InstallState::ShowingDisabledNotice => 10,
        InstallState::ProbingInstalled => 10,
        InstallState::LocatingRuntimeDir => 9,
        InstallState::ListingProgramDir => 8,
        InstallState::ExtractingLocalCab => 7,
        InstallState::ShowingArchMismatch => 7,
        InstallState::Downloading => 6,
        InstallState::ExtractingDownload => 5,
        InstallState::Validating => 4,
        InstallState::ShowingFailure => 3,
        InstallState::Finished(_) => 0,
    }
}

/// Every step that answers what the state waits for brings the search
/// nearer to its end, so the search is over after twelve steps at most. A
/// step that answers something else changes nothing and asks for nothing.
pub proof fn lemma_step_makes_progress(arch: Seq<char>, state: InstallState, event: InstallEvent)
    ensures
        expects(state, event) ==> steps_left(install_step(arch, state, event).0) < steps_left(
            state,
        ),
        !expects(state, event) ==> install_step(arch, state, event).0 == state,
        !expects(state, event) && !(state is Finished) ==> install_step(arch, state, event).1
            is Nothing,
{
}

/// The search ends well only where a runtime is known to be there: the
/// system's after it was found installed, the program's own after its
/// executable was found. It ends badly only after the user was told.
pub proof fn lemma_finish_is_earned(arch: Seq<char>, state: InstallState, event: InstallEvent)
    requires
        !(state is Finished),
    ensures
        install_step(arch, state, event).0 == InstallState::Finished(Outcome::SystemRuntime) ==> (
        state == InstallState::ProbingInstalled && event == InstallEvent::InstalledProbed(true)),
        install_step(arch, state, event).0 == InstallState::Finished(Outcome::LocalRuntime) ==> (
        state == InstallState::Validating && event == InstallEvent::RuntimeChecked(true)),
        install_step(arch, state, event).0 == InstallState::Finished(Outcome::Failed) ==> (state
            == InstallState::ShowingFailure && event == InstallEvent::DialogClosed),
{
}

/// The action asks the shell to stop exactly when the state it comes with
/// is a finished one, and names that state's outcome.
pub proof fn lemma_finish_matches_state(arch: Seq<char>, state: InstallState, event: InstallEvent)
    ensures
        match install_step(arch, state, event).1 {
            InstallActionView::Finish(outcome) => install_step(arch, state, event).0
                == InstallState::Finished(outcome),
            _ => !(install_step(arch, state, event).0 is Finished),
        },
{
}

/// A system runtime that is disabled is never used: once the probe has
/// said so, the next steps lead to a runtime of the program's own or to
/// failure.
pub proof fn lemma_disabled_runtime_is_not_used(arch: Seq<char>, reason: String)
    ensures
        install_step(
            arch,
            InstallState::ProbingDisabled,
            InstallEvent::DisabledProbed(Some(reason)),
        ).0 == InstallState::ShowingDisabledNotice,
        !(install_step(arch, InstallState::ShowingDisabledNotice, InstallEvent::DialogClosed).0
            is ProbingInstalled),
{
}

} // verus!
