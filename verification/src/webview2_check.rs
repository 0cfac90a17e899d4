//! The start-up check for the system's webview runtime, with the offer to
//! install it.
//!
//! [`ensure_webview2`] is the step function of the check. The shell asks the
//! registry, shows the dialogs, downloads and runs the installer; what to do
//! next and what the dialogs say is decided here.

use vstd::prelude::*;
use vstd::string::StringExecFns;
use crate::text::{
    hex_upper, join, push_hex_upper, push_signed_decimal, result_view, signed_decimal,
};
use crate::system::{exit_code_or_default, NO_EXIT_CODE};
use crate::webview2::install::Dialog;

verus! {

/// Where the installer of the system's runtime is downloaded from.
pub const INSTALLER_URL: &'static str = "https://go.microsoft.com/fwlink/p/?LinkId=2124703";

/// File name under which the installer is saved in the temporary directory.
pub const INSTALLER_FILE: &'static str = "MicrosoftEdgeWebview2Setup.exe";

/// Exit code with which the installer says that the runtime is there already.
pub const ALREADY_INSTALLED: i32 = -2147219416;

/// Title of the question whether to install the runtime.
pub const PROMPT_TITLE: &'static str = "缺少 WebView2 运行时";

/// The question whether to install the runtime.
pub const PROMPT_MESSAGE: &'static str =
    "检测到您的系统未安装 Microsoft Edge WebView2 运行时，这是运行本程序所必需的组件。\n\n是否自动下载并安装？\n\n• 点击「是」：自动下载安装\n• 点击「否」：稍后手动安装";

/// Title of the notice that the download is about to begin.
pub const DOWNLOADING_TITLE: &'static str = "正在下载";

/// The notice that the download is about to begin.
pub const DOWNLOADING_MESSAGE: &'static str =
    "即将开始下载 WebView2 运行时。\n\n下载过程可能需要 1-2 分钟，请耐心等待。\n下载完成后会自动安装。\n\n点击「确定」开始下载...";

/// Title of the notice that the runtime was installed.
pub const SUCCESS_TITLE: &'static str = "安装成功";

/// The notice that the runtime was installed.
pub const SUCCESS_MESSAGE: &'static str = "WebView2 运行时安装成功！程序将继续启动。";

/// Title of the guide to installing by hand.
pub const MANUAL_TITLE: &'static str = "请手动安装 WebView2";

/// Start of the guide after an installation that failed; the error follows.
pub const MANUAL_FAILED_HEAD: &'static str = "自动安装失败：\n";

/// Start of the guide for a user who chose to install by hand.
pub const MANUAL_CHOSEN_HEAD: &'static str = "您选择了手动安装。";

/// Part of the guide that leads to the installer's address.
pub const MANUAL_VISIT: &'static str = "\n\n请在浏览器中访问以下链接下载安装：\n";

/// Hint that the installer's address is on the clipboard.
pub const MANUAL_COPIED_HINT: &'static str = "（下载链接已复制到剪贴板，可直接粘贴到浏览器）";

/// End of the guide.
pub const MANUAL_TAIL: &'static str = "\n\n安装完成后，请重新启动本程序。";

/// The 32 bits of `n` read as an unsigned number.
pub open spec fn as_unsigned(n: int) -> nat {
    if n < 0 {
        (n + 0x1_0000_0000) as nat
    } else {
        n as nat
    }
}

/// What is reported for an installer that ended with `exit_code` and is not
/// taken to have succeeded: the code in decimal and in hexadecimal.
pub open spec fn installer_exit_text(exit_code: int) -> Seq<char> {
    "安装程序退出码: "@ + signed_decimal(exit_code) + " (0x"@ + hex_upper(as_unsigned(exit_code))
        + ")"@
}

/// Whether an installer run counts as success: it reported success, or it
/// ended with the code for "already installed".
pub open spec fn installer_succeeded(success: bool, code: Option<i32>) -> bool {
    success || code == Some(ALREADY_INSTALLED)
}

/// Judges a finished installer run. `success` is what the system says of the
/// process, `code` its exit code if it has one.
pub fn installer_result(success: bool, code: Option<i32>) -> (outcome: Result<(), String>)
    ensures
        result_view(outcome) == (if installer_succeeded(success, code) {
            Ok::<(), Seq<char>>(())
        } else {
            Err(
                installer_exit_text(
                    match code {
                        Some(c) => c as int,
                        None => NO_EXIT_CODE as int,
                    },
                ),
            )
        }),
{
    let exit_code = exit_code_or_default(code);
    if success || exit_code == ALREADY_INSTALLED {
        Ok(())
    } else {
        let unsigned: u32 = if exit_code < 0 {
            (exit_code as i64 + 0x1_0000_0000i64) as u32
        } else {
            exit_code as u32
        };
        let mut message = "安装程序退出码: ".to_owned();
        push_signed_decimal(&mut message, exit_code as i64);
        message.append(" (0x");
        push_hex_upper(&mut message, unsigned);
        message.append(")");
        Err(message)
    }
}

/// What can go wrong between asking for the installer and having run it.
#[derive(Debug)]
pub enum InstallerFailure {
    /// No HTTP client could be made.
    Client(String),
    /// The request failed.
    Request(String),
    /// The server answered with an error status.
    Status(String),
    /// The answer could not be read.
    Body(String),
    /// The installer could not be saved.
    Save(String),
    /// The installer could not be started.
    Run(String),
}

/// The message for each failure.
pub open spec fn installer_failure_text(failure: InstallerFailure) -> Seq<char> {
    match failure {
        InstallerFailure::Client(why) => "创建 HTTP 客户端失败: "@ + why@,
        InstallerFailure::Request(why) => "网络请求失败: "@ + why@,
        InstallerFailure::Status(status) => "服务器返回错误，HTTP 状态码: "@ + status@,
        InstallerFailure::Body(why) => "读取下载内容失败: "@ + why@,
        InstallerFailure::Save(why) => "保存安装程序失败: "@ + why@,
        InstallerFailure::Run(why) => "运行安装程序失败: "@ + why@,
    }
}

/// The message that reports a failure to get or start the installer.
pub fn installer_failure_message(failure: &InstallerFailure) -> (message: String)
    ensures
        message@ == installer_failure_text(*failure),
{
    match failure {
        InstallerFailure::Client(why) => join("创建 HTTP 客户端失败: ", why.as_str()),
        InstallerFailure::Request(why) => join("网络请求失败: ", why.as_str()),
        InstallerFailure::Status(status) => join("服务器返回错误，HTTP 状态码: ", status.as_str()),
        InstallerFailure::Body(why) => join("读取下载内容失败: ", why.as_str()),
        InstallerFailure::Save(why) => join("保存安装程序失败: ", why.as_str()),
        InstallerFailure::Run(why) => join("运行安装程序失败: ", why.as_str()),
    }
}

/// What the user is told about installing by hand: why it has come to that,
/// the address of the installer, and the hint that the address is on the
/// clipboard if it was copied there.
pub open spec fn manual_install_text(error: Option<Seq<char>>, copied: bool) -> Seq<char> {
    let head = match error {
        Some(e) => MANUAL_FAILED_HEAD@ + e,
        None => MANUAL_CHOSEN_HEAD@,
    };
    let hint = if copied {
        MANUAL_COPIED_HINT@
    } else {
        Seq::<char>::empty()
    };
    head + MANUAL_VISIT@ + INSTALLER_URL@ + "\n"@ + hint + MANUAL_TAIL@
}

/// The dialog that guides the user to install the runtime by hand.
pub fn manual_install_dialog(error: Option<&str>, copied: bool) -> (dialog: Dialog)
    ensures
        dialog@.title == MANUAL_TITLE@,
        dialog@.message == manual_install_text(
            match error {
                Some(e) => Some(e@),
                None => None,
            },
            copied,
        ),
{
    let mut message = match error {
        Some(e) => join(MANUAL_FAILED_HEAD, e),
        None => MANUAL_CHOSEN_HEAD.to_owned(),
    };
    message.append(MANUAL_VISIT);
    message.append(INSTALLER_URL);
    message.append("\n");
    if copied {
        message.append(MANUAL_COPIED_HINT);
    } else {
        assert(message@ + Seq::<char>::empty() == message@);
    }
    message.append(MANUAL_TAIL);
    Dialog { title: MANUAL_TITLE.to_owned(), message }
}

/// Where the check stands.
#[derive(Clone, Copy, Debug, PartialEq, Eq, Structural)]
pub enum CheckState {
    /// Nothing has been asked yet.
    Start,
    /// Asked whether the runtime is installed.
    Probing,
    /// Asking the user whether to install it.
    Prompting,
    /// Downloading and running the installer.
    Installing,
    /// Showing how to install by hand.
    ShowingManual,
    /// Over; `true` means the program may start.
    Finished(bool),
}

/// What the shell reports back.
#[derive(Debug)]
pub enum CheckEvent {
    /// The check begins.
    Begin,
    /// Whether the runtime is installed.
    Installed(bool),
    /// Whether the user wants it installed now.
    Consent(bool),
    /// How the installation went.
    InstallerDone(Result<(), String>),
    /// The user has closed the dialog.
    DialogClosed,
}

/// What the shell is to do next.
#[derive(Debug)]
pub enum CheckAction {
    /// Find out whether the runtime is installed.
    Probe,
    /// Ask the user whether to download and install it.
    Prompt,
    /// Download the installer and run it.
    Install,
    /// Copy the installer's address to the clipboard and show how to install
    /// by hand; the text, if any, is the error that led here.
    ShowManual(Option<String>),
    /// Stop; `true` means the program may start.
    Finish(bool),
    /// Nothing: the event is not one that the state waits for.
    Nothing,
}

/// What a [`CheckAction`] says.
pub enum CheckActionView {
    Probe,
    Prompt,
    Install,
    ShowManual(Option<Seq<char>>),
    Finish(bool),
    Nothing,
}

impl View for CheckAction {
    type V = CheckActionView;

    open spec fn view(&self) -> CheckActionView {
        match self {
            CheckAction::Probe => CheckActionView::Probe,
            CheckAction::Prompt => CheckActionView::Prompt,
            CheckAction::Install => CheckActionView::Install,
            CheckAction::ShowManual(Some(error)) => CheckActionView::ShowManual(Some(error@)),
            CheckAction::ShowManual(None) => CheckActionView::ShowManual(None),
            CheckAction::Finish(ok) => CheckActionView::Finish(*ok),
            CheckAction::Nothing => CheckActionView::Nothing,
        }
    }
}

/// The step that the check takes from `state` when `event` is reported. An
/// event that the state does not wait for changes nothing.
pub open spec fn check_step(state: CheckState, event: CheckEvent) -> (CheckState, CheckActionView) {
    match (state, event) {
        (CheckState::Start, CheckEvent::Begin) => (CheckState::Probing, CheckActionView::Probe),
        (CheckState::Probing, CheckEvent::Installed(true)) => (
            CheckState::Finished(true),
            CheckActionView::Finish(true),
        ),
        (CheckState::Probing, CheckEvent::Installed(false)) => (
            CheckState::Prompting,
            CheckActionView::Prompt,
        ),
        (CheckState::Prompting, CheckEvent::Consent(true)) => (
            CheckState::Installing,
            CheckActionView::Install,
        ),
        (CheckState::Prompting, CheckEvent::Consent(false)) => (
            CheckState::ShowingManual,
            CheckActionView::ShowManual(None),
        ),
        (CheckState::Installing, CheckEvent::InstallerDone(Ok(()))) => (
            CheckState::Finished(true),
            CheckActionView::Finish(true),
        ),
        (CheckState::Installing, CheckEvent::InstallerDone(Err(error))) => (
            CheckState::ShowingManual,
            CheckActionView::ShowManual(Some(error@)),
        ),
        (CheckState::ShowingManual, CheckEvent::DialogClosed) => (
            CheckState::Finished(false),
            CheckActionView::Finish(false),
        ),
        (CheckState::Finished(ok), _) => (state, CheckActionView::Finish(ok)),
        _ => (state, CheckActionView::Nothing),
    }
}

/// Takes the start-up check one step further.
///
/// The shell starts with [`CheckState::Start`] and [`CheckEvent::Begin`],
/// performs the action that comes back, and calls again with the new state
/// and what the action gave, until the action is [`CheckAction::Finish`].
pub fn ensure_webview2(state: CheckState, event: &CheckEvent) -> (next: (CheckState, CheckAction))
    ensures
        (next.0, next.1@) == check_step(state, *event),
{
    match state {
        CheckState::Start => match event {
            CheckEvent::Begin => (CheckState::Probing, CheckAction::Probe),
            _ => (state, CheckAction::Nothing),
        },
        CheckState::Probing => match event {
            CheckEvent::Installed(true) => (CheckState::Finished(true), CheckAction::Finish(true)),
            CheckEvent::Installed(false) => (CheckState::Prompting, CheckAction::Prompt),
            _ => (state, CheckAction::Nothing),
        },
        CheckState::Prompting => match event {
            CheckEvent::Consent(true) => (CheckState::Installing, CheckAction::Install),
            CheckEvent::Consent(false) => (
                CheckState::ShowingManual,
                CheckAction::ShowManual(None),
            ),
            _ => (state, CheckAction::Nothing),
        },
        CheckState::Installing => match event {
            CheckEvent::InstallerDone(Ok(())) => (
                CheckState::Finished(true),
                CheckAction::Finish(true),
            ),
            CheckEvent::InstallerDone(Err(error)) => (
                CheckState::ShowingManual,
                CheckAction::ShowManual(Some(error.clone())),
            ),
            _ => (state, CheckAction::Nothing),
        },
        CheckState::ShowingManual => match event {
            CheckEvent::DialogClosed => (CheckState::Finished(false), CheckAction::Finish(false)),
            _ => (state, CheckAction::Nothing),
        },
        CheckState::Finished(ok) => (state, CheckAction::Finish(ok)),
    }
}

/// The answer that the check gives when the probe says `installed`, the
/// user answers the prompt with `consent` and the installer ends with
/// `installer_ok`: the program may start when the runtime is there, or when
/// the user had it installed and that went well.
pub open spec fn may_start(installed: bool, consent: bool, installer_ok: bool) -> bool {
    installed || (consent && installer_ok)
}

/// Run from the start with events that answer what was asked, the check
/// ends with [`may_start`], and it shows the way to install by hand before
/// every refusal.
pub proof fn lemma_check_outcome(
    installed: bool,
    consent: bool,
    installer: Result<(), String>,
)
    ensures
        ({
            let s1 = check_step(CheckState::Start, CheckEvent::Begin).0;
            let s2 = check_step(s1, CheckEvent::Installed(installed)).0;
            let s3 = check_step(s2, CheckEvent::Consent(consent)).0;
            let s4 = check_step(s3, CheckEvent::InstallerDone(installer)).0;
            let s5 = check_step(s4, CheckEvent::DialogClosed).0;
            let after_probe = if installed {
                s2
            } else if !consent {
                check_step(s3, CheckEvent::DialogClosed).0
            } else {
                s5
            };
            &&& after_probe == CheckState::Finished(may_start(installed, consent, installer is Ok))
            &&& !may_start(installed, consent, installer is Ok) ==> (if consent {
                s4
            } else {
                s3
            }) == CheckState::ShowingManual
        }),
{
}

} // verus!
