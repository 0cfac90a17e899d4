//! What the system commands decide: how a program is started, how the
//! answers of the operating system are read, and what is reported back to
//! the front end.

use vstd::prelude::*;
use vstd::string::StringExecFns;
use crate::mxu_actions::{launch_plan_for, plan_launch, LaunchPlan};
use crate::text::{decimal, join, push_decimal, result_view, same_text};

verus! {

/// Command-line argument that marks a start at login.
pub const AUTOSTART_ARG: &'static str = "--autostart";

/// Exit code assumed for a process that ended without one.
pub const NO_EXIT_CODE: i32 = -1;

/// Reported where restarting with elevated rights is asked for on a system
/// that has no such thing.
pub const ELEVATION_UNAVAILABLE: &'static str = "此功能仅在 Windows 上可用";

/// Reported where waiting for a program is asked for on a system on which
/// the shell does not do that.
pub const RUN_AND_WAIT_UNAVAILABLE: &'static str = "run_and_wait is only supported on Windows";

/// Reported where the engine is asked for something before it was loaded.
pub const ENGINE_NOT_INITIALIZED: &'static str = "MaaFramework not initialized";

/// Reported where the engine refuses to change the save-draw option.
pub const SAVE_DRAW_FAILED: &'static str = "设置保存调试图像失败";

/// Reported where a window handle is set for an instance that is not there.
pub const INSTANCE_NOT_FOUND: &'static str = "Instance not found";

/// Reported where the position of a window is asked for on a system on
/// which the shell cannot tell it.
pub const WINDOW_RECT_UNAVAILABLE: &'static str = "Not supported on this platform";

/// The exit code of a process, or -1 for a process that ended without one.
pub fn exit_code_or_default(code: Option<i32>) -> (exit_code: i32)
    ensures
        exit_code == match code {
            Some(c) => c,
            None => NO_EXIT_CODE,
        },
{
    match code {
        Some(c) => c,
        None => NO_EXIT_CODE,
    }
}

/// What the operating system says about the rights of the process.
#[derive(Clone, Copy, Debug, PartialEq, Eq, Structural)]
pub enum Privilege {
    /// The elevation field of the process token; `queried` tells whether
    /// the token could be opened and read at all.
    Token { queried: bool, elevated: u32 },
    /// The effective user of the process.
    User { effective: u32 },
}

/// Whether the process runs with administrator rights: its token says so,
/// or its effective user is the superuser.
pub fn is_elevated(privilege: Privilege) -> (elevated: bool)
    ensures
        elevated == (match privilege {
            Privilege::Token { queried, elevated } => queried && elevated != 0,
            Privilege::User { effective } => effective == 0,
        }),
{
    match privilege {
        Privilege::Token { queried, elevated } => queried && elevated != 0,
        Privilege::User { effective } => effective == 0,
    }
}

/// Whether any of the command-line arguments marks a start at login.
pub fn is_autostart(args: &Vec<String>) -> (autostart: bool)
    ensures
        autostart == exists|i: int| 0 <= i < args.len() && (#[trigger] args[i])@ == AUTOSTART_ARG@,
{
    let mut i: usize = 0;
    while i < args.len()
        invariant
            i <= args.len(),
            forall|k: int| 0 <= k < i ==> (#[trigger] args[k])@ != AUTOSTART_ARG@,
        decreases args.len() - i,
    {
        if same_text(args[i].as_str(), AUTOSTART_ARG) {
            return true;
        }
        i += 1;
    }
    false
}

/// Reads what the shell's "execute" call gives back when the program is
/// started anew with elevated rights: values above 32 mean that it started.
pub fn restart_as_admin(code: usize) -> (report: Result<(), String>)
    ensures
        result_view(report) == (if code > 32 {
            Ok::<(), Seq<char>>(())
        } else {
            Err("以管理员身份启动失败: 错误码 "@ + decimal(code as nat))
        }),
{
    if code > 32 {
        Ok(())
    } else {
        let mut message = "以管理员身份启动失败: 错误码 ".to_owned();
        push_decimal(&mut message, code as u64);
        Err(message)
    }
}

/// How an attempt to change the save-draw option went.
#[derive(Debug)]
pub enum SaveDraw {
    /// The engine could not be locked; the text says why.
    LockFailed(String),
    /// The engine is not loaded.
    NotInitialized,
    /// The engine was asked and answered with this value.
    Answered(u8),
}

/// The report for each way a change of the save-draw option can go.
pub open spec fn save_draw_report(outcome: SaveDraw) -> Result<bool, Seq<char>> {
    match outcome {
        SaveDraw::LockFailed(why) => Err("Failed to lock library: "@ + why@),
        SaveDraw::NotInitialized => Err(ENGINE_NOT_INITIALIZED@),
        SaveDraw::Answered(answer) => if answer != 0 {
            Ok(true)
        } else {
            Err(SAVE_DRAW_FAILED@)
        },
    }
}

/// Reports how a change of the save-draw option went: the engine accepts
/// with any answer but zero.
pub fn maa_set_save_draw(outcome: &SaveDraw) -> (report: Result<bool, String>)
    ensures
        result_view(report) == save_draw_report(*outcome),
{
    match outcome {
        SaveDraw::LockFailed(why) => Err(join("Failed to lock library: ", why.as_str())),
        SaveDraw::NotInitialized => Err(ENGINE_NOT_INITIALIZED.to_owned()),
        SaveDraw::Answered(answer) => if *answer != 0 {
            Ok(true)
        } else {
            Err(SAVE_DRAW_FAILED.to_owned())
        },
    }
}

/// The kinds of operating system that the shell opens files on.
#[derive(Clone, Copy, Debug, PartialEq, Eq, Structural)]
pub enum Platform {
    Windows,
    MacOs,
    Linux,
}

/// A program and its arguments.
#[derive(Debug)]
pub struct CommandLine {
    pub program: String,
    pub args: Vec<String>,
}

/// What a [`CommandLine`] says.
pub struct CommandLineView {
    pub program: Seq<char>,
    pub args: Seq<Seq<char>>,
}

impl View for CommandLine {
    type V = CommandLineView;

    open spec fn view(&self) -> CommandLineView {
        CommandLineView { program: self.program@, args: self.args.deep_view() }
    }
}

/// The command that opens a file with the program the system has for it.
pub open spec fn open_command_for(platform: Platform, file_path: Seq<char>) -> CommandLineView {
    match platform {
        Platform::Windows => CommandLineView {
            program: "cmd"@,
            args: seq!["/c"@, "start"@, ""@, file_path],
        },
        Platform::MacOs => CommandLineView { program: "open"@, args: seq![file_path] },
        Platform::Linux => CommandLineView { program: "xdg-open"@, args: seq![file_path] },
    }
}

/// Builds the command that opens `file_path` with the system's default
/// program.
pub fn open_file(platform: Platform, file_path: &str) -> (command: CommandLine)
    ensures
        command@ == open_command_for(platform, file_path@),
{
    let mut args: Vec<String> = Vec::new();
    let program = match platform {
        Platform::Windows => {
            args.push("/c".to_owned());
            args.push("start".to_owned());
            args.push("".to_owned());
            "cmd"
        },
        Platform::MacOs => "open",
        Platform::Linux => "xdg-open",
    };
    args.push(file_path.to_owned());
    let command = CommandLine { program: program.to_owned(), args };
    assert(command@.args == open_command_for(platform, file_path@).args);
    command
}

/// The message for a file that could not be opened.
pub fn open_file_failure(why: &str) -> (message: String)
    ensures
        message@ == "Failed to open file: "@ + why@,
{
    join("Failed to open file: ", why)
}

/// How the start of a program went.
#[derive(Debug)]
pub enum Started {
    /// It ran and has ended, with this exit code if it has one.
    Exited(Option<i32>),
    /// It was started and is not waited for.
    Spawned,
    /// It could not be started; the text says why.
    Failed(String),
}

/// What is reported for a program that was run and waited for.
pub open spec fn run_and_wait_report(started: Started) -> Result<i32, Seq<char>> {
    match started {
        Started::Exited(Some(code)) => Ok(code),
        Started::Exited(None) => Ok(-1i32),
        Started::Spawned => Ok(0i32),
        Started::Failed(why) => Err("Failed to run file: "@ + why@),
    }
}

/// Reports how running a program and waiting for it went: its exit code,
/// or -1 where it ended without one.
pub fn run_and_wait(started: &Started) -> (report: Result<i32, String>)
    ensures
        result_view(report) == run_and_wait_report(*started),
{
    match started {
        Started::Exited(code) => Ok(exit_code_or_default(*code)),
        Started::Spawned => Ok(0),
        Started::Failed(why) => Err(join("Failed to run file: ", why.as_str())),
    }
}

/// Builds the plan for running `program`: `args` is cut into words at
/// whitespace, without regard to quotes; without `cwd` the program runs in
/// its own directory, where that exists.
pub fn run_action(program: &str, args: &str, cwd: Option<String>, wait_for_exit: bool) -> (plan:
    LaunchPlan)
    ensures
        plan@ == launch_plan_for(
            program@,
            args@,
            match cwd {
                Some(dir) => Some(dir@),
                None => None,
            },
            wait_for_exit,
        ),
{
    plan_launch(program, args, cwd, wait_for_exit)
}

/// What is reported for an action: the exit code of a program that was
/// waited for (-1 where it has none), 0 for one that was only started, and
/// the failure to start it otherwise.
pub open spec fn run_action_report(
    program: Seq<char>,
    wait_for_exit: bool,
    started: Started,
) -> Result<i32, Seq<char>> {
    match started {
        Started::Exited(Some(code)) => Ok(code),
        Started::Exited(None) => Ok(-1i32),
        Started::Spawned => Ok(0i32),
        Started::Failed(why) => if wait_for_exit {
            Err("Failed to run action: "@ + program + " - "@ + why@)
        } else {
            Err("Failed to spawn action: "@ + program + " - "@ + why@)
        },
    }
}

/// Reports how an action went.
pub fn run_action_result(program: &str, wait_for_exit: bool, started: &Started) -> (report: Result<
    i32,
    String,
>)
    ensures
        result_view(report) == run_action_report(program@, wait_for_exit, *started),
{
    match started {
        Started::Exited(code) => Ok(exit_code_or_default(*code)),
        Started::Spawned => Ok(0),
        Started::Failed(why) => {
            let mut message = if wait_for_exit {
                join("Failed to run action: ", program)
            } else {
                join("Failed to spawn action: ", program)
            };
            message.append(" - ");
            message.append(why.as_str());
            Err(message)
        },
    }
}

/// What the front end is told about the system.
#[derive(Clone, Debug)]
pub struct SystemInfo {
    /// Name of the operating system, as Rust names it.
    pub os: String,
    /// Kind and version of the operating system.
    pub os_version: String,
    /// CPU architecture, as Rust names it.
    pub arch: String,
    /// Version of the window framework.
    pub tauri_version: String,
}

/// Puts the system information together; kind and version of the operating
/// system are shown as one text, with a space between them.
pub fn get_system_info(os: &str, os_type: &str, version: &str, arch: &str, tauri_version: &str) -> (info:
    SystemInfo)
    ensures
        info.os@ == os@,
        info.os_version@ == os_type@ + " "@ + version@,
        info.arch@ == arch@,
        info.tauri_version@ == tauri_version@,
{
    let mut os_version = join(os_type, " ");
    os_version.append(version);
    SystemInfo {
        os: os.to_owned(),
        os_version,
        arch: arch.to_owned(),
        tauri_version: tauri_version.to_owned(),
    }
}

/// A window handle as the front end sees it: the same 64 bits, read as a
/// signed number.
pub open spec fn handle_as_signed(handle: u64) -> int {
    if handle <= i64::MAX {
        handle as int
    } else {
        handle - 0x1_0000_0000_0000_0000
    }
}

/// A window handle as the shell stores it: the same 64 bits, read as an
/// unsigned number.
pub open spec fn handle_as_unsigned(handle: i64) -> int {
    if handle >= 0 {
        handle as int
    } else {
        handle + 0x1_0000_0000_0000_0000
    }
}

/// Reading a stored handle as signed and then as unsigned gives it back.
pub proof fn lemma_handle_round_trip(handle: u64)
    ensures
        i64::MIN <= handle_as_signed(handle) <= i64::MAX,
        handle_as_unsigned(handle_as_signed(handle) as i64) == handle,
{
}

/// The bits of a stored handle as a signed number.
fn to_signed(handle: u64) -> (signed: i64)
    ensures
        signed == handle_as_signed(handle),
{
    if handle <= 0x7fff_ffff_ffff_ffff {
        handle as i64
    } else {
        (handle - 0x8000_0000_0000_0000) as i64 + i64::MIN
    }
}

/// The bits of a handle from the front end as an unsigned number.
fn to_unsigned(handle: i64) -> (unsigned: u64)
    ensures
        unsigned == handle_as_unsigned(handle),
{
    if handle >= 0 {
        handle as u64
    } else {
        (handle - i64::MIN) as u64 + 0x8000_0000_0000_0000
    }
}

/// The window handle that an instance is connected to, for the front end.
/// `instance` is `None` where there is no such instance, else the handle
/// the instance holds, if any.
pub fn get_connected_window_handle(instance: Option<Option<u64>>) -> (handle: Option<i64>)
    ensures
        handle == (match instance {
            Some(Some(h)) => Some(handle_as_signed(h) as i64),
            _ => None,
        }),
{
    match instance {
        Some(Some(h)) => Some(to_signed(h)),
        _ => None,
    }
}

/// The window handle to store for an instance when the front end sets
/// `handle`; an error where there is no such instance.
pub fn set_connected_window_handle(instance_found: bool, handle: Option<i64>) -> (stored: Result<
    Option<u64>,
    String,
>)
    ensures
        result_view(stored) == (if instance_found {
            Ok::<Option<u64>, Seq<char>>(
                match handle {
                    Some(h) => Some(handle_as_unsigned(h) as u64),
                    None => None,
                },
            )
        } else {
            Err(INSTANCE_NOT_FOUND@)
        }),
{
    if instance_found {
        Ok(
            match handle {
                Some(h) => Some(to_unsigned(h)),
                None => None,
            },
        )
    } else {
        Err(INSTANCE_NOT_FOUND.to_owned())
    }
}

/// Position and size of a window from the corners of its rectangle.
pub fn get_window_rect_by_handle(left: i32, top: i32, right: i32, bottom: i32) -> (rect: (
    i32,
    i32,
    i32,
    i32,
))
    requires
        i32::MIN <= right - left <= i32::MAX,
        i32::MIN <= bottom - top <= i32::MAX,
    ensures
        rect.0 == left,
        rect.1 == top,
        rect.2 == right - left,
        rect.3 == bottom - top,
{
    (left, top, right - left, bottom - top)
}

/// Position and size of a window from the corners of its rectangle, or
/// `None` where width or height does not fit the number type.
pub fn window_rect(left: i32, top: i32, right: i32, bottom: i32) -> (rect: Option<
    (i32, i32, i32, i32),
>)
    ensures
        rect == (if i32::MIN <= right - left <= i32::MAX && i32::MIN <= bottom - top <= i32::MAX {
            Some((left, top, (right - left) as i32, (bottom - top) as i32))
        } else {
            None
        }),
{
    let width = right as i64 - left as i64;
    let height = bottom as i64 - top as i64;
    if width < -2147483648 || width > 2147483647 || height < -2147483648 || height > 2147483647 {
        None
    } else {
        Some(get_window_rect_by_handle(left, top, right, bottom))
    }
}

} // verus!
