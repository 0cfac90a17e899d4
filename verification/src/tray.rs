//! What the system tray decides: whether closing the window hides it
//! instead, what a menu entry or a click on the icon does, and how the
//! outcome of an update to the icon is reported.

use vstd::prelude::*;
use crate::text::{contains, join, occurs_in, result_view, same_text};

verus! {

/// Label of the application's main window.
pub const MAIN_WINDOW: &'static str = "main";

/// Tooltip that the tray icon starts with.
pub const TRAY_TOOLTIP: &'static str = "MXU";

/// Event sent to the front end when "start" is chosen in the tray menu.
pub const EVENT_START_TASKS: &'static str = "tray-start-tasks";

/// Event sent to the front end when "stop" is chosen in the tray menu.
pub const EVENT_STOP_TASKS: &'static str = "tray-stop-tasks";

/// Reported when the tray icon is used before it was set up.
pub const TRAY_NOT_INITIALIZED: &'static str = "Tray icon not initialized";

/// Reported for an icon path that climbs out of its directory.
pub const ICON_PATH_TRAVERSAL: &'static str = "Invalid icon path: path traversal not allowed";

/// Reported for an icon that resolves to a place outside the application.
pub const ICON_PATH_OUTSIDE: &'static str =
    "Invalid icon path: must be within application directory";

/// The tray's settings.
#[derive(Clone, Copy, Debug, PartialEq, Eq, Structural)]
pub struct TraySettings {
    /// Whether closing the main window hides it to the tray.
    pub minimize_to_tray: bool,
}

impl TraySettings {
    /// The settings at start: closing the window closes it.
    pub fn new() -> (settings: TraySettings)
        ensures
            !settings.minimize_to_tray,
    {
        TraySettings { minimize_to_tray: false }
    }
}

/// Turns hiding to the tray on close on or off.
pub fn set_minimize_to_tray(settings: &mut TraySettings, enabled: bool)
    ensures
        final(settings).minimize_to_tray == enabled,
{
    settings.minimize_to_tray = enabled;
}

/// Whether closing the main window hides it to the tray.
pub fn get_minimize_to_tray(settings: &TraySettings) -> (enabled: bool)
    ensures
        enabled == settings.minimize_to_tray,
{
    settings.minimize_to_tray
}

/// Answers a request to close a window. `true` means that the close is to be
/// prevented and the main window hidden instead; `false` lets it close.
pub fn handle_close_requested(settings: &TraySettings) -> (prevent_close: bool)
    ensures
        prevent_close == settings.minimize_to_tray,
{
    get_minimize_to_tray(settings)
}

/// One entry of the tray menu.
#[derive(Clone, Copy, Debug)]
pub struct TrayMenuItem {
    /// Identifier that menu events carry.
    pub id: &'static str,
    /// Text shown to the user.
    pub label: &'static str,
}

/// The tray menu, top to bottom.
pub fn tray_menu() -> (items: Vec<TrayMenuItem>)
    ensures
        items.len() == 4,
        items[0].id@ == "show"@ && items[0].label@ == "显示主窗口"@,
        items[1].id@ == "start"@ && items[1].label@ == "开始任务"@,
        items[2].id@ == "stop"@ && items[2].label@ == "停止任务"@,
        items[3].id@ == "quit"@ && items[3].label@ == "退出"@,
{
    let mut items: Vec<TrayMenuItem> = Vec::new();
    items.push(TrayMenuItem { id: "show", label: "显示主窗口" });
    items.push(TrayMenuItem { id: "start", label: "开始任务" });
    items.push(TrayMenuItem { id: "stop", label: "停止任务" });
    items.push(TrayMenuItem { id: "quit", label: "退出" });
    items
}

/// What choosing a tray menu entry leads to.
#[derive(Clone, Copy, Debug, PartialEq, Eq, Structural)]
pub enum TrayMenuAction {
    /// Show, restore and focus the main window.
    ShowMainWindow,
    /// Tell the front end to start the tasks.
    StartTasks,
    /// Tell the front end to stop the tasks.
    StopTasks,
    /// Leave the application with exit code 0.
    Quit,
    /// Nothing: the identifier is not one of the menu's.
    Ignore,
}

/// The action that belongs to a menu identifier.
pub open spec fn menu_action_for(id: Seq<char>) -> TrayMenuAction {
    if id == "show"@ {
        TrayMenuAction::ShowMainWindow
    } else if id == "start"@ {
        TrayMenuAction::StartTasks
    } else if id == "stop"@ {
        TrayMenuAction::StopTasks
    } else if id == "quit"@ {
        TrayMenuAction::Quit
    } else {
        TrayMenuAction::Ignore
    }
}

/// Decides what a menu event with identifier `id` does.
pub fn tray_menu_action(id: &str) -> (action: TrayMenuAction)
    ensures
        action == menu_action_for(id@),
{
    if same_text(id, "show") {
        TrayMenuAction::ShowMainWindow
    } else if same_text(id, "start") {
        TrayMenuAction::StartTasks
    } else if same_text(id, "stop") {
        TrayMenuAction::StopTasks
    } else if same_text(id, "quit") {
        TrayMenuAction::Quit
    } else {
        TrayMenuAction::Ignore
    }
}

impl TrayMenuAction {
    /// The event that the action sends to the main window, if it sends one.
    pub fn event(self) -> (name: Option<&'static str>)
        ensures
            self == TrayMenuAction::StartTasks ==> name == Some(EVENT_START_TASKS),
            self == TrayMenuAction::StopTasks ==> name == Some(EVENT_STOP_TASKS),
            self != TrayMenuAction::StartTasks && self != TrayMenuAction::StopTasks
                ==> name.is_none(),
    {
        match self {
            TrayMenuAction::StartTasks => Some(EVENT_START_TASKS),
            TrayMenuAction::StopTasks => Some(EVENT_STOP_TASKS),
            _ => None,
        }
    }
}

/// A mouse button.
#[derive(Clone, Copy, Debug, PartialEq, Eq, Structural)]
pub enum MouseButton {
    Left,
    Right,
    Middle,
}

/// Whether a button went down or came up.
#[derive(Clone, Copy, Debug, PartialEq, Eq, Structural)]
pub enum MouseButtonState {
    Up,
    Down,
}

/// Whether a click on the tray icon brings the main window up: it does when
/// the left button is released.
pub fn tray_click_shows_window(button: MouseButton, button_state: MouseButtonState) -> (show: bool)
    ensures
        show == (button == MouseButton::Left && button_state == MouseButtonState::Up),
{
    match (button, button_state) {
        (MouseButton::Left, MouseButtonState::Up) => true,
        _ => false,
    }
}

/// How an attempt to change the tray's tooltip went.
#[derive(Clone, Debug)]
pub enum TooltipUpdate {
    /// The tray could not be locked; the text says why.
    LockFailed(String),
    /// No tray icon has been set up.
    NotInitialized,
    /// The tray refused the tooltip; the text says why.
    Failed(String),
    /// The tooltip is in place.
    Done,
}

/// The report for each way a tooltip update can go.
pub open spec fn tooltip_report(update: TooltipUpdate) -> Result<(), Seq<char>> {
    match update {
        TooltipUpdate::LockFailed(why) => Err("Failed to lock tray mutex: "@ + why@),
        TooltipUpdate::NotInitialized => Err(TRAY_NOT_INITIALIZED@),
        TooltipUpdate::Failed(why) => Err("Failed to set tray tooltip: "@ + why@),
        TooltipUpdate::Done => Ok(()),
    }
}

/// Reports how an update of the tray's tooltip went: `Ok` when it is in
/// place, else the message for what stood in the way.
pub fn update_tray_tooltip(update: &TooltipUpdate) -> (report: Result<(), String>)
    ensures
        result_view(report) == tooltip_report(*update),
{
    match update {
        TooltipUpdate::LockFailed(why) => Err(join("Failed to lock tray mutex: ", why.as_str())),
        TooltipUpdate::NotInitialized => Err(TRAY_NOT_INITIALIZED.to_owned()),
        TooltipUpdate::Failed(why) => Err(join("Failed to set tray tooltip: ", why.as_str())),
        TooltipUpdate::Done => Ok(()),
    }
}

/// An icon path is refused when `..` occurs anywhere in it.
pub open spec fn climbs_out(icon_path: Seq<char>) -> bool {
    occurs_in(icon_path, ".."@)
}

/// Checks an icon path before anything is read: a path that holds `..` is
/// refused.
pub fn check_icon_path(icon_path: &str) -> (checked: Result<(), String>)
    ensures
        result_view(checked) == (if climbs_out(icon_path@) {
            Err::<(), Seq<char>>(ICON_PATH_TRAVERSAL@)
        } else {
            Ok(())
        }),
{
    if contains(icon_path, "..") {
        Err(ICON_PATH_TRAVERSAL.to_owned())
    } else {
        Ok(())
    }
}

/// How an attempt to change the tray's icon went, once the path had passed
/// [`check_icon_path`].
#[derive(Clone, Debug)]
pub enum IconUpdate {
    /// The path of the running program is not known; the text says why.
    NoProgramPath(String),
    /// The running program has no directory.
    NoProgramDirectory,
    /// The icon's path could not be resolved; the text says why.
    IconUnresolved(String),
    /// The program's directory could not be resolved; the text says why.
    DirectoryUnresolved(String),
    /// The icon lies outside the program's directory.
    OutsideApplication,
    /// The icon file could not be read.
    Unreadable { path: String, why: String },
    /// The file is no image; the text says why.
    NotAnImage(String),
    /// The tray could not be locked; the text says why.
    LockFailed(String),
    /// No tray icon has been set up.
    NotInitialized,
    /// The tray refused the icon; the text says why.
    Failed(String),
    /// The icon is in place.
    Done,
}

/// The report for each way an icon update can go.
pub open spec fn icon_report(update: IconUpdate) -> Result<(), Seq<char>> {
    match update {
        IconUpdate::NoProgramPath(why) => Err("Failed to get exe path: "@ + why@),
        IconUpdate::NoProgramDirectory => Err("Failed to get exe directory"@),
        IconUpdate::IconUnresolved(why) => Err("Failed to resolve icon path: "@ + why@),
        IconUpdate::DirectoryUnresolved(why) => Err("Failed to resolve exe directory: "@ + why@),
        IconUpdate::OutsideApplication => Err(ICON_PATH_OUTSIDE@),
        IconUpdate::Unreadable { path, why } => Err(
            "Failed to read icon file "@ + path@ + ": "@ + why@,
        ),
        IconUpdate::NotAnImage(why) => Err("Failed to parse icon: "@ + why@),
        IconUpdate::LockFailed(why) => Err("Failed to lock tray mutex: "@ + why@),
        IconUpdate::NotInitialized => Err(TRAY_NOT_INITIALIZED@),
        IconUpdate::Failed(why) => Err("Failed to set tray icon: "@ + why@),
        IconUpdate::Done => Ok(()),
    }
}

/// Reports how an update of the tray's icon went. A path that climbs out of
/// its directory is refused whatever else happened; otherwise the report is
/// `Ok` when the icon is in place, else the message for what stood in the way.
pub fn update_tray_icon(icon_path: &str, update: &IconUpdate) -> (report: Result<(), String>)
    ensures
        result_view(report) == (if climbs_out(icon_path@) {
            Err::<(), Seq<char>>(ICON_PATH_TRAVERSAL@)
        } else {
            icon_report(*update)
        }),
{
    match check_icon_path(icon_path) {
        Err(message) => Err(message),
        Ok(()) => match update {
            IconUpdate::NoProgramPath(why) => Err(join("Failed to get exe path: ", why.as_str())),
            IconUpdate::NoProgramDirectory => Err("Failed to get exe directory".to_owned()),
            IconUpdate::IconUnresolved(why) => Err(
                join("Failed to resolve icon path: ", why.as_str()),
            ),
            IconUpdate::DirectoryUnresolved(why) => Err(
                join("Failed to resolve exe directory: ", why.as_str()),
            ),
            IconUpdate::OutsideApplication => Err(ICON_PATH_OUTSIDE.to_owned()),
            IconUpdate::Unreadable { path, why } => {
                let mut message = join("Failed to read icon file ", path.as_str());
                message.append(": ");
                message.append(why.as_str());
                Err(message)
            },
            IconUpdate::NotAnImage(why) => Err(join("Failed to parse icon: ", why.as_str())),
            IconUpdate::LockFailed(why) => Err(join("Failed to lock tray mutex: ", why.as_str())),
            IconUpdate::NotInitialized => Err(TRAY_NOT_INITIALIZED.to_owned()),
            IconUpdate::Failed(why) => Err(join("Failed to set tray icon: ", why.as_str())),
            IconUpdate::Done => Ok(()),
        },
    }
}

} // verus!
