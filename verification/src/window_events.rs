//! What happens when a window is about to close or has gone.

use vstd::prelude::*;
use crate::text::same_text;
use crate::tray::{handle_close_requested, TraySettings, MAIN_WINDOW};

verus! {

/// Label of the window that floats the log above the target.
pub const LOG_OVERLAY: &'static str = "log-overlay";

/// Title of the log overlay.
pub const LOG_OVERLAY_TITLE: &'static str = "日志悬浮窗";

/// Page that the log overlay shows.
pub const LOG_OVERLAY_PAGE: &'static str = "log-overlay.html";

/// Event that tells the front end that the log overlay was closed.
pub const EVENT_OVERLAY_CLOSED: &'static str = "log-overlay-closed";

/// Width reported for an overlay whose size is not known.
pub const DEFAULT_OVERLAY_WIDTH: u32 = 360;

/// Height reported for an overlay whose size is not known.
pub const DEFAULT_OVERLAY_HEIGHT: u32 = 260;

/// Horizontal and vertical position reported for an overlay whose position
/// is not known.
pub const DEFAULT_OVERLAY_OFFSET: i32 = 100;

/// Size and position of the log overlay, as the front end is told.
#[derive(Clone, Copy, Debug, PartialEq, Eq, Structural)]
pub struct OverlayGeometry {
    pub width: u32,
    pub height: u32,
    pub x: i32,
    pub y: i32,
}

/// The geometry to report for an overlay with this inner size and outer
/// position, as far as they are known; defaults stand in for the rest.
pub fn overlay_geometry(size: Option<(u32, u32)>, position: Option<(i32, i32)>) -> (geometry:
    OverlayGeometry)
    ensures
        geometry.width == (match size {
            Some(s) => s.0,
            None => DEFAULT_OVERLAY_WIDTH,
        }),
        geometry.height == (match size {
            Some(s) => s.1,
            None => DEFAULT_OVERLAY_HEIGHT,
        }),
        geometry.x == (match position {
            Some(p) => p.0,
            None => DEFAULT_OVERLAY_OFFSET,
        }),
        geometry.y == (match position {
            Some(p) => p.1,
            None => DEFAULT_OVERLAY_OFFSET,
        }),
{
    let (width, height) = match size {
        Some(s) => s,
        None => (DEFAULT_OVERLAY_WIDTH, DEFAULT_OVERLAY_HEIGHT),
    };
    let (x, y) = match position {
        Some(p) => p,
        None => (DEFAULT_OVERLAY_OFFSET, DEFAULT_OVERLAY_OFFSET),
    };
    OverlayGeometry { width, height, x, y }
}

/// The window events that the shell acts on.
#[derive(Clone, Copy, Debug, PartialEq, Eq, Structural)]
pub enum WindowEvent {
    /// The user asks to close the window.
    CloseRequested,
    /// The window is gone.
    Destroyed,
    /// Anything else.
    Other,
}

/// What the shell does in answer to a window event.
#[derive(Clone, Copy, Debug, PartialEq, Eq, Structural)]
pub struct WindowPlan {
    /// Tell the front end that the overlay was closed, with its geometry.
    pub report_overlay_closed: bool,
    /// Destroy the log overlay.
    pub destroy_overlay: bool,
    /// Hide the main window and keep the window from closing.
    pub hide_to_tray: bool,
    /// End the agent processes that are still running.
    pub cleanup_agents: bool,
}

/// The plan for an event on the window with this label.
pub open spec fn window_plan_for(minimize_to_tray: bool, label: Seq<char>, event: WindowEvent) -> WindowPlan {
    match event {
        WindowEvent::CloseRequested => WindowPlan {
            report_overlay_closed: label == LOG_OVERLAY@,
            destroy_overlay: label == MAIN_WINDOW@,
            hide_to_tray: minimize_to_tray,
            cleanup_agents: false,
        },
        WindowEvent::Destroyed => WindowPlan {
            report_overlay_closed: false,
            destroy_overlay: label == MAIN_WINDOW@,
            hide_to_tray: false,
            cleanup_agents: true,
        },
        WindowEvent::Other => WindowPlan {
            report_overlay_closed: false,
            destroy_overlay: false,
            hide_to_tray: false,
            cleanup_agents: false,
        },
    }
}

/// Decides what to do about an event on the window with this label.
///
/// A request to close the overlay is reported to the front end. The overlay
/// goes whenever the main window closes or is gone. Whether a close is
/// turned into hiding to the tray is for the tray's settings to say, for
/// any window. When a window is gone, the agents are cleaned up.
pub fn on_window_event(settings: &TraySettings, label: &str, event: WindowEvent) -> (plan:
    WindowPlan)
    ensures
        plan == window_plan_for(settings.minimize_to_tray, label@, event),
{
    match event {
        WindowEvent::CloseRequested => WindowPlan {
            report_overlay_closed: same_text(label, LOG_OVERLAY),
            destroy_overlay: same_text(label, MAIN_WINDOW),
            hide_to_tray: handle_close_requested(settings),
            cleanup_agents: false,
        },
        WindowEvent::Destroyed => WindowPlan {
            report_overlay_closed: false,
            destroy_overlay: same_text(label, MAIN_WINDOW),
            hide_to_tray: false,
            cleanup_agents: true,
        },
        WindowEvent::Other => WindowPlan {
            report_overlay_closed: false,
            destroy_overlay: false,
            hide_to_tray: false,
            cleanup_agents: false,
        },
    }
}

} // verus!
