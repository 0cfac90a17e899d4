//! Verified decision logic of the MXU desktop shell.
//!
//! The shell itself (windows, tray icon, child processes, downloads) lives
//! outside this crate. What is collected here is everything the shell
//! decides: how custom-action parameters are read, which command line a
//! request turns into, what the tray does when the window closes, and how
//! the webview runtime bootstrap proceeds from one step to the next.

pub mod json;
pub mod mxu_actions;
pub mod system;
pub mod text;
pub mod tray;
pub mod webview2;
pub mod webview2_check;
pub mod window_events;
