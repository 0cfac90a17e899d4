//! Making sure a webview runtime is there before the interface loads.
//!
//! The system's runtime is preferred. Where it is missing or disabled, a
//! fixed-version runtime is unpacked beside the program, from a cabinet file
//! that the user has put there or that is downloaded.

pub mod extract;
pub mod install;
pub mod local_cab;

pub use install::ensure_webview2;
