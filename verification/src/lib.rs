//! The native shell of a desktop application, as far as it decides anything:
//! where the "Settings" entry goes in the application menu, and what to ask of
//! the host's window registry to show the settings window, creating it on
//! first use.
//!
//! The host toolkit (window manager, menu rendering, event loop) is not part
//! of this library. The menu is a value that the caller hands in and gets
//! back; the window registry is reached through requests that the caller
//! performs and answers.

pub mod menu;
pub mod window;
pub mod controller;
pub mod host;
