//! A terminal-session bridge: a child process on a pseudo-terminal, its
//! output fed to a terminal emulator, and a bounded trace of recent keys.
//!
//! This crate holds the verified core: the key model and its rendering, the
//! width-bounded key history, the geometry rules for resizing, the terminal
//! state adapter and the decisions of the two forwarding pumps.

pub mod key;
pub mod history;
pub mod geometry;
pub mod terminal;
pub mod session;
