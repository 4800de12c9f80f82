//! Event handling for a desktop shell's main window and tray icon.
//!
//! The framework reports tray clicks, menu clicks and UI commands; the
//! functions here decide, from plain values, what the shell does in answer.
//! Performing that answer on the real window is left to the caller.

pub mod menu;
mod text;
pub mod tray;
pub mod window;
