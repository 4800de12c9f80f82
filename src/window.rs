use vstd::prelude::*;

verus! {

/// Label under which the framework registers the application's main window.
pub const MAIN_WINDOW_LABEL: &'static str = "main";

/// What a handler asks the shell to do in answer to one event.
#[derive(Clone, Copy, Debug, PartialEq, Eq, Structural)]
pub enum ShellEffect {
    /// Leave everything as it is.
    Nothing,
    /// Hide the main window.
    HideWindow,
    /// Show the main window, then give it the input focus.
    RevealWindow,
    /// End the process with the given exit code.
    Exit { code: i32 },
}

/// The main window as the user sees it.
#[derive(Clone, Copy, Debug, PartialEq, Eq, Structural)]
pub struct WindowState {
    pub visible: bool,
    pub focused: bool,
}

/// The main window after an effect has been carried out on it.
pub open spec fn window_after(effect: ShellEffect, w: WindowState) -> WindowState {
    match effect {
        ShellEffect::HideWindow => WindowState { visible: false, focused: false },
        ShellEffect::RevealWindow => WindowState { visible: true, focused: true },
        _ => w,
    }
}

/// Answer to the UI's "hide" command: hide the main window when it exists.
pub open spec fn hide_command_effect(window_found: bool) -> ShellEffect {
    if window_found {
        ShellEffect::HideWindow
    } else {
        ShellEffect::Nothing
    }
}

/// Decides the answer to the UI's "hide" command, given whether the main
/// window was found.
pub fn hide_window(window_found: bool) -> (r: ShellEffect)
    ensures
        r == hide_command_effect(window_found),
{
    if window_found {
        ShellEffect::HideWindow
    } else {
        ShellEffect::Nothing
    }
}

/// The hide command leaves an existing main window hidden, and does nothing
/// when there is no main window.
pub proof fn hide_command_hides(window_found: bool, w: WindowState)
    ensures
        window_found ==> !window_after(hide_command_effect(window_found), w).visible,
        !window_found ==> hide_command_effect(window_found) == ShellEffect::Nothing,
{
}

} // verus!
