use vstd::prelude::*;

use crate::window::{window_after, ShellEffect, WindowState};

verus! {

/// A mouse button, as the tray icon reports it.
#[derive(Clone, Copy, Debug, PartialEq, Eq, Structural)]
pub enum MouseButton {
    Left,
    Right,
    Middle,
}

/// Whether a mouse button went down or came back up.
#[derive(Clone, Copy, Debug, PartialEq, Eq, Structural)]
pub enum MouseButtonState {
    Up,
    Down,
}

/// What the pointer did on the tray icon. Positions are left out: no
/// decision here depends on them.
#[derive(Clone, Copy, Debug, PartialEq, Eq, Structural)]
pub enum TrayEvent {
    Click { button: MouseButton, button_state: MouseButtonState },
    DoubleClick { button: MouseButton },
    Enter,
    Move,
    Leave,
}

/// The event that toggles the main window: the left button released on the icon.
pub open spec fn toggles_window(event: TrayEvent) -> bool {
    event == TrayEvent::Click { button: MouseButton::Left, button_state: MouseButtonState::Up }
}

/// Answer to a tray event. `window_found` tells whether the main window
/// exists; `visible` is the answer to asking it whether it is visible,
/// `None` when that question failed, which counts as hidden.
pub open spec fn tray_event_effect(
    event: TrayEvent,
    window_found: bool,
    visible: Option<bool>,
) -> ShellEffect {
    if !toggles_window(event) || !window_found {
        ShellEffect::Nothing
    } else if visible == Some(true) {
        ShellEffect::HideWindow
    } else {
        ShellEffect::RevealWindow
    }
}

/// Whether the event toggles the main window.
pub fn is_toggle_click(event: &TrayEvent) -> (r: bool)
    ensures
        r == toggles_window(*event),
{
    match event {
        TrayEvent::Click { button: MouseButton::Left, button_state: MouseButtonState::Up } => true,
        _ => false,
    }
}

/// Decides the answer to a tray event; see `tray_event_effect`.
pub fn tray_effect(event: &TrayEvent, window_found: bool, visible: Option<bool>) -> (r: ShellEffect)
    ensures
        r == tray_event_effect(*event, window_found, visible),
{
    if !is_toggle_click(event) || !window_found {
        return ShellEffect::Nothing;
    }
    match visible {
        Some(true) => ShellEffect::HideWindow,
        _ => ShellEffect::RevealWindow,
    }
}

/// A left click on the tray icon flips the main window's visibility, and a
/// window it brings up also holds the focus. The visibility handed to the
/// decision is the window's own.
pub proof fn left_click_toggles(w: WindowState)
    ensures
        ({
            let click = TrayEvent::Click {
                button: MouseButton::Left,
                button_state: MouseButtonState::Up,
            };
            let after = window_after(tray_event_effect(click, true, Some(w.visible)), w);
            &&& after.visible == !w.visible
            &&& after.visible ==> after.focused
        }),
{
}

} // verus!
