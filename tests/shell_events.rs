use mae_windows::menu::{menu_effect, tray_menu, MenuCommand};
use mae_windows::tray::{is_toggle_click, tray_effect, MouseButton, MouseButtonState, TrayEvent};
use mae_windows::window::{hide_window, ShellEffect, MAIN_WINDOW_LABEL};

fn left_release() -> TrayEvent {
    TrayEvent::Click { button: MouseButton::Left, button_state: MouseButtonState::Up }
}

#[test]
fn main_window_label_is_main() {
    assert_eq!(MAIN_WINDOW_LABEL, "main");
}

#[test]
fn hide_command_hides_present_window() {
    assert_eq!(hide_window(true), ShellEffect::HideWindow);
}

#[test]
fn hide_command_without_window_does_nothing() {
    assert_eq!(hide_window(false), ShellEffect::Nothing);
}

#[test]
fn menu_ids_and_labels() {
    assert_eq!(MenuCommand::Show.id(), "show");
    assert_eq!(MenuCommand::Quit.id(), "quit");
    assert_eq!(MenuCommand::Show.label(), "Mostrar Mãe");
    assert_eq!(MenuCommand::Quit.label(), "Sair");
}

#[test]
fn menu_lists_show_then_quit() {
    assert_eq!(tray_menu(), vec![MenuCommand::Show, MenuCommand::Quit]);
}

#[test]
fn from_id_finds_each_entry() {
    assert_eq!(MenuCommand::from_id("show"), Some(MenuCommand::Show));
    assert_eq!(MenuCommand::from_id("quit"), Some(MenuCommand::Quit));
    for c in tray_menu() {
        assert_eq!(MenuCommand::from_id(c.id()), Some(c));
    }
}

#[test]
fn from_id_rejects_other_text() {
    assert_eq!(MenuCommand::from_id(""), None);
    assert_eq!(MenuCommand::from_id("Show"), None);
    assert_eq!(MenuCommand::from_id("quit "), None);
    assert_eq!(MenuCommand::from_id("sho"), None);
    assert_eq!(MenuCommand::from_id("Sair"), None);
    assert_eq!(MenuCommand::from_id("shöw"), None);
}

#[test]
fn quit_entry_exits_with_code_zero() {
    assert_eq!(menu_effect("quit", true), ShellEffect::Exit { code: 0 });
    assert_eq!(menu_effect("quit", false), ShellEffect::Exit { code: 0 });
}

#[test]
fn show_entry_reveals_present_window() {
    assert_eq!(menu_effect("show", true), ShellEffect::RevealWindow);
    assert_eq!(menu_effect("show", false), ShellEffect::Nothing);
}

#[test]
fn unknown_menu_entry_does_nothing() {
    assert_eq!(menu_effect("settings", true), ShellEffect::Nothing);
    assert_eq!(menu_effect("", true), ShellEffect::Nothing);
}

#[test]
fn only_left_release_toggles() {
    assert!(is_toggle_click(&left_release()));
    assert!(!is_toggle_click(&TrayEvent::Click {
        button: MouseButton::Left,
        button_state: MouseButtonState::Down,
    }));
    assert!(!is_toggle_click(&TrayEvent::Click {
        button: MouseButton::Right,
        button_state: MouseButtonState::Up,
    }));
    assert!(!is_toggle_click(&TrayEvent::Click {
        button: MouseButton::Middle,
        button_state: MouseButtonState::Up,
    }));
    assert!(!is_toggle_click(&TrayEvent::DoubleClick { button: MouseButton::Left }));
    assert!(!is_toggle_click(&TrayEvent::Enter));
    assert!(!is_toggle_click(&TrayEvent::Move));
    assert!(!is_toggle_click(&TrayEvent::Leave));
}

#[test]
fn left_click_hides_visible_window() {
    assert_eq!(tray_effect(&left_release(), true, Some(true)), ShellEffect::HideWindow);
}

#[test]
fn left_click_reveals_hidden_window() {
    assert_eq!(tray_effect(&left_release(), true, Some(false)), ShellEffect::RevealWindow);
}

#[test]
fn left_click_with_unknown_visibility_reveals() {
    assert_eq!(tray_effect(&left_release(), true, None), ShellEffect::RevealWindow);
}

#[test]
fn left_click_without_window_does_nothing() {
    assert_eq!(tray_effect(&left_release(), false, Some(true)), ShellEffect::Nothing);
    assert_eq!(tray_effect(&left_release(), false, None), ShellEffect::Nothing);
}

#[test]
fn other_tray_events_do_nothing() {
    let events = vec![
        TrayEvent::Click { button: MouseButton::Right, button_state: MouseButtonState::Up },
        TrayEvent::Click { button: MouseButton::Left, button_state: MouseButtonState::Down },
        TrayEvent::DoubleClick { button: MouseButton::Left },
        TrayEvent::Enter,
        TrayEvent::Move,
        TrayEvent::Leave,
    ];
    for e in events {
        assert_eq!(tray_effect(&e, true, Some(true)), ShellEffect::Nothing);
        assert_eq!(tray_effect(&e, true, Some(false)), ShellEffect::Nothing);
    }
}
