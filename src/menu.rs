use vstd::prelude::*;

use crate::text::same_text;
use crate::window::{window_after, ShellEffect, WindowState};

verus! {

/// An entry of the tray icon's context menu.
#[derive(Clone, Copy, Debug, PartialEq, Eq, Structural)]
pub enum MenuCommand {
    /// Bring the main window to the front.
    Show,
    /// Leave the application.
    Quit,
}

/// The identifier under which the framework reports a click on the entry.
pub open spec fn command_id(c: MenuCommand) -> Seq<char> {
    match c {
        MenuCommand::Show => "show"@,
        MenuCommand::Quit => "quit"@,
    }
}

/// The text the user reads on the entry.
pub open spec fn command_label(c: MenuCommand) -> Seq<char> {
    match c {
        MenuCommand::Show => "Mostrar Mãe"@,
        MenuCommand::Quit => "Sair"@,
    }
}

/// The entry a reported identifier stands for, if any.
pub open spec fn command_for_id(id: Seq<char>) -> Option<MenuCommand> {
    if id == "show"@ {
        Some(MenuCommand::Show)
    } else if id == "quit"@ {
        Some(MenuCommand::Quit)
    } else {
        None
    }
}

/// The entries of the tray menu, top to bottom.
pub open spec fn tray_menu_entries() -> Seq<MenuCommand> {
    seq![MenuCommand::Show, MenuCommand::Quit]
}

/// Answer to a click on the menu entry with identifier `id`.
pub open spec fn menu_click_effect(id: Seq<char>, window_found: bool) -> ShellEffect {
    match command_for_id(id) {
        Some(MenuCommand::Quit) => ShellEffect::Exit { code: 0 },
        Some(MenuCommand::Show) => if window_found {
            ShellEffect::RevealWindow
        } else {
            ShellEffect::Nothing
        },
        None => ShellEffect::Nothing,
    }
}

impl MenuCommand {
    /// The identifier the menu item is created with.
    pub fn id(&self) -> (r: &'static str)
        ensures
            r@ == command_id(*self),
    {
        match self {
            MenuCommand::Show => "show",
            MenuCommand::Quit => "quit",
        }
    }

    /// The text shown on the menu item.
    pub fn label(&self) -> (r: &'static str)
        ensures
            r@ == command_label(*self),
    {
        match self {
            MenuCommand::Show => "Mostrar Mãe",
            MenuCommand::Quit => "Sair",
        }
    }

    /// The entry whose identifier is `id`; `None` for any other text.
    pub fn from_id(id: &str) -> (r: Option<MenuCommand>)
        ensures
            r == command_for_id(id@),
    {
        if same_text(id, "show") {
            Some(MenuCommand::Show)
        } else if same_text(id, "quit") {
            Some(MenuCommand::Quit)
        } else {
            None
        }
    }
}

/// The tray menu's entries, top to bottom.
pub fn tray_menu() -> (r: Vec<MenuCommand>)
    ensures
        r@ == tray_menu_entries(),
{
    let r = vec![MenuCommand::Show, MenuCommand::Quit];
    assert(r@ =~= tray_menu_entries());
    r
}

/// Decides the answer to a click on the menu entry with identifier `id`,
/// given whether the main window was found.
pub fn menu_effect(id: &str, window_found: bool) -> (r: ShellEffect)
    ensures
        r == menu_click_effect(id@, window_found),
{
    match MenuCommand::from_id(id) {
        Some(MenuCommand::Quit) => ShellEffect::Exit { code: 0 },
        Some(MenuCommand::Show) => if window_found {
            ShellEffect::RevealWindow
        } else {
            ShellEffect::Nothing
        },
        None => ShellEffect::Nothing,
    }
}

/// Each entry is found again from its own identifier, so no two entries
/// share one.
pub proof fn command_id_round_trip(c: MenuCommand)
    ensures
        command_for_id(command_id(c)) == Some(c),
{
    reveal_strlit("show");
    reveal_strlit("quit");
    assert("show"@[0] != "quit"@[0]);
}

/// Clicking "show" brings up an existing main window and gives it the
/// focus; clicking "quit" ends the process with exit code 0, whether or not
/// the window exists.
pub proof fn menu_entries_act(w: WindowState, window_found: bool)
    ensures
        window_after(menu_click_effect(command_id(MenuCommand::Show), true), w)
            == (WindowState { visible: true, focused: true }),
        menu_click_effect(command_id(MenuCommand::Show), false) == ShellEffect::Nothing,
        menu_click_effect(command_id(MenuCommand::Quit), window_found) == (ShellEffect::Exit {
            code: 0,
        }),
{
    command_id_round_trip(MenuCommand::Show);
    command_id_round_trip(MenuCommand::Quit);
}

} // verus!
