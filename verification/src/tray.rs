//! The tray menu: its entries and what each one does.

use vstd::prelude::*;

verus! {

// The identifiers of the menu's entries.

pub const MENU_TOGGLE_VISIBILITY: &'static str = "toggle_visibility";

pub const MENU_OPEN_CHAT: &'static str = "open_chat";

pub const MENU_OPEN_SETTINGS: &'static str = "open_settings";

pub const MENU_TOGGLE_CLICK_THROUGH: &'static str = "toggle_click_through";

pub const MENU_TOGGLE_DRAG_MODE: &'static str = "toggle_drag_mode";

pub const MENU_QUIT: &'static str = "quit";

/// What a tray menu entry asks for.
#[derive(Clone, Copy, Debug, PartialEq, Eq)]
pub enum MenuAction {
    ToggleVisibility,
    OpenChat,
    OpenSettings,
    ToggleClickThrough,
    ToggleDragMode,
    Quit,
}

/// What is done to the main window when its visibility is toggled.
#[derive(Clone, Copy, Debug, PartialEq, Eq)]
pub enum VisibilityChange {
    Hide,
    ShowAndFocus,
}

/// The action behind a menu entry's identifier; none for an identifier
/// the menu does not have.
pub open spec fn spec_menu_action(id: Seq<char>) -> Option<MenuAction> {
    if id == MENU_TOGGLE_VISIBILITY@ {
        Some(MenuAction::ToggleVisibility)
    } else if id == MENU_TOGGLE_CLICK_THROUGH@ {
        Some(MenuAction::ToggleClickThrough)
    } else if id == MENU_OPEN_CHAT@ {
        Some(MenuAction::OpenChat)
    } else if id == MENU_OPEN_SETTINGS@ {
        Some(MenuAction::OpenSettings)
    } else if id == MENU_TOGGLE_DRAG_MODE@ {
        Some(MenuAction::ToggleDragMode)
    } else if id == MENU_QUIT@ {
        Some(MenuAction::Quit)
    } else {
        None
    }
}

/// Finds the action behind a menu entry's identifier.
pub fn menu_action(id: &str) -> (action: Option<MenuAction>)
    ensures
        action == spec_menu_action(id@),
{
    let id = id.to_owned();
    if id == MENU_TOGGLE_VISIBILITY.to_owned() {
        Some(MenuAction::ToggleVisibility)
    } else if id == MENU_TOGGLE_CLICK_THROUGH.to_owned() {
        Some(MenuAction::ToggleClickThrough)
    } else if id == MENU_OPEN_CHAT.to_owned() {
        Some(MenuAction::OpenChat)
    } else if id == MENU_OPEN_SETTINGS.to_owned() {
        Some(MenuAction::OpenSettings)
    } else if id == MENU_TOGGLE_DRAG_MODE.to_owned() {
        Some(MenuAction::ToggleDragMode)
    } else if id == MENU_QUIT.to_owned() {
        Some(MenuAction::Quit)
    } else {
        None
    }
}

/// Decides what toggling visibility does: a visible window is hidden, a
/// hidden one is shown and focused. A window whose visibility could not
/// be read counts as visible.
pub fn toggle_visibility(visible: Option<bool>) -> (change: VisibilityChange)
    ensures
        change == match visible {
            Some(false) => VisibilityChange::ShowAndFocus,
            _ => VisibilityChange::Hide,
        },
{
    match visible {
        Some(false) => VisibilityChange::ShowAndFocus,
        _ => VisibilityChange::Hide,
    }
}

} // verus!
