//! Routing of user events to shell actions.
//!
//! Three surfaces raise events: the application menu, the tray icon's
//! context menu, and the tray icon itself. Each routing function maps one
//! event to the single action the shell takes for it: toggle the
//! always-on-top flag, show and focus the main window, exit the process,
//! or ignore the event. Identifiers outside the fixed set are ignored.

use vstd::prelude::*;

verus! {

/// The action the shell takes for a routed event.
#[derive(Clone, Copy, Debug, PartialEq, Eq)]
pub enum UiAction {
    /// Toggle the window's always-on-top flag.
    Toggle,
    /// Show the main window and give it focus.
    ShowWindow,
    /// Terminate the process with this exit code.
    Exit(i32),
    /// Do nothing.
    Ignore,
}

/// The mouse button of a tray-icon click, as the shell distinguishes them.
#[derive(Clone, Copy, Debug, PartialEq, Eq)]
pub enum TrayMouseButton {
    Left,
    Right,
    Middle,
}

/// Whether a tray-icon click reports the button pressed or released.
#[derive(Clone, Copy, Debug, PartialEq, Eq)]
pub enum TrayButtonState {
    Up,
    Down,
}

/// Where an application-menu selection routes: "quit" exits with code 0,
/// "always_on_top" toggles the flag, anything else is ignored.
pub open spec fn spec_route_app_menu(id: Seq<char>) -> UiAction {
    if id == "quit"@ {
        UiAction::Exit(0)
    } else if id == "always_on_top"@ {
        UiAction::Toggle
    } else {
        UiAction::Ignore
    }
}

/// Where a tray-menu selection routes: "tray_show" shows the window,
/// "tray_always_on_top" toggles the flag, "tray_quit" exits with code 0,
/// anything else is ignored.
pub open spec fn spec_route_tray_menu(id: Seq<char>) -> UiAction {
    if id == "tray_show"@ {
        UiAction::ShowWindow
    } else if id == "tray_always_on_top"@ {
        UiAction::Toggle
    } else if id == "tray_quit"@ {
        UiAction::Exit(0)
    } else {
        UiAction::Ignore
    }
}

/// Where a tray-icon click routes: releasing the left button shows the
/// window, every other click is ignored.
pub open spec fn spec_route_tray_click(
    button: TrayMouseButton,
    state: TrayButtonState,
) -> UiAction {
    if button is Left && state is Up {
        UiAction::ShowWindow
    } else {
        UiAction::Ignore
    }
}

/// Whether two string slices hold the same characters.
fn str_eq(a: &str, b: &str) -> (r: bool)
    ensures
        r == (a@ == b@),
{
    let owned_a: String = a.to_owned();
    let owned_b: String = b.to_owned();
    owned_a == owned_b
}

/// Route a selection in the application menu by its identifier.
pub fn route_app_menu_event(id: &str) -> (action: UiAction)
    ensures
        action == spec_route_app_menu(id@),
{
    if str_eq(id, "quit") {
        UiAction::Exit(0)
    } else if str_eq(id, "always_on_top") {
        UiAction::Toggle
    } else {
        UiAction::Ignore
    }
}

/// Route a selection in the tray icon's context menu by its identifier.
pub fn route_tray_menu_event(id: &str) -> (action: UiAction)
    ensures
        action == spec_route_tray_menu(id@),
{
    if str_eq(id, "tray_show") {
        UiAction::ShowWindow
    } else if str_eq(id, "tray_always_on_top") {
        UiAction::Toggle
    } else if str_eq(id, "tray_quit") {
        UiAction::Exit(0)
    } else {
        UiAction::Ignore
    }
}

/// Route a click on the tray icon itself.
pub fn route_tray_click(button: TrayMouseButton, state: TrayButtonState) -> (action: UiAction)
    ensures
        action == spec_route_tray_click(button, state),
{
    match (button, state) {
        (TrayMouseButton::Left, TrayButtonState::Up) => UiAction::ShowWindow,
        _ => UiAction::Ignore,
    }
}

/// Both quit entries terminate the process with exit code 0, both
/// "Always on Top" entries toggle the flag, and both show surfaces make
/// the window visible: the identifiers the menu definitions carry route
/// to exactly the intended actions.
pub proof fn lemma_menu_ids_route()
    ensures
        spec_route_app_menu("quit"@) == UiAction::Exit(0),
        spec_route_app_menu("always_on_top"@) == UiAction::Toggle,
        spec_route_tray_menu("tray_show"@) == UiAction::ShowWindow,
        spec_route_tray_menu("tray_always_on_top"@) == UiAction::Toggle,
        spec_route_tray_menu("tray_quit"@) == UiAction::Exit(0),
        spec_route_tray_click(TrayMouseButton::Left, TrayButtonState::Up) == UiAction::ShowWindow,
{
    reveal_strlit("quit");
    reveal_strlit("always_on_top");
    reveal_strlit("tray_show");
    reveal_strlit("tray_always_on_top");
    reveal_strlit("tray_quit");
    assert("quit"@.len() == 4);
    assert("always_on_top"@.len() == 13);
    assert("tray_show"@.len() == 9);
    assert("tray_always_on_top"@.len() == 18);
    assert("tray_quit"@.len() == 9);
    assert("tray_quit"@[5] != "tray_show"@[5]);
}

} // verus!
