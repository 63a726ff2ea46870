//! The static menu and tray definitions the shell builds at startup.
//!
//! The application menu is an "App" submenu holding Quit and a "View"
//! submenu holding a checkable "Always on Top" entry; the tray icon
//! carries a context menu with Show Window, the same checkable entry, and
//! Quit, each pair separated. Both "Always on Top" checkboxes are seeded
//! from the flag the window manager reported at launch, defaulting to
//! checked when that query gave no answer.
//!
//! These functions return the menus as plain data; the host-facing shell
//! walks the data and makes the menu, tray and window calls.

use vstd::prelude::*;

use crate::toggle::MirrorState;
use crate::toggle::spec_mirrors_agree;

verus! {

/// One entry of a menu: an ordinary item, a checkable item, or a
/// separator line.
#[derive(Clone, Debug, PartialEq, Eq)]
pub enum MenuEntry {
    /// An ordinary selectable item.
    Action { id: String, label: String, enabled: bool, accelerator: Option<String> },
    /// An item rendered with a checkmark mirroring a boolean state.
    Check { id: String, label: String, enabled: bool, checked: bool },
    /// A separator line between items.
    Separator,
}

/// A titled submenu of the application menu.
#[derive(Clone, Debug, PartialEq, Eq)]
pub struct Submenu {
    pub id: String,
    pub label: String,
    pub entries: Vec<MenuEntry>,
}

/// Everything the shell needs to build the tray icon: its identifier,
/// tooltip, whether a left click opens the context menu, and the menu's
/// entries.
#[derive(Clone, Debug, PartialEq, Eq)]
pub struct TrayDefinition {
    pub icon_id: String,
    pub tooltip: String,
    pub show_menu_on_left_click: bool,
    pub entries: Vec<MenuEntry>,
}

/// The checked state both "Always on Top" checkboxes are seeded with at
/// startup: the flag the window manager reported, or checked when the
/// query gave no answer.
pub open spec fn spec_initial_checked(queried: Option<bool>) -> bool {
    match queried {
        Some(value) => value,
        None => true,
    }
}

/// The mirror record the shell starts with: the application-menu checkbox
/// is always built, the tray checkbox only where a tray was, and both are
/// seeded with the same value.
pub open spec fn spec_startup_mirrors(queried: Option<bool>, tray_built: bool) -> MirrorState {
    MirrorState {
        app_menu: Some(spec_initial_checked(queried)),
        tray: if tray_built {
            Some(spec_initial_checked(queried))
        } else {
            None
        },
    }
}

/// Seed the checkboxes from the window manager's answer at launch,
/// defaulting to checked when the query failed or the window was missing.
pub fn initial_checked(queried: Option<bool>) -> (checked: bool)
    ensures
        checked == spec_initial_checked(queried),
{
    match queried {
        Some(value) => value,
        None => true,
    }
}

/// The mirror record matching what startup built: both constructed
/// checkboxes report the seeded value.
pub fn startup_mirrors(queried: Option<bool>, tray_built: bool) -> (mirrors: MirrorState)
    ensures
        mirrors == spec_startup_mirrors(queried, tray_built),
        spec_mirrors_agree(mirrors, spec_initial_checked(queried)),
{
    let checked = initial_checked(queried);
    MirrorState {
        app_menu: Some(checked),
        tray: if tray_built {
            Some(checked)
        } else {
            None
        },
    }
}

/// At startup every constructed checkbox agrees with the window manager's
/// reported flag, and with true when the query gave no answer.
pub proof fn lemma_startup_seeds(queried: Option<bool>, tray_built: bool)
    ensures
        spec_mirrors_agree(spec_startup_mirrors(queried, tray_built), spec_initial_checked(queried)),
        queried matches Some(value) ==> spec_initial_checked(queried) == value,
        queried is None ==> spec_initial_checked(queried),
{
}

/// The application menu: an "App" submenu whose one entry quits, and a
/// "View" submenu whose one entry is the "Always on Top" checkbox, seeded
/// with `initial_on_top`.
pub fn app_menu_definition(initial_on_top: bool) -> (menus: Vec<Submenu>)
    ensures
        menus@.len() == 2,
        menus@[0].id@ == "app_menu"@,
        menus@[0].label@ == "App"@,
        menus@[0].entries@.len() == 1,
        menus@[0].entries@[0] matches MenuEntry::Action { id, label, enabled, accelerator }
            && id@ == "quit"@ && label@ == "Quit"@ && enabled
            && (accelerator matches Some(a) && a@ == "Cmd+Q"@),
        menus@[1].id@ == "view_menu"@,
        menus@[1].label@ == "View"@,
        menus@[1].entries@.len() == 1,
        menus@[1].entries@[0] matches MenuEntry::Check { id, label, enabled, checked }
            && id@ == "always_on_top"@ && label@ == "Always on Top"@ && enabled
            && checked == initial_on_top,
{
    let quit_item = MenuEntry::Action {
        id: "quit".to_owned(),
        label: "Quit".to_owned(),
        enabled: true,
        accelerator: Some("Cmd+Q".to_owned()),
    };
    let mut app_entries: Vec<MenuEntry> = Vec::new();
    app_entries.push(quit_item);
    let app_submenu = Submenu {
        id: "app_menu".to_owned(),
        label: "App".to_owned(),
        entries: app_entries,
    };

    let toggle_item = MenuEntry::Check {
        id: "always_on_top".to_owned(),
        label: "Always on Top".to_owned(),
        enabled: true,
        checked: initial_on_top,
    };
    let mut view_entries: Vec<MenuEntry> = Vec::new();
    view_entries.push(toggle_item);
    let view_submenu = Submenu {
        id: "view_menu".to_owned(),
        label: "View".to_owned(),
        entries: view_entries,
    };

    let mut menus: Vec<Submenu> = Vec::new();
    menus.push(app_submenu);
    menus.push(view_submenu);
    menus
}

/// The tray icon and its context menu: Show Window, the "Always on Top"
/// checkbox seeded with `initial_on_top`, and Quit, with a separator
/// between each pair. A left click on the icon does not open the menu;
/// it shows the window instead.
pub fn tray_definition(initial_on_top: bool) -> (tray: TrayDefinition)
    ensures
        tray.icon_id@ == "main_tray"@,
        tray.tooltip@ == "GTD Timer"@,
        !tray.show_menu_on_left_click,
        tray.entries@.len() == 5,
        tray.entries@[0] matches MenuEntry::Action { id, label, enabled, accelerator }
            && id@ == "tray_show"@ && label@ == "Show Window"@ && enabled
            && accelerator is None,
        tray.entries@[1] is Separator,
        tray.entries@[2] matches MenuEntry::Check { id, label, enabled, checked }
            && id@ == "tray_always_on_top"@ && label@ == "Always on Top"@ && enabled
            && checked == initial_on_top,
        tray.entries@[3] is Separator,
        tray.entries@[4] matches MenuEntry::Action { id, label, enabled, accelerator }
            && id@ == "tray_quit"@ && label@ == "Quit"@ && enabled
            && accelerator is None,
{
    let show_item = MenuEntry::Action {
        id: "tray_show".to_owned(),
        label: "Show Window".to_owned(),
        enabled: true,
        accelerator: None,
    };
    let toggle_item = MenuEntry::Check {
        id: "tray_always_on_top".to_owned(),
        label: "Always on Top".to_owned(),
        enabled: true,
        checked: initial_on_top,
    };
    let quit_item = MenuEntry::Action {
        id: "tray_quit".to_owned(),
        label: "Quit".to_owned(),
        enabled: true,
        accelerator: None,
    };
    let mut entries: Vec<MenuEntry> = Vec::new();
    entries.push(show_item);
    entries.push(MenuEntry::Separator);
    entries.push(toggle_item);
    entries.push(MenuEntry::Separator);
    entries.push(quit_item);
    TrayDefinition {
        icon_id: "main_tray".to_owned(),
        tooltip: "GTD Timer".to_owned(),
        show_menu_on_left_click: false,
        entries,
    }
}

/// The label of the main window, under which the shell looks it up.
pub fn main_window_label() -> (label: &'static str)
    ensures
        label@ == "main"@,
{
    "main"
}

} // verus!
