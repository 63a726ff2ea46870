use gtd_timer_shell::menu::MenuEntry;
use gtd_timer_shell::menu::app_menu_definition;
use gtd_timer_shell::menu::initial_checked;
use gtd_timer_shell::menu::main_window_label;
use gtd_timer_shell::menu::startup_mirrors;
use gtd_timer_shell::menu::tray_definition;
use gtd_timer_shell::toggle::MirrorState;
use gtd_timer_shell::window::WindowState;
use gtd_timer_shell::window::show_and_focus;

#[test]
fn app_menu_holds_app_and_view_submenus() {
    let menus = app_menu_definition(true);
    assert_eq!(menus.len(), 2);
    assert_eq!(menus[0].id, "app_menu");
    assert_eq!(menus[0].label, "App");
    assert_eq!(menus[1].id, "view_menu");
    assert_eq!(menus[1].label, "View");
}

#[test]
fn app_submenu_quits_with_accelerator() {
    let menus = app_menu_definition(false);
    assert_eq!(menus[0].entries.len(), 1);
    let expected = MenuEntry::Action {
        id: "quit".to_owned(),
        label: "Quit".to_owned(),
        enabled: true,
        accelerator: Some("Cmd+Q".to_owned()),
    };
    assert_eq!(menus[0].entries[0], expected);
}

#[test]
fn view_submenu_checkbox_is_seeded() {
    for initial in [false, true] {
        let menus = app_menu_definition(initial);
        let expected = MenuEntry::Check {
            id: "always_on_top".to_owned(),
            label: "Always on Top".to_owned(),
            enabled: true,
            checked: initial,
        };
        assert_eq!(menus[1].entries[0], expected);
    }
}

#[test]
fn tray_is_configured_for_left_click_show() {
    let tray = tray_definition(true);
    assert_eq!(tray.icon_id, "main_tray");
    assert_eq!(tray.tooltip, "GTD Timer");
    assert!(!tray.show_menu_on_left_click);
}

#[test]
fn tray_menu_lists_show_toggle_quit_separated() {
    let tray = tray_definition(false);
    assert_eq!(tray.entries.len(), 5);
    assert_eq!(
        tray.entries[0],
        MenuEntry::Action {
            id: "tray_show".to_owned(),
            label: "Show Window".to_owned(),
            enabled: true,
            accelerator: None,
        },
    );
    assert_eq!(tray.entries[1], MenuEntry::Separator);
    assert_eq!(
        tray.entries[2],
        MenuEntry::Check {
            id: "tray_always_on_top".to_owned(),
            label: "Always on Top".to_owned(),
            enabled: true,
            checked: false,
        },
    );
    assert_eq!(tray.entries[3], MenuEntry::Separator);
    assert_eq!(
        tray.entries[4],
        MenuEntry::Action {
            id: "tray_quit".to_owned(),
            label: "Quit".to_owned(),
            enabled: true,
            accelerator: None,
        },
    );
}

#[test]
fn tray_checkbox_is_seeded() {
    for initial in [false, true] {
        let tray = tray_definition(initial);
        match &tray.entries[2] {
            MenuEntry::Check { checked, .. } => assert_eq!(*checked, initial),
            other => panic!("expected a checkable entry, got {:?}", other),
        }
    }
}

#[test]
fn seeding_defaults_to_checked_when_the_query_failed() {
    assert!(initial_checked(None));
    assert!(initial_checked(Some(true)));
    assert!(!initial_checked(Some(false)));
}

#[test]
fn startup_mirrors_match_the_seeded_value() {
    assert_eq!(
        startup_mirrors(Some(false), true),
        MirrorState { app_menu: Some(false), tray: Some(false) },
    );
    assert_eq!(
        startup_mirrors(None, true),
        MirrorState { app_menu: Some(true), tray: Some(true) },
    );
    assert_eq!(
        startup_mirrors(Some(true), false),
        MirrorState { app_menu: Some(true), tray: None },
    );
}

#[test]
fn show_and_focus_reveals_a_hidden_window() {
    let mut window = WindowState { live: true, always_on_top: false, visible: false, focused: false };
    show_and_focus(&mut window);
    assert!(window.visible);
    assert!(window.focused);
}

#[test]
fn show_and_focus_refocuses_a_visible_window() {
    let mut window = WindowState { live: true, always_on_top: true, visible: true, focused: false };
    show_and_focus(&mut window);
    assert_eq!(
        window,
        WindowState { live: true, always_on_top: true, visible: true, focused: true },
    );
}

#[test]
fn main_window_is_looked_up_by_its_label() {
    assert_eq!(main_window_label(), "main");
}
