use gtd_timer_shell::routing::TrayButtonState;
use gtd_timer_shell::routing::TrayMouseButton;
use gtd_timer_shell::routing::UiAction;
use gtd_timer_shell::routing::route_app_menu_event;
use gtd_timer_shell::routing::route_tray_click;
use gtd_timer_shell::routing::route_tray_menu_event;

#[test]
fn app_menu_quit_exits_with_code_zero() {
    assert_eq!(route_app_menu_event("quit"), UiAction::Exit(0));
}

#[test]
fn app_menu_toggle_routes_to_toggle() {
    assert_eq!(route_app_menu_event("always_on_top"), UiAction::Toggle);
}

#[test]
fn app_menu_ignores_unknown_ids() {
    assert_eq!(route_app_menu_event("tray_quit"), UiAction::Ignore);
    assert_eq!(route_app_menu_event(""), UiAction::Ignore);
    assert_eq!(route_app_menu_event("view_menu"), UiAction::Ignore);
}

#[test]
fn tray_menu_show_routes_to_show_window() {
    assert_eq!(route_tray_menu_event("tray_show"), UiAction::ShowWindow);
}

#[test]
fn tray_menu_toggle_routes_to_toggle() {
    assert_eq!(route_tray_menu_event("tray_always_on_top"), UiAction::Toggle);
}

#[test]
fn tray_menu_quit_exits_with_code_zero() {
    assert_eq!(route_tray_menu_event("tray_quit"), UiAction::Exit(0));
}

#[test]
fn tray_menu_ignores_app_menu_ids() {
    assert_eq!(route_tray_menu_event("quit"), UiAction::Ignore);
    assert_eq!(route_tray_menu_event("always_on_top"), UiAction::Ignore);
}

#[test]
fn left_click_release_on_tray_shows_the_window() {
    assert_eq!(
        route_tray_click(TrayMouseButton::Left, TrayButtonState::Up),
        UiAction::ShowWindow,
    );
}

#[test]
fn other_tray_clicks_are_ignored() {
    assert_eq!(route_tray_click(TrayMouseButton::Left, TrayButtonState::Down), UiAction::Ignore);
    assert_eq!(route_tray_click(TrayMouseButton::Right, TrayButtonState::Up), UiAction::Ignore);
    assert_eq!(route_tray_click(TrayMouseButton::Right, TrayButtonState::Down), UiAction::Ignore);
    assert_eq!(route_tray_click(TrayMouseButton::Middle, TrayButtonState::Up), UiAction::Ignore);
}
