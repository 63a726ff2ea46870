//! Native-shell logic for a desktop webview application: the application
//! menu and tray-menu definitions, the routing of menu and tray events to
//! actions, and the coordinator that toggles the window manager's
//! always-on-top flag and keeps every menu checkbox in agreement with it.
//!
//! The window manager itself is the host's: this crate models its observable
//! state (`window::WindowState`) and owns every decision made about it, while
//! the host-facing shell performs the actual window, menu and tray calls.

pub mod menu;
pub mod routing;
pub mod toggle;
pub mod window;
