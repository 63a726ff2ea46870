//! A model of the one window the shell manages, as the window manager
//! exposes it: whether the underlying window is still live, whether it is
//! kept above all other windows, and whether it is visible and focused.
//!
//! The authoritative state lives in the host's window manager; the shell
//! only queries and mutates it. These functions model those host calls:
//! each query or mutation succeeds exactly when the window is still live,
//! and fails with an error message once it has been destroyed.

use vstd::prelude::*;

verus! {

/// The window-manager state of the main window, as far as the shell reads
/// or writes it.
#[derive(Clone, Copy, Debug, PartialEq, Eq)]
pub struct WindowState {
    /// Whether the underlying window still exists. Host calls on a
    /// destroyed window fail.
    pub live: bool,
    /// The always-on-top flag: the window is kept above all others.
    pub always_on_top: bool,
    /// Whether the window is currently shown.
    pub visible: bool,
    /// Whether the window currently has focus.
    pub focused: bool,
}

/// The message reported when a host call finds the window destroyed.
pub open spec fn spec_window_gone() -> Seq<char> {
    "window destroyed"@
}

/// What a toggle of the always-on-top flag does to the window: flips the
/// flag when the window is live, changes nothing when it is gone.
pub open spec fn spec_toggle_window(w: WindowState) -> WindowState {
    if w.live {
        WindowState {
            live: true,
            always_on_top: !w.always_on_top,
            visible: w.visible,
            focused: w.focused,
        }
    } else {
        w
    }
}

/// Query the always-on-top flag, as the window manager answers it: the
/// current flag while the window is live, an error once it is gone.
pub fn is_always_on_top(w: &WindowState) -> (r: Result<bool, String>)
    ensures
        w.live ==> r == Ok::<bool, String>(w.always_on_top),
        !w.live ==> (r matches Err(m) && m@ == spec_window_gone()),
{
    if w.live {
        Ok(w.always_on_top)
    } else {
        Err("window destroyed".to_owned())
    }
}

/// Ask the window manager to set the always-on-top flag. Succeeds and
/// records the new flag while the window is live; fails and changes
/// nothing once it is gone.
pub fn set_always_on_top(w: &mut WindowState, value: bool) -> (r: Result<(), String>)
    ensures
        old(w).live ==> (r is Ok && *final(w) == (WindowState {
            live: true,
            always_on_top: value,
            visible: old(w).visible,
            focused: old(w).focused,
        })),
        !old(w).live ==> (r matches Err(m) && m@ == spec_window_gone() && *final(w) == *old(w)),
{
    if w.live {
        w.always_on_top = value;
        Ok(())
    } else {
        Err("window destroyed".to_owned())
    }
}

/// Show the window and give it focus, as the "Show Window" surfaces do: a
/// hidden window becomes visible and focused, and a window that was
/// already visible is merely refocused. A destroyed window is unchanged.
pub fn show_and_focus(w: &mut WindowState)
    ensures
        old(w).live ==> *final(w) == (WindowState {
            live: true,
            always_on_top: old(w).always_on_top,
            visible: true,
            focused: true,
        }),
        !old(w).live ==> *final(w) == *old(w),
{
    if w.live {
        w.visible = true;
        w.focused = true;
    }
}

} // verus!
